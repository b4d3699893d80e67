//! Digests of credentials and of response sizes, written as lower-case hexadecimal text.

use vstd::prelude::*;
use vstd::utf8::*;

verus! {

/// The MD5 digest of `data`: 16 bytes.
pub uninterp spec fn md5_of(data: Seq<u8>) -> Seq<u8>;

/// The MD4 digest of `data`: 16 bytes.
pub uninterp spec fn md4_of(data: Seq<u8>) -> Seq<u8>;

/// Computes the MD5 digest of `data` with `md5::compute`. The digest depends on the bytes
/// alone; which bytes it holds is not stated here.
#[verifier::external_body]
fn md5_digest(data: &[u8]) -> (digest: [u8; 16])
    ensures
        digest@ == md5_of(data@),
{
    md5::compute(data).0
}

/// Computes the MD4 digest of `data` with one `update` and `finalize` of a new `md4::Md4`. The
/// digest depends on the bytes alone; which bytes it holds is not stated here.
#[verifier::external_body]
fn md4_digest(data: &[u8]) -> (digest: [u8; 16])
    ensures
        digest@ == md4_of(data@),
{
    let mut hasher = <md4::Md4 as md4::Digest>::new();
    md4::Digest::update(&mut hasher, data);
    let mut digest = [0u8; 16];
    digest.copy_from_slice(&md4::Digest::finalize(hasher));
    digest
}

/// The character of one hexadecimal digit, in lower case.
pub open spec fn hex_char(d: nat) -> char {
    if d == 0 {
        '0'
    } else if d == 1 {
        '1'
    } else if d == 2 {
        '2'
    } else if d == 3 {
        '3'
    } else if d == 4 {
        '4'
    } else if d == 5 {
        '5'
    } else if d == 6 {
        '6'
    } else if d == 7 {
        '7'
    } else if d == 8 {
        '8'
    } else if d == 9 {
        '9'
    } else if d == 10 {
        'a'
    } else if d == 11 {
        'b'
    } else if d == 12 {
        'c'
    } else if d == 13 {
        'd'
    } else if d == 14 {
        'e'
    } else {
        'f'
    }
}

/// The bytes written as two lower-case hexadecimal digits each.
pub open spec fn hex_lower(bytes: Seq<u8>) -> Seq<char>
    decreases bytes.len(),
{
    if bytes.len() == 0 {
        Seq::empty()
    } else {
        hex_lower(bytes.drop_last()).push(hex_char(bytes.last() as nat / 16)).push(
            hex_char(bytes.last() as nat % 16),
        )
    }
}

/// The string of one hexadecimal digit.
pub fn hex_str(d: u8) -> (s: &'static str)
    requires
        d < 16,
    ensures
        s@ == seq![hex_char(d as nat)],
{
    proof {
        reveal_strlit("0");
        reveal_strlit("1");
        reveal_strlit("2");
        reveal_strlit("3");
        reveal_strlit("4");
        reveal_strlit("5");
        reveal_strlit("6");
        reveal_strlit("7");
        reveal_strlit("8");
        reveal_strlit("9");
        reveal_strlit("a");
        reveal_strlit("b");
        reveal_strlit("c");
        reveal_strlit("d");
        reveal_strlit("e");
        reveal_strlit("f");
    }
    let s: &'static str = if d == 0 {
        "0"
    } else if d == 1 {
        "1"
    } else if d == 2 {
        "2"
    } else if d == 3 {
        "3"
    } else if d == 4 {
        "4"
    } else if d == 5 {
        "5"
    } else if d == 6 {
        "6"
    } else if d == 7 {
        "7"
    } else if d == 8 {
        "8"
    } else if d == 9 {
        "9"
    } else if d == 10 {
        "a"
    } else if d == 11 {
        "b"
    } else if d == 12 {
        "c"
    } else if d == 13 {
        "d"
    } else if d == 14 {
        "e"
    } else {
        "f"
    };
    assert(s@ =~= seq![hex_char(d as nat)]);
    s
}

/// Writes the bytes as lower-case hexadecimal text, two digits each.
pub fn to_hex(bytes: &[u8]) -> (text: String)
    ensures
        text@ == hex_lower(bytes@),
{
    let mut text: String = String::new();
    let mut i: usize = 0;
    assert(bytes@.take(0) =~= Seq::<u8>::empty());
    while i < bytes.len()
        invariant
            i <= bytes.len(),
            text@ == hex_lower(bytes@.take(i as int)),
        decreases bytes.len() - i,
    {
        let b: u8 = bytes[i];
        let ghost before: Seq<char> = text@;
        assert(bytes@.take(i as int + 1).drop_last() =~= bytes@.take(i as int));
        assert(bytes@.take(i as int + 1).last() == b);
        text.append(hex_str(b / 16));
        text.append(hex_str(b % 16));
        assert(text@ =~= before.push(hex_char(b as nat / 16)).push(hex_char(b as nat % 16)));
        i = i + 1;
    }
    assert(bytes@.take(i as int) =~= bytes@);
    text
}

/// The MD5 digest of the password's UTF-8 bytes, in hexadecimal.
pub fn hash_password(password: &str) -> (text: String)
    ensures
        text@ == hex_lower(md5_of(encode_utf8(password@))),
{
    let digest: [u8; 16] = md5_digest(password.as_bytes());
    to_hex(digest.as_slice())
}

/// The MD4 digest of the text's UTF-8 bytes, in hexadecimal.
pub fn calculate_content_checksum(content_data: &str) -> (text: String)
    ensures
        text@ == hex_lower(md4_of(encode_utf8(content_data@))),
{
    let digest: [u8; 16] = md4_digest(content_data.as_bytes());
    to_hex(digest.as_slice())
}

} // verus!
