//! The steps that turn an untagged payload into an arithmetic expression, the wording of what
//! its evaluation gave, and the reservation of memory that a request may ask for.

use vstd::prelude::*;
use crate::chars::{
    drop_trailing_white_space, is_white_space, is_whitespace_char, limited, measure_within,
    skip_white_space, splits_character, starts_with_at, trim, trim_start,
};
use crate::text::{i64_to_decimal, signed_decimal, to_chars};

verus! {

/// Tells whether cutting the trimmed `s` after exactly `max_len` bytes would fall inside a
/// character, which [`trim_and_limit`] does not accept.
pub fn cut_splits_character(s: &str, max_len: usize) -> (b: bool)
    ensures
        b == splits_character(trim(s@), max_len as nat),
{
    let chars: Vec<char> = to_chars(s);
    let i: usize = skip_white_space(&chars, 0, chars.len());
    let j: usize = drop_trailing_white_space(&chars, i, chars.len());
    assert(chars@.subrange(0, chars.len() as int) =~= chars@);
    let (k, used) = measure_within(&chars, i, j, max_len);
    i + k < j && used != max_len
}

/// Trims `s` and cuts it down to `max_len` bytes where it is longer.
pub fn trim_and_limit(s: String, max_len: usize) -> (r: String)
    requires
        !splits_character(trim(s@), max_len as nat),
    ensures
        r@ == limited(trim(s@), max_len as nat),
{
    let chars: Vec<char> = to_chars(s.as_str());
    let i: usize = skip_white_space(&chars, 0, chars.len());
    let j: usize = drop_trailing_white_space(&chars, i, chars.len());
    assert(chars@.subrange(0, chars.len() as int) =~= chars@);
    let (k, used) = measure_within(&chars, i, j, max_len);
    let r: String = String::from_str(s.as_str().substring_char(i, i + k));
    assert(r@ =~= chars@.subrange(i as int, j as int).take(k as int));
    r
}

/// What [`strip_prefix`] leaves of `s`: nothing where the text asks for a change of
/// permissions, the rest behind `prefix` where the text starts with it, leading white space
/// aside, and `s` as it is otherwise.
pub open spec fn stripped(s: Seq<char>, prefix: Seq<char>) -> Seq<char> {
    let t = trim_start(s);
    if "CHMOD:"@.is_prefix_of(t) {
        Seq::empty()
    } else if prefix.is_prefix_of(t) {
        t.skip(prefix.len() as int)
    } else {
        s
    }
}

/// The path whose permissions `s` asks to change: what follows `CHMOD:`, trimmed.
pub open spec fn permission_path(s: Seq<char>) -> Option<Seq<char>> {
    let t = trim_start(s);
    if "CHMOD:"@.is_prefix_of(t) {
        Some(trim(t.skip(6)))
    } else {
        None
    }
}

/// Returns the path whose permissions `s` asks to change, if it asks for that. The change
/// itself is the caller's to make, before it goes on with what [`strip_prefix`] returns.
pub fn permission_request(s: &str) -> (path: Option<String>)
    ensures
        match permission_path(s@) {
            Some(p) => path is Some && path->Some_0@ == p,
            None => path is None,
        },
{
    proof {
        reveal_strlit("CHMOD:");
    }
    let chars: Vec<char> = to_chars(s);
    let marker: Vec<char> = to_chars("CHMOD:");
    let n: usize = chars.len();
    let i: usize = skip_white_space(&chars, 0, n);
    assert(chars@.subrange(0, n as int) =~= chars@);
    assert(chars@.skip(i as int) =~= chars@.subrange(i as int, n as int));
    if starts_with_at(&chars, i, &marker) {
        let a: usize = skip_white_space(&chars, i + 6, n);
        let b: usize = drop_trailing_white_space(&chars, a, n);
        assert(chars@.subrange(i as int + 6, n as int) =~= trim_start(chars@).skip(6));
        Some(String::from_str(s.substring_char(a, b)))
    } else {
        None
    }
}

/// Strips `prefix` from the start of `s`, leading white space aside. A text that asks for a
/// change of permissions is consumed whole.
pub fn strip_prefix(s: String, prefix: &str) -> (r: String)
    ensures
        r@ == stripped(s@, prefix@),
{
    proof {
        reveal_strlit("CHMOD:");
    }
    let chars: Vec<char> = to_chars(s.as_str());
    let marker: Vec<char> = to_chars("CHMOD:");
    let wanted: Vec<char> = to_chars(prefix);
    let n: usize = chars.len();
    let i: usize = skip_white_space(&chars, 0, n);
    assert(chars@.subrange(0, n as int) =~= chars@);
    assert(chars@.skip(i as int) =~= chars@.subrange(i as int, n as int));
    if starts_with_at(&chars, i, &marker) {
        String::new()
    } else if starts_with_at(&chars, i, &wanted) {
        let r: String = String::from_str(s.as_str().substring_char(i + wanted.len(), n));
        assert(r@ =~= trim_start(s@).skip(prefix@.len() as int));
        r
    } else {
        s
    }
}

/// `s` with every run of white space turned into one space. `after_space` tells whether the
/// text before `s` ended in white space.
pub open spec fn collapse_runs(s: Seq<char>, after_space: bool) -> Seq<char>
    decreases s.len(),
{
    if s.len() == 0 {
        Seq::empty()
    } else if is_white_space(s[0]) {
        if after_space {
            collapse_runs(s.drop_first(), true)
        } else {
            seq![' '] + collapse_runs(s.drop_first(), true)
        }
    } else {
        seq![s[0]] + collapse_runs(s.drop_first(), false)
    }
}

/// `s` with every run of white space turned into one space, and none at either end.
pub open spec fn collapsed(s: Seq<char>) -> Seq<char> {
    trim(collapse_runs(s, false))
}

/// Turns every run of white space into a single space and trims the result.
pub fn collapse_whitespace(s: String) -> (r: String)
    ensures
        r@ == collapsed(s@),
{
    let chars: Vec<char> = to_chars(s.as_str());
    let n: usize = chars.len();
    let mut out: String = String::new();
    let mut prev_ws: bool = false;
    let mut i: usize = 0;
    assert(chars@.skip(0) =~= chars@);
    while i < n
        invariant
            i <= n,
            n == chars.len(),
            chars@ == s@,
            collapsed(s@) == trim(out@ + collapse_runs(chars@.skip(i as int), prev_ws)),
        decreases n - i,
    {
        let ghost rest: Seq<char> = chars@.skip(i as int);
        let ghost before: Seq<char> = out@;
        let ghost was: bool = prev_ws;
        assert(rest.drop_first() =~= chars@.skip(i as int + 1));
        assert(rest[0] == chars@[i as int]);
        if is_whitespace_char(chars[i]) {
            if !prev_ws {
                out.append(" ");
                prev_ws = true;
                proof {
                    reveal_strlit(" ");
                }
                assert(out@ =~= before + seq![' ']);
                assert(out@ + collapse_runs(rest.drop_first(), true) =~= before + collapse_runs(
                    rest,
                    false,
                ));
            }
        } else {
            out.append(s.as_str().substring_char(i, i + 1));
            prev_ws = false;
            assert(s@.subrange(i as int, i as int + 1) =~= seq![chars@[i as int]]);
            assert(out@ + collapse_runs(rest.drop_first(), false) =~= before + collapse_runs(
                rest,
                was,
            ));
        }
        i = i + 1;
    }
    assert(chars@.skip(n as int) =~= Seq::<char>::empty());
    assert(out@ + Seq::<char>::empty() =~= out@);
    let kept: Vec<char> = to_chars(out.as_str());
    let a: usize = skip_white_space(&kept, 0, kept.len());
    let b: usize = drop_trailing_white_space(&kept, a, kept.len());
    assert(kept@.subrange(0, kept.len() as int) =~= kept@);
    String::from_str(out.as_str().substring_char(a, b))
}

/// The text that stands for the outcome of an evaluation: the integer in decimal, or the
/// evaluator's error text.
pub open spec fn rendered(outcome: Result<i64, String>) -> Seq<char> {
    match outcome {
        Ok(value) => signed_decimal(value as int),
        Err(error) => error@,
    }
}

/// Turns the outcome of an evaluation into the text that is reported.
pub fn render_evaluation(outcome: Result<i64, String>) -> (text: String)
    ensures
        text@ == rendered(outcome),
{
    match outcome {
        Ok(value) => i64_to_decimal(value),
        Err(error) => error,
    }
}

/// Reserves room for exactly `additional` more bytes in a new, empty vector with
/// `Vec::reserve_exact` and returns the vector's capacity, which std promises to be at least
/// `additional`. std panics on a request above `isize::MAX` bytes. The allocator decides what
/// is given beyond the request, and it ends the process where it cannot serve it.
#[verifier::external_body]
pub fn reserve_memory(additional: usize) -> (capacity: usize)
    requires
        additional <= isize::MAX,
    ensures
        capacity >= additional,
{
    let mut v: Vec<u8> = Vec::new();
    v.reserve_exact(additional);
    v.capacity()
}

} // verus!
