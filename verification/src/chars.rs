//! Rules on single characters and on runs of them: white space, trimming, prefixes and the
//! decimal numbers that the tagged requests carry.

use vstd::prelude::*;
use vstd::utf8::*;
use crate::text::byte_len;

verus! {

/// The characters with the Unicode property `White_Space`.
pub open spec fn is_white_space(c: char) -> bool {
    let u = c as u32;
    ||| 0x09 <= u <= 0x0D
    ||| u == 0x20
    ||| u == 0x85
    ||| u == 0xA0
    ||| u == 0x1680
    ||| 0x2000 <= u <= 0x200A
    ||| u == 0x2028
    ||| u == 0x2029
    ||| u == 0x202F
    ||| u == 0x205F
    ||| u == 0x3000
}

/// Tells whether `c` is white space.
pub fn is_whitespace_char(c: char) -> (b: bool)
    ensures
        b == is_white_space(c),
{
    let u: u32 = c as u32;
    (0x09 <= u && u <= 0x0D) || u == 0x20 || u == 0x85 || u == 0xA0 || u == 0x1680 || (0x2000 <= u
        && u <= 0x200A) || u == 0x2028 || u == 0x2029 || u == 0x202F || u == 0x205F || u == 0x3000
}

/// `s` without its leading white space.
pub open spec fn trim_start(s: Seq<char>) -> Seq<char>
    decreases s.len(),
{
    if s.len() > 0 && is_white_space(s[0]) {
        trim_start(s.drop_first())
    } else {
        s
    }
}

/// `s` without its trailing white space.
pub open spec fn trim_end(s: Seq<char>) -> Seq<char>
    decreases s.len(),
{
    if s.len() > 0 && is_white_space(s.last()) {
        trim_end(s.drop_last())
    } else {
        s
    }
}

/// `s` without its leading and trailing white space.
pub open spec fn trim(s: Seq<char>) -> Seq<char> {
    trim_end(trim_start(s))
}

/// Finds where the text between `from` and `to` starts once its leading white space is gone.
pub fn skip_white_space(chars: &Vec<char>, from: usize, to: usize) -> (i: usize)
    requires
        from <= to <= chars.len(),
    ensures
        from <= i <= to,
        chars@.subrange(i as int, to as int) == trim_start(chars@.subrange(from as int, to as int)),
{
    let mut i: usize = from;
    while i < to && is_whitespace_char(chars[i])
        invariant
            from <= i <= to <= chars.len(),
            trim_start(chars@.subrange(i as int, to as int)) == trim_start(
                chars@.subrange(from as int, to as int),
            ),
        decreases to - i,
    {
        assert(chars@.subrange(i as int, to as int).drop_first() =~= chars@.subrange(
            i as int + 1,
            to as int,
        ));
        i = i + 1;
    }
    i
}

/// Finds where the text between `from` and `to` ends once its trailing white space is gone.
pub fn drop_trailing_white_space(chars: &Vec<char>, from: usize, to: usize) -> (j: usize)
    requires
        from <= to <= chars.len(),
    ensures
        from <= j <= to,
        chars@.subrange(from as int, j as int) == trim_end(chars@.subrange(from as int, to as int)),
{
    let mut j: usize = to;
    while j > from && is_whitespace_char(chars[j - 1])
        invariant
            from <= j <= to <= chars.len(),
            trim_end(chars@.subrange(from as int, j as int)) == trim_end(
                chars@.subrange(from as int, to as int),
            ),
        decreases j - from,
    {
        assert(chars@.subrange(from as int, j as int).drop_last() =~= chars@.subrange(
            from as int,
            j as int - 1,
        ));
        j = j - 1;
    }
    j
}

/// Tells whether the text from `from` on starts with `prefix`.
pub fn starts_with_at(chars: &Vec<char>, from: usize, prefix: &Vec<char>) -> (b: bool)
    requires
        from <= chars.len(),
    ensures
        b == prefix@.is_prefix_of(chars@.skip(from as int)),
{
    if prefix.len() > chars.len() - from {
        return false;
    }
    let mut k: usize = 0;
    while k < prefix.len()
        invariant
            from <= chars.len(),
            prefix.len() <= chars.len() - from,
            k <= prefix.len(),
            prefix@.take(k as int) =~= chars@.skip(from as int).take(k as int),
        decreases prefix.len() - k,
    {
        if prefix[k] != chars[from + k] {
            assert(chars@.skip(from as int)[k as int] != prefix@[k as int]);
            return false;
        }
        assert(prefix@.take(k as int + 1) =~= prefix@.take(k as int).push(prefix@[k as int]));
        assert(chars@.skip(from as int).take(k as int + 1) =~= chars@.skip(from as int).take(
            k as int,
        ).push(chars@[from + k]));
        k = k + 1;
    }
    assert(prefix@.take(k as int) =~= prefix@);
    true
}

/// Tells whether `c` is one of the digits `0` to `9`.
pub open spec fn is_digit(c: char) -> bool {
    '0' <= c <= '9'
}

/// The value of the digit `c`.
pub open spec fn digit_value(c: char) -> nat {
    if is_digit(c) {
        (c as u32 - '0' as u32) as nat
    } else {
        0
    }
}

/// Tells whether `s` holds digits only.
pub open spec fn all_digits(s: Seq<char>) -> bool {
    forall|i: int| 0 <= i < s.len() ==> is_digit(#[trigger] s[i])
}

/// The number that the digits of `s` spell in decimal.
pub open spec fn digits_value(s: Seq<char>) -> nat
    decreases s.len(),
{
    if s.len() == 0 {
        0
    } else {
        digits_value(s.drop_last()) * 10 + digit_value(s.last())
    }
}

/// The number that `s` spells if it is one or more digits and the number is at most `limit`.
pub open spec fn magnitude(s: Seq<char>, limit: nat) -> Option<nat> {
    if s.len() > 0 && all_digits(s) && digits_value(s) <= limit {
        Some(digits_value(s))
    } else {
        None
    }
}

/// What `str::parse` makes of `s` for an unsigned integer type with the largest value `max`: an
/// optional `+`, then one or more digits, within range.
pub open spec fn unsigned_value(s: Seq<char>, max: nat) -> Option<nat> {
    if s.len() > 0 && s[0] == '+' {
        magnitude(s.drop_first(), max)
    } else {
        magnitude(s, max)
    }
}

/// What `str::parse` makes of `s` for a signed integer type with the range `min` to `max`: an
/// optional `+` or `-`, then one or more digits, within range.
pub open spec fn signed_value(s: Seq<char>, min: int, max: int) -> Option<int> {
    if s.len() > 0 && s[0] == '-' {
        match magnitude(s.drop_first(), (-min) as nat) {
            Some(m) => Some(-(m as int)),
            None => None,
        }
    } else if s.len() > 0 && s[0] == '+' {
        match magnitude(s.drop_first(), max as nat) {
            Some(m) => Some(m as int),
            None => None,
        }
    } else {
        match magnitude(s, max as nat) {
            Some(m) => Some(m as int),
            None => None,
        }
    }
}

/// The count that a request carries: the number that `s` spells as a `usize`, and 0 where it
/// spells none.
pub open spec fn count_or_zero(s: Seq<char>) -> nat {
    match unsigned_value(s, usize::MAX as nat) {
        Some(n) => n,
        None => 0,
    }
}

/// The integer that a request carries: the number that `s` spells as an `i64`, and 0 where it
/// spells none.
pub open spec fn integer_or_zero(s: Seq<char>) -> int {
    match signed_value(s, i64::MIN as int, i64::MAX as int) {
        Some(n) => n,
        None => 0,
    }
}

/// A longer run of digits spells no smaller number.
pub proof fn lemma_digits_value_grows(s: Seq<char>, k: int)
    requires
        0 <= k <= s.len(),
    ensures
        digits_value(s.take(k)) <= digits_value(s),
    decreases s.len() - k,
{
    if k < s.len() {
        lemma_digits_value_grows(s.drop_last(), k);
        assert(s.drop_last().take(k) =~= s.take(k));
    } else {
        assert(s.take(k) =~= s);
    }
}

/// Reads the digits between `from` and `to` as a number of at most `limit`.
pub fn parse_magnitude(chars: &Vec<char>, from: usize, to: usize, limit: u64) -> (r: Option<u64>)
    requires
        from <= to <= chars.len(),
    ensures
        match magnitude(chars@.subrange(from as int, to as int), limit as nat) {
            Some(m) => r == Some(m as u64),
            None => r is None,
        },
{
    let ghost s: Seq<char> = chars@.subrange(from as int, to as int);
    if from == to {
        return None;
    }
    let mut acc: u64 = 0;
    let mut i: usize = from;
    assert(s.take(0) =~= Seq::<char>::empty());
    while i < to
        invariant
            from <= i <= to <= chars.len(),
            s == chars@.subrange(from as int, to as int),
            all_digits(s.take(i - from)),
            acc as nat == digits_value(s.take(i - from)),
            acc <= limit,
        decreases to - i,
    {
        let c: char = chars[i];
        assert(c == s[i - from]);
        if !(c >= '0' && c <= '9') {
            return None;
        }
        let d: u64 = (c as u32 - '0' as u32) as u64;
        assert(d as nat == digit_value(c));
        let ghost next: Seq<char> = s.take(i - from + 1);
        assert(next.drop_last() =~= s.take(i - from));
        assert(next.last() == c);
        assert(digits_value(next) == acc * 10 + d);
        if d > limit || acc > (limit - d) / 10 {
            proof {
                lemma_digits_value_grows(s, i - from + 1);
            }
            return None;
        }
        acc = acc * 10 + d;
        assert forall|k: int| 0 <= k < next.len() implies is_digit(#[trigger] next[k]) by {
            if k < i - from {
                assert(next[k] == s.take(i - from)[k]);
            }
        }
        i = i + 1;
    }
    assert(s.take(i - from) =~= s);
    Some(acc)
}

/// Reads the text between `from` and `to` as `str::parse::<usize>` does, with 0 for whatever
/// does not parse.
pub fn parse_count_or_zero(chars: &Vec<char>, from: usize, to: usize) -> (n: usize)
    requires
        from <= to <= chars.len(),
    ensures
        n as nat == count_or_zero(chars@.subrange(from as int, to as int)),
{
    let ghost s: Seq<char> = chars@.subrange(from as int, to as int);
    let start: usize = if from < to && chars[from] == '+' {
        from + 1
    } else {
        from
    };
    assert(from < to ==> s[0] == chars@[from as int]);
    assert(start > from ==> chars@.subrange(start as int, to as int) =~= s.drop_first());
    match parse_magnitude(chars, start, to, usize::MAX as u64) {
        Some(m) => m as usize,
        None => 0,
    }
}

/// Reads the text between `from` and `to` as `str::parse::<i64>` does, with 0 for whatever does
/// not parse.
pub fn parse_integer_or_zero(chars: &Vec<char>, from: usize, to: usize) -> (n: i64)
    requires
        from <= to <= chars.len(),
    ensures
        n as int == integer_or_zero(chars@.subrange(from as int, to as int)),
{
    let ghost s: Seq<char> = chars@.subrange(from as int, to as int);
    assert(from < to ==> s[0] == chars@[from as int]);
    if from < to && chars[from] == '-' {
        assert(chars@.subrange(from as int + 1, to as int) =~= s.drop_first());
        match parse_magnitude(chars, from + 1, to, 9223372036854775808u64) {
            Some(m) => {
                if m == 9223372036854775808u64 {
                    i64::MIN
                } else {
                    -(m as i64)
                }
            },
            None => 0,
        }
    } else if from < to && chars[from] == '+' {
        assert(chars@.subrange(from as int + 1, to as int) =~= s.drop_first());
        match parse_magnitude(chars, from + 1, to, 9223372036854775807u64) {
            Some(m) => m as i64,
            None => 0,
        }
    } else {
        match parse_magnitude(chars, from, to, 9223372036854775807u64) {
            Some(m) => m as i64,
            None => 0,
        }
    }
}

/// The number of bytes that `c` takes in UTF-8.
pub open spec fn scalar_width(c: char) -> nat {
    encode_scalar(c as u32).len()
}

/// Computes the number of bytes that `c` takes in UTF-8.
pub fn utf8_width(c: char) -> (w: usize)
    ensures
        w as nat == scalar_width(c),
        1 <= w <= 4,
{
    proof {
        char_is_scalar(c);
    }
    let u: u32 = c as u32;
    if u < 0x80 {
        1
    } else if u < 0x800 {
        2
    } else if u < 0x10000 {
        3
    } else {
        4
    }
}

/// How many leading characters of `s` fit into `limit` bytes of UTF-8.
pub open spec fn chars_within(s: Seq<char>, limit: nat) -> nat
    decreases s.len(),
{
    if s.len() == 0 || scalar_width(s[0]) > limit {
        0
    } else {
        1 + chars_within(s.drop_first(), (limit - scalar_width(s[0])) as nat)
    }
}

/// `s` cut down to at most `limit` bytes, at a character's end.
pub open spec fn limited(s: Seq<char>, limit: nat) -> Seq<char> {
    s.take(chars_within(s, limit) as int)
}

/// Tells whether a cut of `s` after exactly `limit` bytes would fall inside a character.
pub open spec fn splits_character(s: Seq<char>, limit: nat) -> bool {
    byte_len(s) > limit && byte_len(limited(s, limit)) != limit
}

/// One more character adds its width to the byte length.
pub proof fn lemma_byte_len_push(s: Seq<char>, c: char)
    ensures
        byte_len(s.push(c)) == byte_len(s) + scalar_width(c),
{
    crate::text::lemma_encode_concat(s, seq![c]);
    assert(s.push(c) =~= s + seq![c]);
    assert(seq![c].drop_first() =~= Seq::<char>::empty());
    assert(encode_utf8(seq![c]) =~= encode_scalar(c as u32)) by {
        reveal_with_fuel(encode_utf8, 2);
    }
}

/// A prefix takes no more bytes than the whole.
pub proof fn lemma_byte_len_take(s: Seq<char>, k: int)
    requires
        0 <= k <= s.len(),
    ensures
        byte_len(s.take(k)) <= byte_len(s),
{
    crate::text::lemma_encode_concat(s.take(k), s.skip(k));
    assert(s.take(k) + s.skip(k) =~= s);
}

/// Counts how many characters between `from` and `to` fit into `limit` bytes, and the bytes
/// that they take.
pub fn measure_within(chars: &Vec<char>, from: usize, to: usize, limit: usize) -> (r: (
    usize,
    usize,
))
    requires
        from <= to <= chars.len(),
    ensures
        r.0 as nat == chars_within(chars@.subrange(from as int, to as int), limit as nat),
        from + r.0 <= to,
        r.1 as nat == byte_len(limited(chars@.subrange(from as int, to as int), limit as nat)),
        r.1 <= limit,
        (from + r.0 == to) <==> byte_len(chars@.subrange(from as int, to as int)) <= limit,
{
    let ghost s: Seq<char> = chars@.subrange(from as int, to as int);
    let mut k: usize = 0;
    let mut used: usize = 0;
    let mut stopped: bool = false;
    assert(s.take(0) =~= Seq::<char>::empty());
    assert(s.skip(0) =~= s);
    while !stopped && from + k < to
        invariant
            from <= to <= chars.len(),
            s == chars@.subrange(from as int, to as int),
            from + k <= to,
            used <= limit,
            used as nat == byte_len(s.take(k as int)),
            chars_within(s, limit as nat) == k + chars_within(
                s.skip(k as int),
                (limit - used) as nat,
            ),
            stopped ==> from + k < to && chars_within(s.skip(k as int), (limit - used) as nat)
                == 0 && byte_len(s) > limit,
        decreases (to - from - k) + (if stopped { 0int } else { 1int }),
    {
        let c: char = chars[from + k];
        let w: usize = utf8_width(c);
        assert(s.skip(k as int)[0] == c);
        assert(s.skip(k as int).drop_first() =~= s.skip(k as int + 1));
        assert(s.take(k as int + 1) =~= s.take(k as int).push(c));
        proof {
            lemma_byte_len_push(s.take(k as int), c);
            lemma_byte_len_take(s, k as int + 1);
        }
        if w > limit - used {
            stopped = true;
        } else {
            used = used + w;
            k = k + 1;
        }
    }
    assert(!stopped ==> s.skip(k as int).len() == 0);
    assert(!stopped ==> s.take(k as int) =~= s);
    (k, used)
}

/// Tells whether `s` is a decimal number without a sign or with a leading `+`.
pub open spec fn is_unsigned_number(s: Seq<char>) -> bool {
    if s.len() > 0 && s[0] == '+' {
        s.len() > 1 && all_digits(s.drop_first())
    } else {
        s.len() > 0 && all_digits(s)
    }
}

/// Tells whether `s` is a decimal number without a sign or with a leading `+` or `-`.
pub open spec fn is_signed_number(s: Seq<char>) -> bool {
    if s.len() > 0 && (s[0] == '+' || s[0] == '-') {
        s.len() > 1 && all_digits(s.drop_first())
    } else {
        s.len() > 0 && all_digits(s)
    }
}

/// A text that is empty or no number counts as 0, as a count and as an integer.
pub proof fn lemma_malformed_number_is_zero(s: Seq<char>)
    ensures
        !is_unsigned_number(s) ==> count_or_zero(s) == 0,
        !is_signed_number(s) ==> integer_or_zero(s) == 0,
{
}

/// A number within range counts as itself: nothing is capped or rounded. A count above the
/// range of `usize` counts as 0.
pub proof fn lemma_number_in_range_is_kept(s: Seq<char>)
    requires
        s.len() > 0,
        all_digits(s),
    ensures
        digits_value(s) <= usize::MAX ==> count_or_zero(s) == digits_value(s),
        digits_value(s) > usize::MAX ==> count_or_zero(s) == 0,
        digits_value(s) <= i64::MAX ==> integer_or_zero(s) == digits_value(s),
{
    assert(is_digit(s[0]));
}

/// `s` without the characters `c` at its start.
pub open spec fn trim_start_of(s: Seq<char>, c: char) -> Seq<char>
    decreases s.len(),
{
    if s.len() > 0 && s[0] == c {
        trim_start_of(s.drop_first(), c)
    } else {
        s
    }
}

/// `s` without the characters `c` at its end.
pub open spec fn trim_end_of(s: Seq<char>, c: char) -> Seq<char>
    decreases s.len(),
{
    if s.len() > 0 && s.last() == c {
        trim_end_of(s.drop_last(), c)
    } else {
        s
    }
}

/// `s` without the NUL characters that pad it at either end.
pub open spec fn without_padding(s: Seq<char>) -> Seq<char> {
    trim_end_of(trim_start_of(s, '\0'), '\0')
}

/// Removes the NUL characters that pad a received text at either end.
pub fn strip_padding(s: &str) -> (r: String)
    ensures
        r@ == without_padding(s@),
{
    let chars: Vec<char> = crate::text::to_chars(s);
    let n: usize = chars.len();
    let mut i: usize = 0;
    assert(chars@.subrange(0, n as int) =~= chars@);
    while i < n && chars[i] == '\0'
        invariant
            i <= n,
            n == chars.len(),
            trim_start_of(chars@.subrange(i as int, n as int), '\0') == trim_start_of(chars@, '\0'),
        decreases n - i,
    {
        assert(chars@.subrange(i as int, n as int).drop_first() =~= chars@.subrange(
            i as int + 1,
            n as int,
        ));
        i = i + 1;
    }
    let mut j: usize = n;
    while j > i && chars[j - 1] == '\0'
        invariant
            i <= j <= n,
            n == chars.len(),
            trim_end_of(chars@.subrange(i as int, j as int), '\0') == trim_end_of(
                chars@.subrange(i as int, n as int),
                '\0',
            ),
        decreases j - i,
    {
        assert(chars@.subrange(i as int, j as int).drop_last() =~= chars@.subrange(
            i as int,
            j as int - 1,
        ));
        j = j - 1;
    }
    String::from_str(s.substring_char(i, j))
}

} // verus!
