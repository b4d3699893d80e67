//! The tag dispatcher: takes one payload, classifies it by its leading tag and decides what
//! answers it. What only the caller can do (loading a module, asking the authentication or the
//! cipher collaborator, evaluating an expression, changing permissions, ending the process)
//! comes back as the next step.

use vstd::prelude::*;
use crate::chars::{
    count_or_zero, drop_trailing_white_space, integer_or_zero, is_signed_number,
    is_unsigned_number, lemma_malformed_number_is_zero, limited, parse_count_or_zero,
    parse_integer_or_zero, skip_white_space, splits_character, starts_with_at, trim, trim_start,
};
use crate::scripts::{
    collapse_whitespace, collapsed, cut_splits_character, permission_path, permission_request,
    reserve_memory, strip_prefix, stripped, trim_and_limit,
};
use crate::text::{
    decimal_digits, i64_to_decimal, signed_decimal, to_chars, usize_to_decimal,
};

verus! {

/// The kind of a request, told by the tag that its payload starts with.
#[derive(Clone, Copy, Debug, PartialEq, Eq, Structural)]
pub enum DomainTag {
    Loop,
    Wasm,
    Auth,
    Alloc,
    Div,
    Cms,
    AesGcm,
    Expr,
    Untagged,
}

/// A condition that ends the process instead of answering the request.
#[derive(Clone, Copy, Debug, PartialEq, Eq, Structural)]
pub enum Fault {
    /// `DIV:` with a divisor of 0.
    DivisionByZero,
    /// `ALLOC:` with more bytes than a vector can ever hold.
    CapacityOverflow,
    /// An untagged payload whose cut to 256 bytes falls inside a character.
    SplitCharacter,
}

/// What the dispatcher has decided for a request.
#[derive(Clone, Debug, PartialEq, Eq)]
pub enum Step {
    /// The request is answered with this text.
    Respond(String),
    /// The module at this path is to be loaded; [`module_response`] gives the answer.
    LoadModule(String),
    /// The token goes to the authentication collaborator, whose verdict is the answer.
    Authenticate(String),
    /// This many bytes are to be reserved; [`reservation_response`] gives the answer.
    Reserve(usize),
    /// The signature verification collaborator gives the answer.
    VerifyCms,
    /// The cipher collaborator is asked; [`cipher_response`] gives the answer.
    BuildCipher,
    /// The permissions of this path are to be read; the answer is then what the evaluation of
    /// the empty expression gives.
    ReadPermission(String),
    /// This expression is to be evaluated; what the evaluation gives is the answer, in the
    /// words of `render_evaluation`.
    Evaluate(String),
    /// The process ends.
    Abort(Fault),
}

/// A [`Step`] with its texts as sequences of characters.
pub enum StepView {
    Respond(Seq<char>),
    LoadModule(Seq<char>),
    Authenticate(Seq<char>),
    Reserve(nat),
    VerifyCms,
    BuildCipher,
    ReadPermission(Seq<char>),
    Evaluate(Seq<char>),
    Abort(Fault),
}

impl View for Step {
    type V = StepView;

    open spec fn view(&self) -> StepView {
        match self {
            Step::Respond(text) => StepView::Respond(text@),
            Step::LoadModule(path) => StepView::LoadModule(path@),
            Step::Authenticate(token) => StepView::Authenticate(token@),
            Step::Reserve(additional) => StepView::Reserve(*additional as nat),
            Step::VerifyCms => StepView::VerifyCms,
            Step::BuildCipher => StepView::BuildCipher,
            Step::ReadPermission(path) => StepView::ReadPermission(path@),
            Step::Evaluate(expression) => StepView::Evaluate(expression@),
            Step::Abort(fault) => StepView::Abort(*fault),
        }
    }
}

/// The tags that select a handler, in the order in which they are tried.
pub open spec fn tag_prefixes() -> Seq<Seq<char>> {
    seq!["LOOP:"@, "WASM:"@, "AUTH:"@, "ALLOC:"@, "DIV:"@, "CMS:"@, "AESGCM:"@]
}

/// The first index from `start` on whose prefix `text` starts with.
pub open spec fn first_match_from(prefixes: Seq<Seq<char>>, text: Seq<char>, start: int) -> Option<
    int,
>
    decreases prefixes.len() - start,
{
    if start >= prefixes.len() {
        None
    } else if prefixes[start].is_prefix_of(text) {
        Some(start)
    } else {
        first_match_from(prefixes, text, start + 1)
    }
}

/// The first of `prefixes` that `text` starts with, by its index.
pub open spec fn first_match(prefixes: Seq<Seq<char>>, text: Seq<char>) -> Option<int> {
    first_match_from(prefixes, text, 0)
}

/// The texts of a list of character vectors.
pub open spec fn texts(prefixes: Seq<Vec<char>>) -> Seq<Seq<char>> {
    Seq::new(prefixes.len(), |i: int| prefixes[i]@)
}

/// Finds the first of `prefixes` that the text from `from` on starts with.
pub fn first_matching_prefix(chars: &Vec<char>, from: usize, prefixes: &Vec<Vec<char>>) -> (found:
    Option<usize>)
    requires
        from <= chars.len(),
    ensures
        match first_match(texts(prefixes@), chars@.skip(from as int)) {
            Some(i) => found == Some(i as usize) && i < prefixes.len(),
            None => found is None,
        },
{
    let mut k: usize = 0;
    while k < prefixes.len()
        invariant
            from <= chars.len(),
            k <= prefixes.len(),
            first_match_from(texts(prefixes@), chars@.skip(from as int), k as int) == first_match(
                texts(prefixes@),
                chars@.skip(from as int),
            ),
        decreases prefixes.len() - k,
    {
        assert(texts(prefixes@)[k as int] == prefixes@[k as int]@);
        if starts_with_at(chars, from, &prefixes[k]) {
            return Some(k);
        }
        k = k + 1;
    }
    None
}

/// The kind of the request that `raw` carries. `cms_available` tells whether signature
/// verification is built in; without it a `CMS:` payload counts as untagged.
pub open spec fn classified(raw: Seq<char>, cms_available: bool) -> DomainTag {
    let text = trim_start(raw);
    match first_match(tag_prefixes(), text) {
        Some(i) => if i == 0 {
            DomainTag::Loop
        } else if i == 1 {
            DomainTag::Wasm
        } else if i == 2 {
            DomainTag::Auth
        } else if i == 3 {
            DomainTag::Alloc
        } else if i == 4 {
            DomainTag::Div
        } else if i == 5 {
            if cms_available {
                DomainTag::Cms
            } else {
                DomainTag::Untagged
            }
        } else {
            DomainTag::AesGcm
        },
        None => if "EXPR:"@.is_prefix_of(text) {
            DomainTag::Expr
        } else {
            DomainTag::Untagged
        },
    }
}

/// What follows the tag of `length` characters in `raw`, trimmed.
pub open spec fn argument(raw: Seq<char>, length: int) -> Seq<char> {
    trim(trim_start(raw).skip(length))
}

/// The quotient of 100 by `divisor`, rounded towards zero.
pub open spec fn quotient(divisor: int) -> int {
    if divisor > 0 {
        100int / divisor
    } else {
        -(100int / (-divisor))
    }
}

/// What the dispatcher decides for the payload `raw`.
pub open spec fn planned(raw: Seq<char>, cms_available: bool) -> StepView {
    match classified(raw, cms_available) {
        DomainTag::Loop => StepView::Respond(
            "looped="@ + decimal_digits(count_or_zero(argument(raw, 5))),
        ),
        DomainTag::Wasm => StepView::LoadModule(argument(raw, 5)),
        DomainTag::Auth => StepView::Authenticate(argument(raw, 5)),
        DomainTag::Alloc => if count_or_zero(argument(raw, 6)) > isize::MAX {
            StepView::Abort(Fault::CapacityOverflow)
        } else {
            StepView::Reserve(count_or_zero(argument(raw, 6)))
        },
        DomainTag::Div => if integer_or_zero(argument(raw, 4)) == 0 {
            StepView::Abort(Fault::DivisionByZero)
        } else {
            StepView::Respond("div="@ + signed_decimal(quotient(integer_or_zero(argument(raw, 4)))))
        },
        DomainTag::Cms => StepView::VerifyCms,
        DomainTag::AesGcm => StepView::BuildCipher,
        _ => if splits_character(trim(raw), 256) {
            StepView::Abort(Fault::SplitCharacter)
        } else {
            match permission_path(limited(trim(raw), 256)) {
                Some(path) => StepView::ReadPermission(path),
                None => StepView::Evaluate(collapsed(stripped(limited(trim(raw), 256), "EXPR:"@))),
            }
        },
    }
}

/// The first match is the least index whose prefix the text starts with: an earlier prefix
/// wins over every later one that matches as well.
pub proof fn lemma_first_match_is_least(prefixes: Seq<Seq<char>>, text: Seq<char>, start: int)
    requires
        0 <= start,
    ensures
        match first_match_from(prefixes, text, start) {
            Some(i) => start <= i < prefixes.len() && prefixes[i].is_prefix_of(text) && forall|
                j: int,
            |
                start <= j < i ==> !(#[trigger] prefixes[j]).is_prefix_of(text),
            None => forall|j: int|
                start <= j < prefixes.len() ==> !(#[trigger] prefixes[j]).is_prefix_of(text),
        },
    decreases prefixes.len() - start,
{
    if start < prefixes.len() && !prefixes[start].is_prefix_of(text) {
        lemma_first_match_is_least(prefixes, text, start + 1);
    }
}

/// The tags of [`tag_prefixes`], in their order.
pub fn tag_table() -> (table: Vec<Vec<char>>)
    ensures
        texts(table@) == tag_prefixes(),
{
    let mut table: Vec<Vec<char>> = Vec::new();
    table.push(to_chars("LOOP:"));
    table.push(to_chars("WASM:"));
    table.push(to_chars("AUTH:"));
    table.push(to_chars("ALLOC:"));
    table.push(to_chars("DIV:"));
    table.push(to_chars("CMS:"));
    table.push(to_chars("AESGCM:"));
    assert(texts(table@) =~= tag_prefixes());
    table
}

/// Runs through `n` rounds and counts them with wrapping arithmetic. The counter is a `usize`
/// as `n` is, so it never wraps and the count is always `n`; a request for more rounds than a
/// `usize` holds does not parse and runs none.
pub fn count_iterations(n: usize) -> (count: usize)
    ensures
        count == n,
{
    let mut count: usize = 0;
    let mut round: usize = 0;
    while round < n
        invariant
            round <= n,
            count == round,
        decreases n - round,
    {
        count = count.wrapping_add(1);
        round = round + 1;
    }
    count
}

/// Divides 100 by `divisor`, rounding towards zero.
pub fn divide_hundred(divisor: i64) -> (q: i64)
    requires
        divisor != 0,
    ensures
        q as int == quotient(divisor as int),
{
    if divisor > 0 {
        (100u64 / (divisor as u64)) as i64
    } else if divisor == i64::MIN {
        0
    } else {
        -((100u64 / ((-divisor) as u64)) as i64)
    }
}

/// The answer to a `LOOP:` request that ran `count` rounds.
pub fn loop_response(count: usize) -> (text: String)
    ensures
        text@ == "looped="@ + decimal_digits(count as nat),
{
    let mut text: String = String::from_str("looped=");
    text.append(usize_to_decimal(count).as_str());
    text
}

/// The answer to a `DIV:` request with the quotient `q`.
pub fn division_response(q: i64) -> (text: String)
    ensures
        text@ == "div="@ + signed_decimal(q as int),
{
    let mut text: String = String::from_str("div=");
    text.append(i64_to_decimal(q).as_str());
    text
}

/// The answer to an `ALLOC:` request that was given `capacity` bytes.
pub fn reservation_response(capacity: usize) -> (text: String)
    ensures
        text@ == "reserved="@ + decimal_digits(capacity as nat),
{
    let mut text: String = String::from_str("reserved=");
    text.append(usize_to_decimal(capacity).as_str());
    text
}

/// The answer to a `WASM:` request: the module counts as loaded, or the one error that stands
/// for every cause of failure.
pub fn module_response(loaded: bool) -> (answer: Result<String, String>)
    ensures
        loaded ==> answer is Ok && answer->Ok_0@ == "module_loaded"@,
        !loaded ==> answer is Err && answer->Err_0@ == "bad module"@,
{
    if loaded {
        Ok(String::from_str("module_loaded"))
    } else {
        Err(String::from_str("bad module"))
    }
}

/// The answer to an `AESGCM:` request: the collaborator's text, or the one error that stands
/// for every cause of failure.
pub fn cipher_response(outcome: Result<String, String>) -> (answer: Result<String, String>)
    ensures
        outcome is Ok ==> answer is Ok && answer->Ok_0@ == outcome->Ok_0@,
        outcome is Err ==> answer is Err && answer->Err_0@ == "aesgcm failed"@,
{
    match outcome {
        Ok(text) => Ok(text),
        Err(_) => Err(String::from_str("aesgcm failed")),
    }
}

/// Decides on the untagged path: the payload is trimmed, cut to 256 bytes, freed of an `EXPR:`
/// tag and of repeated white space, and what is left is the expression to evaluate.
fn plan_expression(raw: &str) -> (step: Step)
    ensures
        step@ == (if splits_character(trim(raw@), 256) {
            StepView::Abort(Fault::SplitCharacter)
        } else {
            match permission_path(limited(trim(raw@), 256)) {
                Some(path) => StepView::ReadPermission(path),
                None => StepView::Evaluate(collapsed(stripped(limited(trim(raw@), 256), "EXPR:"@))),
            }
        }),
{
    if cut_splits_character(raw, 256) {
        return Step::Abort(Fault::SplitCharacter);
    }
    let limited_text: String = trim_and_limit(String::from_str(raw), 256);
    match permission_request(limited_text.as_str()) {
        Some(path) => Step::ReadPermission(path),
        None => {
            let stripped_text: String = strip_prefix(limited_text, "EXPR:");
            Step::Evaluate(collapse_whitespace(stripped_text))
        },
    }
}

/// Tells the kind of the request that `raw` carries. The tags are tried in their fixed order
/// and the first that matches wins. `cms_available` tells whether signature verification is
/// built in.
pub fn classify(raw: &str, cms_available: bool) -> (tag: DomainTag)
    ensures
        tag == classified(raw@, cms_available),
{
    let chars: Vec<char> = to_chars(raw);
    let n: usize = chars.len();
    let i: usize = skip_white_space(&chars, 0, n);
    let table: Vec<Vec<char>> = tag_table();
    proof {
        assert(chars@.subrange(0, n as int) =~= chars@);
        assert(chars@.skip(i as int) =~= chars@.subrange(i as int, n as int));
        lemma_first_match_is_least(tag_prefixes(), trim_start(raw@), 0);
    }
    match first_matching_prefix(&chars, i, &table) {
        Some(k) => {
            if k == 0 {
                DomainTag::Loop
            } else if k == 1 {
                DomainTag::Wasm
            } else if k == 2 {
                DomainTag::Auth
            } else if k == 3 {
                DomainTag::Alloc
            } else if k == 4 {
                DomainTag::Div
            } else if k == 5 {
                if cms_available {
                    DomainTag::Cms
                } else {
                    DomainTag::Untagged
                }
            } else {
                DomainTag::AesGcm
            }
        },
        None => {
            let marker: Vec<char> = to_chars("EXPR:");
            if starts_with_at(&chars, i, &marker) {
                DomainTag::Expr
            } else {
                DomainTag::Untagged
            }
        },
    }
}

/// The length of the tag that makes a request one of kind `tag`.
pub open spec fn tag_length(tag: DomainTag) -> int {
    match tag {
        DomainTag::Loop => 5,
        DomainTag::Wasm => 5,
        DomainTag::Auth => 5,
        DomainTag::Alloc => 6,
        DomainTag::Div => 4,
        DomainTag::Cms => 4,
        DomainTag::AesGcm => 7,
        DomainTag::Expr => 5,
        DomainTag::Untagged => 0,
    }
}

/// A request of a tagged kind starts with that tag, leading white space aside.
pub proof fn lemma_classified_has_tag(raw: Seq<char>, cms_available: bool)
    ensures
        tag_length(classified(raw, cms_available)) <= trim_start(raw).len(),
{
    reveal_strlit("LOOP:");
    reveal_strlit("WASM:");
    reveal_strlit("AUTH:");
    reveal_strlit("ALLOC:");
    reveal_strlit("DIV:");
    reveal_strlit("CMS:");
    reveal_strlit("AESGCM:");
    reveal_strlit("EXPR:");
    lemma_first_match_is_least(tag_prefixes(), trim_start(raw), 0);
}

/// Finds the trimmed text that follows the first `length` characters of `raw`, leading white
/// space aside.
fn argument_range(chars: &Vec<char>, length: usize) -> (r: (usize, usize))
    requires
        length <= trim_start(chars@).len(),
    ensures
        r.0 <= r.1 <= chars.len(),
        chars@.subrange(r.0 as int, r.1 as int) == argument(chars@, length as int),
{
    let n: usize = chars.len();
    let i: usize = skip_white_space(chars, 0, n);
    assert(chars@.subrange(0, n as int) =~= chars@);
    let a: usize = skip_white_space(chars, i + length, n);
    let b: usize = drop_trailing_white_space(chars, a, n);
    assert(chars@.subrange(i as int + length, n as int) =~= trim_start(chars@).skip(length as int));
    (a, b)
}

/// Classifies the payload `raw` by its leading tag and decides what answers it.
/// `cms_available` tells whether signature verification is built in.
pub fn plan_request(raw: &str, cms_available: bool) -> (step: Step)
    ensures
        step@ == planned(raw@, cms_available),
{
    let tag: DomainTag = classify(raw, cms_available);
    let chars: Vec<char> = to_chars(raw);
    proof {
        lemma_classified_has_tag(raw@, cms_available);
    }
    match tag {
        DomainTag::Loop => {
            let (a, b) = argument_range(&chars, 5);
            let rounds: usize = parse_count_or_zero(&chars, a, b);
            Step::Respond(loop_response(count_iterations(rounds)))
        },
        DomainTag::Wasm => {
            let (a, b) = argument_range(&chars, 5);
            Step::LoadModule(String::from_str(raw.substring_char(a, b)))
        },
        DomainTag::Auth => {
            let (a, b) = argument_range(&chars, 5);
            Step::Authenticate(String::from_str(raw.substring_char(a, b)))
        },
        DomainTag::Alloc => {
            let (a, b) = argument_range(&chars, 6);
            let additional: usize = parse_count_or_zero(&chars, a, b);
            if additional > isize::MAX as usize {
                Step::Abort(Fault::CapacityOverflow)
            } else {
                Step::Reserve(additional)
            }
        },
        DomainTag::Div => {
            let (a, b) = argument_range(&chars, 4);
            let divisor: i64 = parse_integer_or_zero(&chars, a, b);
            if divisor == 0 {
                Step::Abort(Fault::DivisionByZero)
            } else {
                Step::Respond(division_response(divide_hundred(divisor)))
            }
        },
        DomainTag::Cms => Step::VerifyCms,
        DomainTag::AesGcm => Step::BuildCipher,
        DomainTag::Expr => plan_expression(raw),
        DomainTag::Untagged => plan_expression(raw),
    }
}

/// The answer to an `ALLOC:` request that was given `capacity` bytes.
pub open spec fn reservation_text(capacity: nat) -> Seq<char> {
    "reserved="@ + decimal_digits(capacity)
}

/// Tells whether the payload `raw` ends the process instead of being answered: a division by
/// zero, a reservation beyond what a vector can ever hold, or a cut inside a character.
pub open spec fn is_fatal(raw: Seq<char>, cms_available: bool) -> bool {
    planned(raw, cms_available) is Abort
}

/// Finds the condition by which the payload `raw` ends the process, if there is one. It is
/// for the caller to test before [`handle_udp_request`], which takes no such payload.
pub fn fatal_condition(raw: &str, cms_available: bool) -> (fault: Option<Fault>)
    ensures
        match planned(raw@, cms_available) {
            StepView::Abort(f) => fault == Some(f),
            _ => fault is None,
        },
{
    match classify(raw, cms_available) {
        DomainTag::Loop => None,
        DomainTag::Wasm => None,
        DomainTag::Auth => None,
        DomainTag::Cms => None,
        DomainTag::AesGcm => None,
        _ => match plan_request(raw, cms_available) {
            Step::Abort(f) => Some(f),
            _ => None,
        },
    }
}

/// Handles one payload as it came from the transport: decides by its tag and reserves the
/// memory that an `ALLOC:` request asks for. A payload that ends the process is not taken;
/// [`fatal_condition`] tells such a payload apart. Every other decision comes back as the step
/// that the caller has to take.
pub fn handle_udp_request(raw: &str, cms_available: bool) -> (step: Step)
    requires
        !is_fatal(raw@, cms_available),
    ensures
        match planned(raw@, cms_available) {
            StepView::Reserve(additional) => exists|capacity: nat|
                capacity >= additional && step@ == StepView::Respond(
                    #[trigger] reservation_text(capacity),
                ),
            plan => step@ == plan,
        },
{
    match plan_request(raw, cms_available) {
        Step::Reserve(additional) => {
            let capacity: usize = reserve_memory(additional);
            let text: String = reservation_response(capacity);
            assert(text@ == reservation_text(capacity as nat));
            Step::Respond(text)
        },
        other => other,
    }
}

/// Where a text starts with two of the prefixes, the one listed first decides: the match is
/// never the later of the two.
pub proof fn lemma_first_listed_wins(prefixes: Seq<Seq<char>>, text: Seq<char>, i: int, j: int)
    requires
        0 <= i < j < prefixes.len(),
        prefixes[i].is_prefix_of(text),
        prefixes[j].is_prefix_of(text),
    ensures
        first_match(prefixes, text) is Some,
        first_match(prefixes, text)->Some_0 <= i,
        first_match(prefixes, text) == Some(i) <==> forall|k: int|
            0 <= k < i ==> !(#[trigger] prefixes[k]).is_prefix_of(text),
{
    lemma_first_match_is_least(prefixes, text, 0);
}

/// A request whose number is empty or malformed is handled as one with the number 0: a loop
/// of no rounds, and a division by zero.
pub proof fn lemma_malformed_argument_is_zero(raw: Seq<char>, cms_available: bool)
    ensures
        classified(raw, cms_available) == DomainTag::Loop && !is_unsigned_number(argument(raw, 5))
            ==> planned(raw, cms_available) == StepView::Respond(
            "looped="@ + decimal_digits(0),
        ),
        classified(raw, cms_available) == DomainTag::Div && !is_signed_number(argument(raw, 4))
            ==> planned(raw, cms_available) == StepView::Abort(Fault::DivisionByZero),
{
    lemma_malformed_number_is_zero(argument(raw, 5));
    lemma_malformed_number_is_zero(argument(raw, 4));
}

} // verus!
