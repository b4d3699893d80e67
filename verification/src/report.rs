//! What an engine reports after it has handed an annotated request to its backend operations:
//! one status line per operation, each with the request's length in bytes, joined in the order
//! in which the operations were invoked.

use vstd::prelude::*;
use crate::pipeline::{annotated, Domain};
use crate::text::{byte_len, byte_length, decimal_digits, usize_to_decimal};

verus! {

impl Domain {
    /// The words that open the engine's summary.
    pub open spec fn summary_head(self) -> Seq<char> {
        match self {
            Domain::Command => "Command operations completed: "@,
            Domain::Ldap => "LDAP operations completed: "@,
            Domain::Memory => "Memory operations completed: "@,
            Domain::Path => "Path operations completed: "@,
            Domain::Redirect => "Redirect operations completed: "@,
            Domain::Sql => "SQL operations completed: "@,
            Domain::Ssrf => "SSRF operations completed: "@,
            Domain::Xpath => "XPath operations completed: "@,
        }
    }

    /// The labels of the engine's backend operations, in the order of their invocation.
    pub open spec fn operation_labels(self) -> Seq<Seq<char>> {
        match self {
            Domain::Command => seq![
                "Duct sh operation"@,
                "Cmd lib operation"@,
            ],
            Domain::Ldap => seq![
                "LDAP search operation"@,
                "LDAP streaming search operation"@,
            ],
            Domain::Memory => seq![
                "Pointer read operation 1"@,
                "Pointer read operation 2"@,
                "Slice from raw parts operation"@,
                "Pointer swap operation"@,
                "Write unaligned operation"@,
            ],
            Domain::Path => seq![
                "CSV path operation"@,
                "Serve directory operation"@,
            ],
            Domain::Redirect => seq![
                "Actix redirect operation"@,
                "Rocket redirect operation"@,
                "Axum redirect operation"@,
                "Actix response redirect operation"@,
            ],
            Domain::Sql => seq![
                "Statement query_row operation"@,
                "Connection query_row operation"@,
            ],
            Domain::Ssrf => seq![
                "AWC client get operation"@,
                "Reqwest client get operation"@,
            ],
            Domain::Xpath => seq![
                "SXD XPath build operation"@,
                "LibXML evaluate operation"@,
            ],
        }
    }

    /// The text of [`Domain::summary_head`].
    pub fn summary_head_text(self) -> (s: &'static str)
        ensures
            s@ == self.summary_head(),
    {
        match self {
            Domain::Command => "Command operations completed: ",
            Domain::Ldap => "LDAP operations completed: ",
            Domain::Memory => "Memory operations completed: ",
            Domain::Path => "Path operations completed: ",
            Domain::Redirect => "Redirect operations completed: ",
            Domain::Sql => "SQL operations completed: ",
            Domain::Ssrf => "SSRF operations completed: ",
            Domain::Xpath => "XPath operations completed: ",
        }
    }
}

/// The status line of one backend operation on `request`: `<label> completed: <N> bytes`, with
/// `N` the length of the request in bytes.
pub open spec fn status_line(label: Seq<char>, request: Seq<char>) -> Seq<char> {
    label + " completed: "@ + decimal_digits(byte_len(request)) + " bytes"@
}

/// The status lines of `labels` on `request`, in order.
pub open spec fn status_lines(labels: Seq<Seq<char>>, request: Seq<char>) -> Seq<Seq<char>> {
    Seq::new(labels.len(), |i: int| status_line(labels[i], request))
}

/// The lines joined by a comma and a space.
pub open spec fn joined(lines: Seq<Seq<char>>) -> Seq<char>
    decreases lines.len(),
{
    if lines.len() == 0 {
        Seq::empty()
    } else if lines.len() == 1 {
        lines[0]
    } else {
        joined(lines.drop_last()) + ", "@ + lines.last()
    }
}

/// The summary that the engine of `domain` returns for the annotated `request`.
pub open spec fn summary(domain: Domain, request: Seq<char>) -> Seq<char> {
    domain.summary_head() + joined(status_lines(domain.operation_labels(), request))
}

/// The summary that the engine of `domain` returns for `payload` when the clock of its enrich
/// stage reads `timestamp`.
pub open spec fn summary_at(domain: Domain, payload: Seq<char>, timestamp: int) -> Seq<char> {
    summary(domain, annotated(domain, payload, timestamp))
}

/// The views of a list of strings.
pub open spec fn views(lines: Seq<String>) -> Seq<Seq<char>> {
    Seq::new(lines.len(), |i: int| lines[i]@)
}

/// Builds the status line of the operation called `label` on `request`.
pub fn operation_status(label: &str, request: &str) -> (status: String)
    ensures
        status@ == status_line(label@, request@),
{
    let digits: String = usize_to_decimal(byte_length(request));
    let mut status: String = String::from_str(label);
    status.append(" completed: ");
    status.append(digits.as_str());
    status.append(" bytes");
    assert(status@ =~= status_line(label@, request@));
    status
}

/// Joins the status lines behind the engine's opening words.
pub fn compose_summary(domain: Domain, statuses: &Vec<String>) -> (text: String)
    ensures
        text@ == domain.summary_head() + joined(views(statuses@)),
{
    let mut text: String = String::from_str(domain.summary_head_text());
    let ghost head: Seq<char> = domain.summary_head();
    let mut i: usize = 0;
    assert(views(statuses@).take(0) =~= Seq::<Seq<char>>::empty());
    while i < statuses.len()
        invariant
            i <= statuses.len(),
            head == domain.summary_head(),
            text@ == head + joined(views(statuses@).take(i as int)),
        decreases statuses.len() - i,
    {
        let ghost before: Seq<Seq<char>> = views(statuses@).take(i as int);
        let ghost after: Seq<Seq<char>> = views(statuses@).take(i as int + 1);
        assert(after.drop_last() =~= before);
        assert(after.last() == statuses@[i as int]@);
        if i > 0 {
            text.append(", ");
        }
        text.append(statuses[i].as_str());
        assert(text@ =~= head + joined(after));
        i = i + 1;
    }
    assert(views(statuses@).take(i as int) =~= views(statuses@));
    text
}

/// Tells whether `part` stands somewhere in `whole`, in one piece.
pub open spec fn occurs_in(part: Seq<char>, whole: Seq<char>) -> bool {
    exists|k: int|
        0 <= k && k + part.len() <= whole.len() && #[trigger] whole.subrange(k, k + part.len())
            == part
}

/// Every line stands in the joined text.
pub proof fn lemma_line_occurs_in_joined(lines: Seq<Seq<char>>, i: int)
    requires
        0 <= i < lines.len(),
    ensures
        occurs_in(lines[i], joined(lines)),
    decreases lines.len(),
{
    let whole = joined(lines);
    if lines.len() == 1 {
        assert(whole.subrange(0, 0int + lines[i].len()) =~= lines[i]);
    } else if i == lines.len() - 1 {
        let k = whole.len() - lines[i].len();
        assert(whole.subrange(k, k + lines[i].len()) =~= lines[i]);
    } else {
        let shorter = lines.drop_last();
        lemma_line_occurs_in_joined(shorter, i);
        let k = choose|k: int|
            0 <= k && k + shorter[i].len() <= joined(shorter).len() && #[trigger] joined(
                shorter,
            ).subrange(k, k + shorter[i].len()) == shorter[i];
        assert(whole.subrange(k, k + lines[i].len()) =~= joined(shorter).subrange(
            k,
            k + shorter[i].len(),
        ));
    }
}

/// Every sub-result of an engine's summary reports the length of the annotated request in
/// bytes: the summary holds one status line per backend operation, and each status line holds
/// that length in decimal.
pub proof fn lemma_summary_reports_length(domain: Domain, request: Seq<char>, i: int)
    requires
        0 <= i < domain.operation_labels().len(),
    ensures
        occurs_in(status_line(domain.operation_labels()[i], request), summary(domain, request)),
        occurs_in(
            decimal_digits(byte_len(request)),
            status_line(domain.operation_labels()[i], request),
        ),
{
    let labels = domain.operation_labels();
    let lines = status_lines(labels, request);
    let line = status_line(labels[i], request);
    let digits = decimal_digits(byte_len(request));
    lemma_line_occurs_in_joined(lines, i);
    let k = choose|k: int|
        0 <= k && k + lines[i].len() <= joined(lines).len() && #[trigger] joined(lines).subrange(
            k,
            k + lines[i].len(),
        ) == lines[i];
    let head = domain.summary_head().len() as int;
    assert(summary(domain, request).subrange(head + k, head + k + line.len()) =~= joined(
        lines,
    ).subrange(k, k + lines[i].len()));
    let at = (labels[i] + " completed: "@).len() as int;
    assert(line.subrange(at, at + digits.len()) =~= digits);
}

/// Every domain has at least two backend operations and at most five.
pub proof fn lemma_operation_count(domain: Domain)
    ensures
        2 <= domain.operation_labels().len() <= 5,
{
}

impl Domain {
    /// The name of the domain in the answers of its stream handler.
    pub open spec fn stream_label(self) -> Seq<char> {
        match self {
            Domain::Command => "Command"@,
            Domain::Ldap => "LDAP"@,
            Domain::Memory => "Memory"@,
            Domain::Path => "Path"@,
            Domain::Redirect => "Redirect"@,
            Domain::Sql => "SQL"@,
            Domain::Ssrf => "SSRF"@,
            Domain::Xpath => "XPath"@,
        }
    }

    /// The text of [`Domain::stream_label`].
    pub fn stream_label_text(self) -> (s: &'static str)
        ensures
            s@ == self.stream_label(),
    {
        match self {
            Domain::Command => "Command",
            Domain::Ldap => "LDAP",
            Domain::Memory => "Memory",
            Domain::Path => "Path",
            Domain::Redirect => "Redirect",
            Domain::Sql => "SQL",
            Domain::Ssrf => "SSRF",
            Domain::Xpath => "XPath",
        }
    }
}

/// The answer of a stream handler whose engine returned `result`.
pub open spec fn completed_text(domain: Domain, result: Seq<char>) -> Seq<char> {
    domain.stream_label() + " operation completed: "@ + result
}

/// The answer of a stream handler whose engine failed with `error`.
pub open spec fn failed_text(domain: Domain, error: Seq<char>) -> Seq<char> {
    domain.stream_label() + " operation failed: "@ + error
}

/// The answer of the stream handler of `domain` to `payload` when the clock reads
/// `timestamp`.
pub open spec fn stream_answer(domain: Domain, payload: Seq<char>, timestamp: int) -> Seq<char> {
    completed_text(domain, summary_at(domain, payload, timestamp))
}

/// Wraps what an engine returned into the answer of its stream handler.
pub fn stream_response(domain: Domain, outcome: Result<String, String>) -> (response: Result<
    String,
    String,
>)
    ensures
        match outcome {
            Ok(result) => response is Ok && response->Ok_0@ == completed_text(domain, result@),
            Err(error) => response is Err && response->Err_0@ == failed_text(domain, error@),
        },
{
    let mut text: String = String::from_str(domain.stream_label_text());
    match outcome {
        Ok(result) => {
            text.append(" operation completed: ");
            text.append(result.as_str());
            Ok(text)
        },
        Err(error) => {
            text.append(" operation failed: ");
            text.append(error.as_str());
            Err(text)
        },
    }
}

} // verus!
