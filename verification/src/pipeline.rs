//! The three annotation stages that every domain engine runs on a request, in the order parse,
//! enrich, prepare. Each stage appends ` -- KEY=VALUE` tokens to the text it is given and never
//! inspects, shortens or rejects that text.

use vstd::prelude::*;
use vstd::utf8::*;
use crate::text::{
    byte_len, byte_length, decimal_digits, i64_to_decimal, lemma_byte_len_ascii,
    lemma_byte_len_concat, lemma_decimal_digits_ascii, lemma_signed_decimal_ascii, signed_decimal,
    usize_to_decimal,
};

verus! {

/// The domain that an engine serves. It selects the tokens that each stage appends.
#[derive(Clone, Copy, Debug, PartialEq, Eq, Structural)]
pub enum Domain {
    Command,
    Ldap,
    Memory,
    Path,
    Redirect,
    Sql,
    Ssrf,
    Xpath,
}

impl Domain {
    /// What the parse stage appends before the payload's byte length: the request type and the key of the length.
    pub open spec fn parse_head(self) -> Seq<char> {
        match self {
            Domain::Command => " -- COMMAND_TYPE=SYSTEM_EXECUTION -- COMMAND_LENGTH="@,
            Domain::Ldap => " -- LDAP_TYPE=DIRECTORY_QUERY -- LDAP_LENGTH="@,
            Domain::Memory => " -- MEMORY_TYPE=RAW_ACCESS -- MEMORY_LENGTH="@,
            Domain::Path => " -- PATH_TYPE=FILE_SYSTEM -- PATH_LENGTH="@,
            Domain::Redirect => " -- REDIRECT_TYPE=NAVIGATION -- REDIRECT_LENGTH="@,
            Domain::Sql => " -- SQL_TYPE=DATABASE_QUERY -- SQL_LENGTH="@,
            Domain::Ssrf => " -- SSRF_TYPE=NETWORK_REQUEST -- SSRF_LENGTH="@,
            Domain::Xpath => " -- XPATH_TYPE=XML_QUERY -- XPATH_LENGTH="@,
        }
    }

    /// What the parse stage appends after the payload's byte length: the priority.
    pub open spec fn parse_tail(self) -> Seq<char> {
        match self {
            Domain::Command => " -- PRIORITY=HIGH"@,
            Domain::Ldap => " -- PRIORITY=HIGH"@,
            Domain::Memory => " -- PRIORITY=CRITICAL"@,
            Domain::Path => " -- PRIORITY=HIGH"@,
            Domain::Redirect => " -- PRIORITY=HIGH"@,
            Domain::Sql => " -- PRIORITY=HIGH"@,
            Domain::Ssrf => " -- PRIORITY=HIGH"@,
            Domain::Xpath => " -- PRIORITY=HIGH"@,
        }
    }

    /// What the enrich stage appends before the clock reading: the context and the key of the timestamp.
    pub open spec fn enrich_head(self) -> Seq<char> {
        match self {
            Domain::Command => " -- CONTEXT=USER_REQUESTED -- TIMESTAMP="@,
            Domain::Ldap => " -- CONTEXT=USER_REQUESTED -- TIMESTAMP="@,
            Domain::Memory => " -- CONTEXT=DIRECT_MEMORY -- TIMESTAMP="@,
            Domain::Path => " -- CONTEXT=USER_REQUESTED -- TIMESTAMP="@,
            Domain::Redirect => " -- CONTEXT=USER_REQUESTED -- TIMESTAMP="@,
            Domain::Sql => " -- CONTEXT=USER_REQUESTED -- TIMESTAMP="@,
            Domain::Ssrf => " -- CONTEXT=USER_REQUESTED -- TIMESTAMP="@,
            Domain::Xpath => " -- CONTEXT=USER_REQUESTED -- TIMESTAMP="@,
        }
    }

    /// What the enrich stage appends after the clock reading: the resource and the permissions.
    pub open spec fn enrich_tail(self) -> Seq<char> {
        match self {
            Domain::Command => " -- SYSTEM=LOCAL -- PERMISSIONS=EXECUTE"@,
            Domain::Ldap => " -- DIRECTORY=ACTIVE_DIRECTORY -- PERMISSIONS=SEARCH"@,
            Domain::Memory => " -- MEMORY_REGION=HEAP -- PERMISSIONS=READ_WRITE"@,
            Domain::Path => " -- FILE_SYSTEM=LOCAL -- PERMISSIONS=READ_WRITE"@,
            Domain::Redirect => " -- NAVIGATION=EXTERNAL -- PERMISSIONS=REDIRECT"@,
            Domain::Sql => " -- DATABASE=LOCAL -- PERMISSIONS=READ_WRITE"@,
            Domain::Ssrf => " -- NETWORK=EXTERNAL -- PERMISSIONS=HTTP_CLIENT"@,
            Domain::Xpath => " -- XML_PARSER=STANDARD -- PERMISSIONS=QUERY"@,
        }
    }

    /// What the prepare stage appends: optimization, execution, and the two closing tags.
    pub open spec fn prepare_suffix(self) -> Seq<char> {
        match self {
            Domain::Command => " -- OPTIMIZATION=AGGRESSIVE -- EXECUTION=SYNC -- CACHE_FRIENDLY=TRUE -- OVERHEAD_MINIMIZED=TRUE"@,
            Domain::Ldap => " -- OPTIMIZATION=AGGRESSIVE -- EXECUTION=SYNC -- CACHE_FRIENDLY=TRUE -- OVERHEAD_MINIMIZED=TRUE"@,
            Domain::Memory => " -- OPTIMIZATION=UNSAFE -- EXECUTION=DIRECT -- BOUNDS_CHECK=DISABLED -- SAFETY_DISABLED=TRUE"@,
            Domain::Path => " -- OPTIMIZATION=AGGRESSIVE -- RESOLUTION=ABSOLUTE -- CACHE_FRIENDLY=TRUE -- OVERHEAD_MINIMIZED=TRUE"@,
            Domain::Redirect => " -- OPTIMIZATION=AGGRESSIVE -- EXECUTION=SYNC -- CACHE_FRIENDLY=TRUE -- OVERHEAD_MINIMIZED=TRUE"@,
            Domain::Sql => " -- OPTIMIZATION=AGGRESSIVE -- EXECUTION=SYNC -- CACHE_FRIENDLY=TRUE -- OVERHEAD_MINIMIZED=TRUE"@,
            Domain::Ssrf => " -- OPTIMIZATION=AGGRESSIVE -- EXECUTION=SYNC -- CACHE_FRIENDLY=TRUE -- OVERHEAD_MINIMIZED=TRUE"@,
            Domain::Xpath => " -- OPTIMIZATION=AGGRESSIVE -- EXECUTION=SYNC -- CACHE_FRIENDLY=TRUE -- OVERHEAD_MINIMIZED=TRUE"@,
        }
    }

    /// The text of [`Domain::parse_head`].
    pub fn parse_head_text(self) -> (s: &'static str)
        ensures
            s@ == self.parse_head(),
    {
        match self {
            Domain::Command => " -- COMMAND_TYPE=SYSTEM_EXECUTION -- COMMAND_LENGTH=",
            Domain::Ldap => " -- LDAP_TYPE=DIRECTORY_QUERY -- LDAP_LENGTH=",
            Domain::Memory => " -- MEMORY_TYPE=RAW_ACCESS -- MEMORY_LENGTH=",
            Domain::Path => " -- PATH_TYPE=FILE_SYSTEM -- PATH_LENGTH=",
            Domain::Redirect => " -- REDIRECT_TYPE=NAVIGATION -- REDIRECT_LENGTH=",
            Domain::Sql => " -- SQL_TYPE=DATABASE_QUERY -- SQL_LENGTH=",
            Domain::Ssrf => " -- SSRF_TYPE=NETWORK_REQUEST -- SSRF_LENGTH=",
            Domain::Xpath => " -- XPATH_TYPE=XML_QUERY -- XPATH_LENGTH=",
        }
    }

    /// The text of [`Domain::parse_tail`].
    pub fn parse_tail_text(self) -> (s: &'static str)
        ensures
            s@ == self.parse_tail(),
    {
        match self {
            Domain::Command => " -- PRIORITY=HIGH",
            Domain::Ldap => " -- PRIORITY=HIGH",
            Domain::Memory => " -- PRIORITY=CRITICAL",
            Domain::Path => " -- PRIORITY=HIGH",
            Domain::Redirect => " -- PRIORITY=HIGH",
            Domain::Sql => " -- PRIORITY=HIGH",
            Domain::Ssrf => " -- PRIORITY=HIGH",
            Domain::Xpath => " -- PRIORITY=HIGH",
        }
    }

    /// The text of [`Domain::enrich_head`].
    pub fn enrich_head_text(self) -> (s: &'static str)
        ensures
            s@ == self.enrich_head(),
    {
        match self {
            Domain::Command => " -- CONTEXT=USER_REQUESTED -- TIMESTAMP=",
            Domain::Ldap => " -- CONTEXT=USER_REQUESTED -- TIMESTAMP=",
            Domain::Memory => " -- CONTEXT=DIRECT_MEMORY -- TIMESTAMP=",
            Domain::Path => " -- CONTEXT=USER_REQUESTED -- TIMESTAMP=",
            Domain::Redirect => " -- CONTEXT=USER_REQUESTED -- TIMESTAMP=",
            Domain::Sql => " -- CONTEXT=USER_REQUESTED -- TIMESTAMP=",
            Domain::Ssrf => " -- CONTEXT=USER_REQUESTED -- TIMESTAMP=",
            Domain::Xpath => " -- CONTEXT=USER_REQUESTED -- TIMESTAMP=",
        }
    }

    /// The text of [`Domain::enrich_tail`].
    pub fn enrich_tail_text(self) -> (s: &'static str)
        ensures
            s@ == self.enrich_tail(),
    {
        match self {
            Domain::Command => " -- SYSTEM=LOCAL -- PERMISSIONS=EXECUTE",
            Domain::Ldap => " -- DIRECTORY=ACTIVE_DIRECTORY -- PERMISSIONS=SEARCH",
            Domain::Memory => " -- MEMORY_REGION=HEAP -- PERMISSIONS=READ_WRITE",
            Domain::Path => " -- FILE_SYSTEM=LOCAL -- PERMISSIONS=READ_WRITE",
            Domain::Redirect => " -- NAVIGATION=EXTERNAL -- PERMISSIONS=REDIRECT",
            Domain::Sql => " -- DATABASE=LOCAL -- PERMISSIONS=READ_WRITE",
            Domain::Ssrf => " -- NETWORK=EXTERNAL -- PERMISSIONS=HTTP_CLIENT",
            Domain::Xpath => " -- XML_PARSER=STANDARD -- PERMISSIONS=QUERY",
        }
    }

    /// The text of [`Domain::prepare_suffix`].
    pub fn prepare_suffix_text(self) -> (s: &'static str)
        ensures
            s@ == self.prepare_suffix(),
    {
        match self {
            Domain::Command => " -- OPTIMIZATION=AGGRESSIVE -- EXECUTION=SYNC -- CACHE_FRIENDLY=TRUE -- OVERHEAD_MINIMIZED=TRUE",
            Domain::Ldap => " -- OPTIMIZATION=AGGRESSIVE -- EXECUTION=SYNC -- CACHE_FRIENDLY=TRUE -- OVERHEAD_MINIMIZED=TRUE",
            Domain::Memory => " -- OPTIMIZATION=UNSAFE -- EXECUTION=DIRECT -- BOUNDS_CHECK=DISABLED -- SAFETY_DISABLED=TRUE",
            Domain::Path => " -- OPTIMIZATION=AGGRESSIVE -- RESOLUTION=ABSOLUTE -- CACHE_FRIENDLY=TRUE -- OVERHEAD_MINIMIZED=TRUE",
            Domain::Redirect => " -- OPTIMIZATION=AGGRESSIVE -- EXECUTION=SYNC -- CACHE_FRIENDLY=TRUE -- OVERHEAD_MINIMIZED=TRUE",
            Domain::Sql => " -- OPTIMIZATION=AGGRESSIVE -- EXECUTION=SYNC -- CACHE_FRIENDLY=TRUE -- OVERHEAD_MINIMIZED=TRUE",
            Domain::Ssrf => " -- OPTIMIZATION=AGGRESSIVE -- EXECUTION=SYNC -- CACHE_FRIENDLY=TRUE -- OVERHEAD_MINIMIZED=TRUE",
            Domain::Xpath => " -- OPTIMIZATION=AGGRESSIVE -- EXECUTION=SYNC -- CACHE_FRIENDLY=TRUE -- OVERHEAD_MINIMIZED=TRUE",
        }
    }
}

/// Everything the parse stage appends to `payload`.
pub open spec fn parse_suffix(domain: Domain, payload: Seq<char>) -> Seq<char> {
    domain.parse_head() + decimal_digits(byte_len(payload)) + domain.parse_tail()
}

/// Everything the enrich stage appends when the clock reads `timestamp`.
pub open spec fn enrich_suffix(domain: Domain, timestamp: int) -> Seq<char> {
    domain.enrich_head() + signed_decimal(timestamp) + domain.enrich_tail()
}

/// The request after the parse stage.
pub open spec fn parsed(domain: Domain, payload: Seq<char>) -> Seq<char> {
    payload + parse_suffix(domain, payload)
}

/// The request after the enrich stage, run at clock reading `timestamp`.
pub open spec fn enriched(domain: Domain, processed: Seq<char>, timestamp: int) -> Seq<char> {
    processed + enrich_suffix(domain, timestamp)
}

/// The request after the prepare stage.
pub open spec fn prepared(domain: Domain, enriched_request: Seq<char>) -> Seq<char> {
    enriched_request + domain.prepare_suffix()
}

/// The annotated request: the payload after all three stages, in their fixed order.
pub open spec fn annotated(domain: Domain, payload: Seq<char>, timestamp: int) -> Seq<char> {
    prepared(domain, enriched(domain, parsed(domain, payload), timestamp))
}

/// Parse stage: tags the payload with the request type, its length in bytes and the priority.
pub fn parse_request(domain: Domain, payload: String) -> (processed: String)
    ensures
        processed@ == parsed(domain, payload@),
{
    let length: usize = byte_length(payload.as_str());
    let digits: String = usize_to_decimal(length);
    let mut processed: String = payload;
    processed.append(domain.parse_head_text());
    processed.append(digits.as_str());
    processed.append(domain.parse_tail_text());
    assert(processed@ =~= parsed(domain, payload@));
    processed
}

/// Enrich stage: adds the context, the clock reading `timestamp`, the resource and the
/// permissions.
pub fn enrich_context(domain: Domain, processed: String, timestamp: i64) -> (enriched_request: String)
    ensures
        enriched_request@ == enriched(domain, processed@, timestamp as int),
{
    let digits: String = i64_to_decimal(timestamp);
    let mut enriched_request: String = processed;
    enriched_request.append(domain.enrich_head_text());
    enriched_request.append(digits.as_str());
    enriched_request.append(domain.enrich_tail_text());
    assert(enriched_request@ =~= enriched(domain, processed@, timestamp as int));
    enriched_request
}

/// Prepare stage: adds the optimization, execution and closing tags.
pub fn prepare_execution(domain: Domain, enriched_request: String) -> (finalized: String)
    ensures
        finalized@ == prepared(domain, enriched_request@),
{
    let mut finalized: String = enriched_request;
    finalized.append(domain.prepare_suffix_text());
    finalized
}

/// Runs the three stages in order, with `timestamp` as the clock reading of the enrich stage.
pub fn annotate(domain: Domain, payload: String, timestamp: i64) -> (request: String)
    ensures
        request@ == annotated(domain, payload@, timestamp as int),
{
    let processed: String = parse_request(domain, payload);
    let enriched_request: String = enrich_context(domain, processed, timestamp);
    prepare_execution(domain, enriched_request)
}

/// The number of characters in the tokens of `domain` that do not depend on the request.
pub open spec fn fixed_token_len(domain: Domain) -> nat {
    domain.parse_head().len() + domain.parse_tail().len() + domain.enrich_head().len()
        + domain.enrich_tail().len() + domain.prepare_suffix().len()
}

/// Every token of every domain is ASCII, so it takes as many bytes as it has characters.
pub proof fn lemma_tokens_ascii(domain: Domain)
    ensures
        is_ascii_chars(domain.parse_head()),
        is_ascii_chars(domain.parse_tail()),
        is_ascii_chars(domain.enrich_head()),
        is_ascii_chars(domain.enrich_tail()),
        is_ascii_chars(domain.prepare_suffix()),
{
    reveal_strlit(" -- COMMAND_TYPE=SYSTEM_EXECUTION -- COMMAND_LENGTH=");
    reveal_strlit(" -- CONTEXT=DIRECT_MEMORY -- TIMESTAMP=");
    reveal_strlit(" -- CONTEXT=USER_REQUESTED -- TIMESTAMP=");
    reveal_strlit(" -- DATABASE=LOCAL -- PERMISSIONS=READ_WRITE");
    reveal_strlit(" -- DIRECTORY=ACTIVE_DIRECTORY -- PERMISSIONS=SEARCH");
    reveal_strlit(" -- FILE_SYSTEM=LOCAL -- PERMISSIONS=READ_WRITE");
    reveal_strlit(" -- LDAP_TYPE=DIRECTORY_QUERY -- LDAP_LENGTH=");
    reveal_strlit(" -- MEMORY_REGION=HEAP -- PERMISSIONS=READ_WRITE");
    reveal_strlit(" -- MEMORY_TYPE=RAW_ACCESS -- MEMORY_LENGTH=");
    reveal_strlit(" -- NAVIGATION=EXTERNAL -- PERMISSIONS=REDIRECT");
    reveal_strlit(" -- NETWORK=EXTERNAL -- PERMISSIONS=HTTP_CLIENT");
    reveal_strlit(" -- OPTIMIZATION=AGGRESSIVE -- EXECUTION=SYNC -- CACHE_FRIENDLY=TRUE -- OVERHEAD_MINIMIZED=TRUE");
    reveal_strlit(" -- OPTIMIZATION=AGGRESSIVE -- RESOLUTION=ABSOLUTE -- CACHE_FRIENDLY=TRUE -- OVERHEAD_MINIMIZED=TRUE");
    reveal_strlit(" -- OPTIMIZATION=UNSAFE -- EXECUTION=DIRECT -- BOUNDS_CHECK=DISABLED -- SAFETY_DISABLED=TRUE");
    reveal_strlit(" -- PATH_TYPE=FILE_SYSTEM -- PATH_LENGTH=");
    reveal_strlit(" -- PRIORITY=CRITICAL");
    reveal_strlit(" -- PRIORITY=HIGH");
    reveal_strlit(" -- REDIRECT_TYPE=NAVIGATION -- REDIRECT_LENGTH=");
    reveal_strlit(" -- SQL_TYPE=DATABASE_QUERY -- SQL_LENGTH=");
    reveal_strlit(" -- SSRF_TYPE=NETWORK_REQUEST -- SSRF_LENGTH=");
    reveal_strlit(" -- SYSTEM=LOCAL -- PERMISSIONS=EXECUTE");
    reveal_strlit(" -- XML_PARSER=STANDARD -- PERMISSIONS=QUERY");
    reveal_strlit(" -- XPATH_TYPE=XML_QUERY -- XPATH_LENGTH=");
}

/// The stages append in their fixed order, the request is otherwise untouched, and its
/// length in bytes is the payload's plus the lengths of the tokens of parse, of enrich and of
/// prepare. For one payload and one clock reading there is one annotated request.
pub proof fn lemma_annotated_layout(domain: Domain, payload: Seq<char>, timestamp: int)
    ensures
        annotated(domain, payload, timestamp) == payload + parse_suffix(domain, payload)
            + enrich_suffix(domain, timestamp) + domain.prepare_suffix(),
        byte_len(annotated(domain, payload, timestamp)) == byte_len(payload) + parse_suffix(
            domain,
            payload,
        ).len() + enrich_suffix(domain, timestamp).len() + domain.prepare_suffix().len(),
        byte_len(annotated(domain, payload, timestamp)) == byte_len(payload) + fixed_token_len(
            domain,
        ) + decimal_digits(byte_len(payload)).len() + signed_decimal(timestamp).len(),
{
    let parse = parse_suffix(domain, payload);
    let enrich = enrich_suffix(domain, timestamp);
    let prepare = domain.prepare_suffix();
    lemma_tokens_ascii(domain);
    lemma_decimal_digits_ascii(byte_len(payload));
    lemma_signed_decimal_ascii(timestamp);
    assert(is_ascii_chars(parse));
    assert(is_ascii_chars(enrich));
    lemma_byte_len_ascii(parse);
    lemma_byte_len_ascii(enrich);
    lemma_byte_len_ascii(prepare);
    lemma_byte_len_concat(payload, parse);
    lemma_byte_len_concat(payload + parse, enrich);
    lemma_byte_len_concat(payload + parse + enrich, prepare);
}

} // verus!
