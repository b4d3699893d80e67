//! The LDAP engine: takes a directory search filter, annotates it in three stages and
//! reports one status line per backend operation. The request reaches the operations as it
//! is: the engine never looks into it.

use vstd::prelude::*;
use crate::pipeline::{
    enrich_context, enriched, parse_request, parsed, prepare_execution, prepared, Domain,
};
use crate::report::{
    compose_summary, operation_status, status_line, status_lines, summary, summary_at, views,
};

verus! {

/// Annotates the payload, with `timestamp` as the reading of the clock, and reports the
/// engine's operations on the annotated request. The engine itself never fails.
pub fn handle_ldap_operations(ldap_data: String, timestamp: i64) -> (result: Result<String, String>)
    ensures
        result is Ok,
        result->Ok_0@ == summary_at(Domain::Ldap, ldap_data@, timestamp as int),
{
    let processed_data: String = parse_ldap_request(ldap_data);
    let enriched_data: String = enrich_ldap_context(processed_data, timestamp);
    let final_data: String = prepare_ldap_execution(enriched_data);
    Ok(run_ldap_operations(final_data.as_str()))
}

/// Parse stage of the engine.
pub fn parse_ldap_request(ldap_data: String) -> (processed: String)
    ensures
        processed@ == parsed(Domain::Ldap, ldap_data@),
{
    parse_request(Domain::Ldap, ldap_data)
}

/// Enrich stage of the engine, with `timestamp` as the reading of the clock.
pub fn enrich_ldap_context(processed_data: String, timestamp: i64) -> (enriched_data: String)
    ensures
        enriched_data@ == enriched(Domain::Ldap, processed_data@, timestamp as int),
{
    enrich_context(Domain::Ldap, processed_data, timestamp)
}

/// Prepare stage of the engine.
pub fn prepare_ldap_execution(enriched_data: String) -> (finalized: String)
    ensures
        finalized@ == prepared(Domain::Ldap, enriched_data@),
{
    prepare_execution(Domain::Ldap, enriched_data)
}

/// Reports the engine's operations on the annotated request `data`, in their fixed order, and
/// joins their status lines. What an operation does here beyond its report is said at its own
/// function.
pub fn run_ldap_operations(data: &str) -> (text: String)
    ensures
        text@ == summary(Domain::Ldap, data@),
{
    let mut statuses: Vec<String> = Vec::new();
    statuses.push(execute_ldap_search(data));
    statuses.push(execute_ldap_streaming_search(data));
    let text: String = compose_summary(Domain::Ldap, &statuses);
    assert(views(statuses@) =~= status_lines(Domain::Ldap.operation_labels(), data@));
    text
}

/// Reports the directory search with the request as its filter. The search itself is the caller's to do.
pub fn execute_ldap_search(data: &str) -> (status: String)
    ensures
        status@ == status_line("LDAP search operation"@, data@),
{
    operation_status("LDAP search operation", data)
}

/// Reports the streaming directory search with the request as its filter. The search itself is the caller's to do.
pub fn execute_ldap_streaming_search(data: &str) -> (status: String)
    ensures
        status@ == status_line("LDAP streaming search operation"@, data@),
{
    operation_status("LDAP streaming search operation", data)
}

} // verus!
