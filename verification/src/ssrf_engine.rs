//! The SSRF engine: takes a URL to fetch, annotates it in three stages and
//! reports one status line per backend operation. The request reaches the operations as it
//! is: the engine never looks into it.

use vstd::prelude::*;
use crate::pipeline::{
    enrich_context, enriched, parse_request, parsed, prepare_execution, prepared, Domain,
};
use crate::report::{
    compose_summary, operation_status, status_line, status_lines, summary, summary_at, views,
};

verus! {

/// Annotates the payload, with `timestamp` as the reading of the clock, and reports the
/// engine's operations on the annotated request. The engine itself never fails.
pub fn handle_ssrf_operations(ssrf_data: String, timestamp: i64) -> (result: Result<String, String>)
    ensures
        result is Ok,
        result->Ok_0@ == summary_at(Domain::Ssrf, ssrf_data@, timestamp as int),
{
    let processed_data: String = parse_ssrf_request(ssrf_data);
    let enriched_data: String = enrich_ssrf_context(processed_data, timestamp);
    let final_data: String = prepare_ssrf_execution(enriched_data);
    Ok(run_ssrf_operations(final_data.as_str()))
}

/// Parse stage of the engine.
pub fn parse_ssrf_request(ssrf_data: String) -> (processed: String)
    ensures
        processed@ == parsed(Domain::Ssrf, ssrf_data@),
{
    parse_request(Domain::Ssrf, ssrf_data)
}

/// Enrich stage of the engine, with `timestamp` as the reading of the clock.
pub fn enrich_ssrf_context(processed_data: String, timestamp: i64) -> (enriched_data: String)
    ensures
        enriched_data@ == enriched(Domain::Ssrf, processed_data@, timestamp as int),
{
    enrich_context(Domain::Ssrf, processed_data, timestamp)
}

/// Prepare stage of the engine.
pub fn prepare_ssrf_execution(enriched_data: String) -> (finalized: String)
    ensures
        finalized@ == prepared(Domain::Ssrf, enriched_data@),
{
    prepare_execution(Domain::Ssrf, enriched_data)
}

/// Reports the engine's operations on the annotated request `data`, in their fixed order, and
/// joins their status lines. What an operation does here beyond its report is said at its own
/// function.
pub fn run_ssrf_operations(data: &str) -> (text: String)
    ensures
        text@ == summary(Domain::Ssrf, data@),
{
    let mut statuses: Vec<String> = Vec::new();
    statuses.push(execute_awc_client_get(data));
    statuses.push(execute_reqwest_client_get(data));
    let text: String = compose_summary(Domain::Ssrf, &statuses);
    assert(views(statuses@) =~= status_lines(Domain::Ssrf.operation_labels(), data@));
    text
}

/// Reports the GET request of the first HTTP client. The request itself is the caller's to make.
pub fn execute_awc_client_get(data: &str) -> (status: String)
    ensures
        status@ == status_line("AWC client get operation"@, data@),
{
    operation_status("AWC client get operation", data)
}

/// Reports the GET request of the second HTTP client. The request itself is the caller's to make.
pub fn execute_reqwest_client_get(data: &str) -> (status: String)
    ensures
        status@ == status_line("Reqwest client get operation"@, data@),
{
    operation_status("Reqwest client get operation", data)
}

} // verus!
