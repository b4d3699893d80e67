//! The Redirect engine: takes a redirect target, annotates it in three stages and
//! reports one status line per backend operation. The request reaches the operations as it
//! is: the engine never looks into it.

use vstd::prelude::*;
use crate::backend::{
    build_axum_redirect, build_found_response, build_permanent_redirect_response, build_rocket_redirect,
};
use crate::pipeline::{
    enrich_context, enriched, parse_request, parsed, prepare_execution, prepared, Domain,
};
use crate::report::{
    compose_summary, operation_status, status_line, status_lines, summary, summary_at, views,
};

verus! {

/// Annotates the payload, with `timestamp` as the reading of the clock, and reports the
/// engine's operations on the annotated request. The engine itself never fails.
pub fn handle_redirect_operations(redirect_data: String, timestamp: i64) -> (result: Result<String, String>)
    ensures
        result is Ok,
        result->Ok_0@ == summary_at(Domain::Redirect, redirect_data@, timestamp as int),
{
    let processed_data: String = parse_redirect_request(redirect_data);
    let enriched_data: String = enrich_redirect_context(processed_data, timestamp);
    let final_data: String = prepare_redirect_execution(enriched_data);
    Ok(run_redirect_operations(final_data.as_str()))
}

/// Parse stage of the engine.
pub fn parse_redirect_request(redirect_data: String) -> (processed: String)
    ensures
        processed@ == parsed(Domain::Redirect, redirect_data@),
{
    parse_request(Domain::Redirect, redirect_data)
}

/// Enrich stage of the engine, with `timestamp` as the reading of the clock.
pub fn enrich_redirect_context(processed_data: String, timestamp: i64) -> (enriched_data: String)
    ensures
        enriched_data@ == enriched(Domain::Redirect, processed_data@, timestamp as int),
{
    enrich_context(Domain::Redirect, processed_data, timestamp)
}

/// Prepare stage of the engine.
pub fn prepare_redirect_execution(enriched_data: String) -> (finalized: String)
    ensures
        finalized@ == prepared(Domain::Redirect, enriched_data@),
{
    prepare_execution(Domain::Redirect, enriched_data)
}

/// Reports the engine's operations on the annotated request `data`, in their fixed order, and
/// joins their status lines. What an operation does here beyond its report is said at its own
/// function.
pub fn run_redirect_operations(data: &str) -> (text: String)
    ensures
        text@ == summary(Domain::Redirect, data@),
{
    let mut statuses: Vec<String> = Vec::new();
    statuses.push(execute_poem_redirect(data));
    statuses.push(execute_salvo_redirect(data));
    statuses.push(execute_tide_redirect(data));
    statuses.push(execute_tower_redirect(data));
    let text: String = compose_summary(Domain::Redirect, &statuses);
    assert(views(statuses@) =~= status_lines(Domain::Redirect.operation_labels(), data@));
    text
}

/// Builds a `302 Found` response to the request, which is dropped, and reports it.
pub fn execute_poem_redirect(data: &str) -> (status: String)
    ensures
        status@ == status_line("Actix redirect operation"@, data@),
{
    build_found_response(data);
    operation_status("Actix redirect operation", data)
}

/// Builds a `303 See Other` redirect to the request, which is dropped, and reports it.
pub fn execute_salvo_redirect(data: &str) -> (status: String)
    ensures
        status@ == status_line("Rocket redirect operation"@, data@),
{
    build_rocket_redirect(data);
    operation_status("Rocket redirect operation", data)
}

/// Builds a second `303 See Other` redirect to the request, which is dropped, and reports it.
pub fn execute_tide_redirect(data: &str) -> (status: String)
    ensures
        status@ == status_line("Axum redirect operation"@, data@),
{
    build_axum_redirect(data);
    operation_status("Axum redirect operation", data)
}

/// Builds a `308 Permanent Redirect` response to the request, which is dropped, and reports it.
pub fn execute_tower_redirect(data: &str) -> (status: String)
    ensures
        status@ == status_line("Actix response redirect operation"@, data@),
{
    build_permanent_redirect_response(data);
    operation_status("Actix response redirect operation", data)
}

} // verus!
