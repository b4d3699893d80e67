//! The Path engine: takes a file system path, annotates it in three stages and
//! reports one status line per backend operation. The request reaches the operations as it
//! is: the engine never looks into it.

use vstd::prelude::*;
use crate::backend::build_directory_service;
use crate::pipeline::{
    enrich_context, enriched, parse_request, parsed, prepare_execution, prepared, Domain,
};
use crate::report::{
    compose_summary, operation_status, status_line, status_lines, summary, summary_at, views,
};

verus! {

/// Annotates the payload, with `timestamp` as the reading of the clock, and reports the
/// engine's operations on the annotated request. The engine itself never fails.
pub fn handle_path_operations(path_data: String, timestamp: i64) -> (result: Result<String, String>)
    ensures
        result is Ok,
        result->Ok_0@ == summary_at(Domain::Path, path_data@, timestamp as int),
{
    let processed_data: String = parse_path_request(path_data);
    let enriched_data: String = enrich_path_context(processed_data, timestamp);
    let final_data: String = prepare_path_execution(enriched_data);
    Ok(run_path_operations(final_data.as_str()))
}

/// Parse stage of the engine.
pub fn parse_path_request(path_data: String) -> (processed: String)
    ensures
        processed@ == parsed(Domain::Path, path_data@),
{
    parse_request(Domain::Path, path_data)
}

/// Enrich stage of the engine, with `timestamp` as the reading of the clock.
pub fn enrich_path_context(processed_data: String, timestamp: i64) -> (enriched_data: String)
    ensures
        enriched_data@ == enriched(Domain::Path, processed_data@, timestamp as int),
{
    enrich_context(Domain::Path, processed_data, timestamp)
}

/// Prepare stage of the engine.
pub fn prepare_path_execution(enriched_data: String) -> (finalized: String)
    ensures
        finalized@ == prepared(Domain::Path, enriched_data@),
{
    prepare_execution(Domain::Path, enriched_data)
}

/// Reports the engine's operations on the annotated request `data`, in their fixed order, and
/// joins their status lines. What an operation does here beyond its report is said at its own
/// function.
pub fn run_path_operations(data: &str) -> (text: String)
    ensures
        text@ == summary(Domain::Path, data@),
{
    let mut statuses: Vec<String> = Vec::new();
    statuses.push(execute_csv_path_operation(data));
    statuses.push(execute_serve_dir_operation(data));
    let text: String = compose_summary(Domain::Path, &statuses);
    assert(views(statuses@) =~= status_lines(Domain::Path.operation_labels(), data@));
    text
}

/// Reports the opening of a CSV writer at the request as its path. The opening itself is the caller's to do.
pub fn execute_csv_path_operation(data: &str) -> (status: String)
    ensures
        status@ == status_line("CSV path operation"@, data@),
{
    operation_status("CSV path operation", data)
}

/// Builds a directory service rooted at the request, which is dropped, and reports it.
pub fn execute_serve_dir_operation(data: &str) -> (status: String)
    ensures
        status@ == status_line("Serve directory operation"@, data@),
{
    build_directory_service(data);
    operation_status("Serve directory operation", data)
}

} // verus!
