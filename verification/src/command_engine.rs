//! The Command engine: takes a shell command line, annotates it in three stages and
//! reports one status line per backend operation. The request reaches the operations as it
//! is: the engine never looks into it.

use vstd::prelude::*;
use crate::backend::build_shell_expression;
use crate::pipeline::{
    enrich_context, enriched, parse_request, parsed, prepare_execution, prepared, Domain,
};
use crate::report::{
    compose_summary, operation_status, status_line, status_lines, summary, summary_at, views,
};

verus! {

/// Annotates the payload, with `timestamp` as the reading of the clock, and reports the
/// engine's operations on the annotated request. The engine itself never fails.
pub fn handle_command_operations(command_data: String, timestamp: i64) -> (result: Result<String, String>)
    ensures
        result is Ok,
        result->Ok_0@ == summary_at(Domain::Command, command_data@, timestamp as int),
{
    let processed_data: String = parse_command_request(command_data);
    let enriched_data: String = enrich_command_context(processed_data, timestamp);
    let final_data: String = prepare_command_execution(enriched_data);
    Ok(run_command_operations(final_data.as_str()))
}

/// Parse stage of the engine.
pub fn parse_command_request(command_data: String) -> (processed: String)
    ensures
        processed@ == parsed(Domain::Command, command_data@),
{
    parse_request(Domain::Command, command_data)
}

/// Enrich stage of the engine, with `timestamp` as the reading of the clock.
pub fn enrich_command_context(processed_data: String, timestamp: i64) -> (enriched_data: String)
    ensures
        enriched_data@ == enriched(Domain::Command, processed_data@, timestamp as int),
{
    enrich_context(Domain::Command, processed_data, timestamp)
}

/// Prepare stage of the engine.
pub fn prepare_command_execution(enriched_data: String) -> (finalized: String)
    ensures
        finalized@ == prepared(Domain::Command, enriched_data@),
{
    prepare_execution(Domain::Command, enriched_data)
}

/// Reports the engine's operations on the annotated request `data`, in their fixed order, and
/// joins their status lines. What an operation does here beyond its report is said at its own
/// function.
pub fn run_command_operations(data: &str) -> (text: String)
    ensures
        text@ == summary(Domain::Command, data@),
{
    let mut statuses: Vec<String> = Vec::new();
    statuses.push(execute_duct_sh_operation(data));
    statuses.push(execute_cmd_lib_operation(data));
    let text: String = compose_summary(Domain::Command, &statuses);
    assert(views(statuses@) =~= status_lines(Domain::Command.operation_labels(), data@));
    text
}

/// Wraps the request into a shell expression, which is dropped unrun, and reports it.
pub fn execute_duct_sh_operation(data: &str) -> (status: String)
    ensures
        status@ == status_line("Duct sh operation"@, data@),
{
    build_shell_expression(data);
    operation_status("Duct sh operation", data)
}

/// Reports the spawning of the request as a command. The spawning itself is the caller's to do.
pub fn execute_cmd_lib_operation(data: &str) -> (status: String)
    ensures
        status@ == status_line("Cmd lib operation"@, data@),
{
    operation_status("Cmd lib operation", data)
}

} // verus!
