//! The Memory engine: takes bytes for raw memory access, annotates it in three stages and
//! reports one status line per backend operation. The request reaches the operations as it
//! is: the engine never looks into it.

use vstd::prelude::*;
use crate::pipeline::{
    enrich_context, enriched, parse_request, parsed, prepare_execution, prepared, Domain,
};
use crate::report::{
    compose_summary, operation_status, status_line, status_lines, summary, summary_at, views,
};

verus! {

/// Annotates the payload, with `timestamp` as the reading of the clock, and reports the
/// engine's operations on the annotated request. The engine itself never fails.
pub fn handle_memory_operations(memory_data: String, timestamp: i64) -> (result: Result<String, String>)
    ensures
        result is Ok,
        result->Ok_0@ == summary_at(Domain::Memory, memory_data@, timestamp as int),
{
    let processed_data: String = parse_memory_request(memory_data);
    let enriched_data: String = enrich_memory_context(processed_data, timestamp);
    let final_data: String = prepare_memory_execution(enriched_data);
    Ok(run_memory_operations(final_data.as_str()))
}

/// Parse stage of the engine.
pub fn parse_memory_request(memory_data: String) -> (processed: String)
    ensures
        processed@ == parsed(Domain::Memory, memory_data@),
{
    parse_request(Domain::Memory, memory_data)
}

/// Enrich stage of the engine, with `timestamp` as the reading of the clock.
pub fn enrich_memory_context(processed_data: String, timestamp: i64) -> (enriched_data: String)
    ensures
        enriched_data@ == enriched(Domain::Memory, processed_data@, timestamp as int),
{
    enrich_context(Domain::Memory, processed_data, timestamp)
}

/// Prepare stage of the engine.
pub fn prepare_memory_execution(enriched_data: String) -> (finalized: String)
    ensures
        finalized@ == prepared(Domain::Memory, enriched_data@),
{
    prepare_execution(Domain::Memory, enriched_data)
}

/// Reports the engine's operations on the annotated request `data`, in their fixed order, and
/// joins their status lines. What an operation does here beyond its report is said at its own
/// function.
pub fn run_memory_operations(data: &str) -> (text: String)
    ensures
        text@ == summary(Domain::Memory, data@),
{
    let mut statuses: Vec<String> = Vec::new();
    statuses.push(execute_ptr_read_operation1(data));
    statuses.push(execute_ptr_read_operation2(data));
    statuses.push(execute_slice_from_raw_operation(data));
    statuses.push(execute_ptr_swap_operation(data));
    statuses.push(execute_write_unaligned_operation(data));
    let text: String = compose_summary(Domain::Memory, &statuses);
    assert(views(statuses@) =~= status_lines(Domain::Memory.operation_labels(), data@));
    text
}

/// Reports the first raw read at the start of the request's bytes. The read itself is the caller's to do.
pub fn execute_ptr_read_operation1(data: &str) -> (status: String)
    ensures
        status@ == status_line("Pointer read operation 1"@, data@),
{
    operation_status("Pointer read operation 1", data)
}

/// Reports the second raw read at the start of the request's bytes. The read itself is the caller's to do.
pub fn execute_ptr_read_operation2(data: &str) -> (status: String)
    ensures
        status@ == status_line("Pointer read operation 2"@, data@),
{
    operation_status("Pointer read operation 2", data)
}

/// Reports the rebuilding of a slice over the request's bytes. The rebuilding itself is the caller's to do.
pub fn execute_slice_from_raw_operation(data: &str) -> (status: String)
    ensures
        status@ == status_line("Slice from raw parts operation"@, data@),
{
    operation_status("Slice from raw parts operation", data)
}

/// Reports the raw swap of the request's first byte with a scratch buffer. The swap itself is the caller's to do.
pub fn execute_ptr_swap_operation(data: &str) -> (status: String)
    ensures
        status@ == status_line("Pointer swap operation"@, data@),
{
    operation_status("Pointer swap operation", data)
}

/// Reports the unaligned write of the request's first byte into a scratch buffer. The write itself is the caller's to do.
pub fn execute_write_unaligned_operation(data: &str) -> (status: String)
    ensures
        status@ == status_line("Write unaligned operation"@, data@),
{
    operation_status("Write unaligned operation", data)
}

} // verus!
