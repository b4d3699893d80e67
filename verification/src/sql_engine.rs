//! The SQL engine: takes an SQL statement, annotates it in three stages and
//! reports one status line per backend operation. The request reaches the operations as it
//! is: the engine never looks into it.

use vstd::prelude::*;
use crate::pipeline::{
    enrich_context, enriched, parse_request, parsed, prepare_execution, prepared, Domain,
};
use crate::report::{
    compose_summary, operation_status, status_line, status_lines, summary, summary_at, views,
};

verus! {

/// Annotates the payload, with `timestamp` as the reading of the clock, and reports the
/// engine's operations on the annotated request. The engine itself never fails.
pub fn handle_sql_operations(sql_data: String, timestamp: i64) -> (result: Result<String, String>)
    ensures
        result is Ok,
        result->Ok_0@ == summary_at(Domain::Sql, sql_data@, timestamp as int),
{
    let processed_data: String = parse_sql_request(sql_data);
    let enriched_data: String = enrich_sql_context(processed_data, timestamp);
    let final_data: String = prepare_sql_execution(enriched_data);
    Ok(run_sql_operations(final_data.as_str()))
}

/// Parse stage of the engine.
pub fn parse_sql_request(sql_data: String) -> (processed: String)
    ensures
        processed@ == parsed(Domain::Sql, sql_data@),
{
    parse_request(Domain::Sql, sql_data)
}

/// Enrich stage of the engine, with `timestamp` as the reading of the clock.
pub fn enrich_sql_context(processed_data: String, timestamp: i64) -> (enriched_data: String)
    ensures
        enriched_data@ == enriched(Domain::Sql, processed_data@, timestamp as int),
{
    enrich_context(Domain::Sql, processed_data, timestamp)
}

/// Prepare stage of the engine.
pub fn prepare_sql_execution(enriched_data: String) -> (finalized: String)
    ensures
        finalized@ == prepared(Domain::Sql, enriched_data@),
{
    prepare_execution(Domain::Sql, enriched_data)
}

/// Reports the engine's operations on the annotated request `data`, in their fixed order, and
/// joins their status lines. What an operation does here beyond its report is said at its own
/// function.
pub fn run_sql_operations(data: &str) -> (text: String)
    ensures
        text@ == summary(Domain::Sql, data@),
{
    let mut statuses: Vec<String> = Vec::new();
    statuses.push(execute_statement_query_row(data));
    statuses.push(execute_connection_query_row(data));
    let text: String = compose_summary(Domain::Sql, &statuses);
    assert(views(statuses@) =~= status_lines(Domain::Sql.operation_labels(), data@));
    text
}

/// Reports the query of one row through a prepared statement. The query itself is the caller's to do.
pub fn execute_statement_query_row(data: &str) -> (status: String)
    ensures
        status@ == status_line("Statement query_row operation"@, data@),
{
    operation_status("Statement query_row operation", data)
}

/// Reports the query of one row through the connection. The query itself is the caller's to do.
pub fn execute_connection_query_row(data: &str) -> (status: String)
    ensures
        status@ == status_line("Connection query_row operation"@, data@),
{
    operation_status("Connection query_row operation", data)
}

} // verus!
