//! The XPath engine: takes an XPath expression, annotates it in three stages and
//! reports one status line per backend operation. The request reaches the operations as it
//! is: the engine never looks into it.

use vstd::prelude::*;
use crate::backend::compile_xpath;
use crate::pipeline::{
    enrich_context, enriched, parse_request, parsed, prepare_execution, prepared, Domain,
};
use crate::report::{
    compose_summary, operation_status, status_line, status_lines, summary, summary_at, views,
};

verus! {

/// Annotates the payload, with `timestamp` as the reading of the clock, and reports the
/// engine's operations on the annotated request. The engine itself never fails.
pub fn handle_xpath_operations(xpath_data: String, timestamp: i64) -> (result: Result<String, String>)
    ensures
        result is Ok,
        result->Ok_0@ == summary_at(Domain::Xpath, xpath_data@, timestamp as int),
{
    let processed_data: String = parse_xpath_request(xpath_data);
    let enriched_data: String = enrich_xpath_context(processed_data, timestamp);
    let final_data: String = prepare_xpath_execution(enriched_data);
    Ok(run_xpath_operations(final_data.as_str()))
}

/// Parse stage of the engine.
pub fn parse_xpath_request(xpath_data: String) -> (processed: String)
    ensures
        processed@ == parsed(Domain::Xpath, xpath_data@),
{
    parse_request(Domain::Xpath, xpath_data)
}

/// Enrich stage of the engine, with `timestamp` as the reading of the clock.
pub fn enrich_xpath_context(processed_data: String, timestamp: i64) -> (enriched_data: String)
    ensures
        enriched_data@ == enriched(Domain::Xpath, processed_data@, timestamp as int),
{
    enrich_context(Domain::Xpath, processed_data, timestamp)
}

/// Prepare stage of the engine.
pub fn prepare_xpath_execution(enriched_data: String) -> (finalized: String)
    ensures
        finalized@ == prepared(Domain::Xpath, enriched_data@),
{
    prepare_execution(Domain::Xpath, enriched_data)
}

/// Reports the engine's operations on the annotated request `data`, in their fixed order, and
/// joins their status lines. What an operation does here beyond its report is said at its own
/// function.
pub fn run_xpath_operations(data: &str) -> (text: String)
    ensures
        text@ == summary(Domain::Xpath, data@),
{
    let mut statuses: Vec<String> = Vec::new();
    statuses.push(execute_sxd_xpath_build(data));
    statuses.push(execute_libxml_evaluate(data));
    let text: String = compose_summary(Domain::Xpath, &statuses);
    assert(views(statuses@) =~= status_lines(Domain::Xpath.operation_labels(), data@));
    text
}

/// Compiles the request as an XPath expression, drops the outcome, and reports it.
pub fn execute_sxd_xpath_build(data: &str) -> (status: String)
    ensures
        status@ == status_line("SXD XPath build operation"@, data@),
{
    compile_xpath(data);
    operation_status("SXD XPath build operation", data)
}

/// Reports the evaluation of the request against an empty document. The evaluation itself is the caller's to do.
pub fn execute_libxml_evaluate(data: &str) -> (status: String)
    ensures
        status@ == status_line("LibXML evaluate operation"@, data@),
{
    operation_status("LibXML evaluate operation", data)
}

} // verus!
