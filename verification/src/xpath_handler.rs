//! The stream handler of the Xpath engine: takes an XPath expression as it was received,
//! runs the engine on it and words the answer.

use vstd::prelude::*;
use crate::xpath_engine::handle_xpath_operations;
use crate::pipeline::Domain;
use crate::report::{stream_answer, stream_response};

verus! {

/// Runs the engine on the received text, with `timestamp` as the reading of the clock, and
/// words the answer.
pub fn process_xpath_stream(received: String, timestamp: i64) -> (response: Result<String, String>)
    ensures
        response is Ok,
        response->Ok_0@ == stream_answer(Domain::Xpath, received@, timestamp as int),
{
    let xpath_data: String = received;
    stream_response(Domain::Xpath, handle_xpath_operations(xpath_data, timestamp))
}

} // verus!
