//! The stream handler of the Ssrf engine: takes a URL to fetch as it was received,
//! runs the engine on it and words the answer.

use vstd::prelude::*;
use crate::ssrf_engine::handle_ssrf_operations;
use crate::pipeline::Domain;
use crate::report::{stream_answer, stream_response};

verus! {

/// Runs the engine on the received text, with `timestamp` as the reading of the clock, and
/// words the answer.
pub fn process_ssrf_stream(received: String, timestamp: i64) -> (response: Result<String, String>)
    ensures
        response is Ok,
        response->Ok_0@ == stream_answer(Domain::Ssrf, received@, timestamp as int),
{
    let ssrf_data: String = received;
    stream_response(Domain::Ssrf, handle_ssrf_operations(ssrf_data, timestamp))
}

} // verus!
