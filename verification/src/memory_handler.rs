//! The stream handler of the Memory engine: takes bytes for raw memory access as it was received,
//! runs the engine on it and words the answer.

use vstd::prelude::*;
use crate::memory_engine::handle_memory_operations;
use crate::pipeline::Domain;
use crate::report::{stream_answer, stream_response};

verus! {

/// Runs the engine on the received text, with `timestamp` as the reading of the clock, and
/// words the answer.
pub fn process_memory_stream(received: String, timestamp: i64) -> (response: Result<String, String>)
    ensures
        response is Ok,
        response->Ok_0@ == stream_answer(Domain::Memory, received@, timestamp as int),
{
    let memory_data: String = received;
    stream_response(Domain::Memory, handle_memory_operations(memory_data, timestamp))
}

} // verus!
