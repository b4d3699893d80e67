//! The stream handler of the Command engine: takes a command line as it was received,
//! runs the engine on it and words the answer.

use vstd::prelude::*;
use crate::chars::{strip_padding, without_padding};
use crate::command_engine::handle_command_operations;
use crate::pipeline::Domain;
use crate::report::{stream_answer, stream_response};

verus! {

/// Strips the NUL padding from the received text, runs the engine on it with `timestamp` as
/// the reading of the clock, and words the answer.
pub fn process_command_stream(received: String, timestamp: i64) -> (response: Result<String, String>)
    ensures
        response is Ok,
        response->Ok_0@ == stream_answer(Domain::Command, without_padding(received@), timestamp as int),
{
    let command_data: String = strip_padding(received.as_str());
    stream_response(Domain::Command, handle_command_operations(command_data, timestamp))
}

} // verus!
