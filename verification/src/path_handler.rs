//! The stream handler of the Path engine: takes a file system path as it was received,
//! runs the engine on it and words the answer.

use vstd::prelude::*;
use crate::chars::{strip_padding, without_padding};
use crate::path_engine::handle_path_operations;
use crate::pipeline::Domain;
use crate::report::{stream_answer, stream_response};

verus! {

/// Strips the NUL padding from the received text, runs the engine on it with `timestamp` as
/// the reading of the clock, and words the answer.
pub fn process_path_stream(received: String, timestamp: i64) -> (response: Result<String, String>)
    ensures
        response is Ok,
        response->Ok_0@ == stream_answer(Domain::Path, without_padding(received@), timestamp as int),
{
    let path_data: String = strip_padding(received.as_str());
    stream_response(Domain::Path, handle_path_operations(path_data, timestamp))
}

} // verus!
