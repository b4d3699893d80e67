//! The stream handler of the Redirect engine: takes a redirect target as it was received,
//! runs the engine on it and words the answer.

use vstd::prelude::*;
use crate::redirect_engine::handle_redirect_operations;
use crate::pipeline::Domain;
use crate::report::{stream_answer, stream_response};

verus! {

/// Runs the engine on the received text, with `timestamp` as the reading of the clock, and
/// words the answer.
pub fn process_redirect_stream(received: String, timestamp: i64) -> (response: Result<String, String>)
    ensures
        response is Ok,
        response->Ok_0@ == stream_answer(Domain::Redirect, received@, timestamp as int),
{
    let redirect_data: String = received;
    stream_response(Domain::Redirect, handle_redirect_operations(redirect_data, timestamp))
}

} // verus!
