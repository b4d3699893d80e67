//! The stream handler of the Ldap engine: takes a directory search filter as it was received,
//! runs the engine on it and words the answer.

use vstd::prelude::*;
use crate::ldap_engine::handle_ldap_operations;
use crate::pipeline::Domain;
use crate::report::{stream_answer, stream_response};

verus! {

/// Runs the engine on the received text, with `timestamp` as the reading of the clock, and
/// words the answer.
pub fn process_ldap_stream(received: String, timestamp: i64) -> (response: Result<String, String>)
    ensures
        response is Ok,
        response->Ok_0@ == stream_answer(Domain::Ldap, received@, timestamp as int),
{
    let ldap_data: String = received;
    stream_response(Domain::Ldap, handle_ldap_operations(ldap_data, timestamp))
}

} // verus!
