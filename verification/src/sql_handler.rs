//! The stream handler of the Sql engine: takes an SQL statement as it was received,
//! runs the engine on it and words the answer.

use vstd::prelude::*;
use crate::sql_engine::handle_sql_operations;
use crate::pipeline::Domain;
use crate::report::{stream_answer, stream_response};

verus! {

/// The statement that stands in where nothing was received.
pub open spec fn default_statement() -> Seq<char> {
    "SELECT * FROM users WHERE id = 1; DROP TABLE users; --"@
}

/// The statement that the handler runs: what was received, or the default statement.
pub open spec fn statement(received: Option<String>) -> Seq<char> {
    match received {
        Some(text) => text@,
        None => default_statement(),
    }
}

/// Runs the engine on the received statement, or on the default statement where nothing was
/// received, with `timestamp` as the reading of the clock, and words the answer.
pub fn process_sql_stream(received: Option<String>, timestamp: i64) -> (response: Result<
    String,
    String,
>)
    ensures
        response is Ok,
        response->Ok_0@ == stream_answer(Domain::Sql, statement(received), timestamp as int),
{
    let sql_data: String = match received {
        Some(text) => text,
        None => String::from_str("SELECT * FROM users WHERE id = 1; DROP TABLE users; --"),
    };
    stream_response(Domain::Sql, handle_sql_operations(sql_data, timestamp))
}

} // verus!
