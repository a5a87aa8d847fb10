//! The bridge commands that the front-end invokes, as far as they compute.

use vstd::prelude::*;
use vstd::string::StringExecFns;
use crate::database::{execute_query, QUERY_REJECTION};
use crate::diagnostics::HostEnvironment;

verus! {

/// The greeting for `name`.
pub open spec fn greeting(name: Seq<char>) -> Seq<char> {
    "Hello, "@ + name + "! Welcome to EvolveApp."@
}

/// Greets the user by name.
pub fn greet(name: &str) -> (text: String)
    ensures
        text@ == greeting(name@),
{
    let mut text = String::from_str("Hello, ");
    text.append(name);
    text.append("! Welcome to EvolveApp.");
    text
}

/// The version of the application, as fixed when it was built.
pub fn get_app_version(env: &HostEnvironment) -> (version: String)
    ensures
        version@ == env.app_version@,
{
    env.app_version.clone()
}

/// Answers a request to run SQL locally: always with the fixed rejection,
/// never with a result.
pub fn execute_sql(query: String) -> (outcome: Result<String, String>)
    ensures
        outcome matches Err(message) && message@ == QUERY_REJECTION@,
{
    execute_query(query.as_str())
}

} // verus!
