//! The data layer of the shell. All data lives behind the remote API, so
//! nothing is stored or queried locally: the functions here say so.

use vstd::prelude::*;
use vstd::string::StringExecFns;

verus! {

/// Base address of the API where the environment names none.
pub const DEFAULT_API_URL: &'static str = "http://localhost:8000";

/// Answer to every local query.
pub const QUERY_REJECTION: &'static str =
    "Local database queries not supported. Use API endpoints instead.";

/// Where the remote API is, and the credential for it.
#[derive(Debug)]
pub struct ApiConfig {
    pub base_url: String,
    pub api_key: Option<String>,
}

/// The base address that a configuration takes from the environment.
pub open spec fn base_url_of(api_url: Option<String>) -> Seq<char> {
    match api_url {
        Some(url) => url@,
        None => DEFAULT_API_URL@,
    }
}

/// Prepares the data layer. There is no local database, so there is nothing
/// to prepare and the call always succeeds.
pub fn initialize_database() -> (outcome: Result<(), String>)
    ensures
        outcome is Ok,
{
    Ok(())
}

/// Builds the API configuration from the two environment values: `api_url`
/// is the value of `API_URL` and `api_key` that of `API_KEY`, each `None`
/// where the variable is not set. A missing address becomes the local
/// default; the key is kept as it is.
pub fn get_api_config(api_url: Option<String>, api_key: Option<String>) -> (config: ApiConfig)
    ensures
        config.base_url@ == base_url_of(api_url),
        config.api_key == api_key,
{
    let base_url = match api_url {
        Some(url) => url,
        None => String::from_str(DEFAULT_API_URL),
    };
    ApiConfig { base_url, api_key }
}

/// Tells whether the API counts as reachable. No request is made from here:
/// the answer is always `Ok(true)`, whatever the configuration.
pub fn check_api_connection(config: &ApiConfig) -> (outcome: Result<bool, String>)
    ensures
        outcome == Ok::<bool, String>(true),
{
    Ok(true)
}

/// Rejects a local query. Every query, the empty one too, gets the same
/// error, which points the caller to the API.
pub fn execute_query(query: &str) -> (outcome: Result<String, String>)
    ensures
        outcome matches Err(message) && message@ == QUERY_REJECTION@,
{
    Err(String::from_str(QUERY_REJECTION))
}

} // verus!
