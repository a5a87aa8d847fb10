//! Synchronisation status. Data reaches the API directly, so no operation
//! ever waits locally.

use vstd::prelude::*;
use crate::database::{check_api_connection, ApiConfig};
use crate::host::utc_timestamp;

verus! {

/// Whether the API is reachable and when that was last looked at.
#[derive(Debug)]
pub struct SyncStatus {
    pub connected: bool,
    pub last_sync: Option<String>,
    pub pending_operations: usize,
}

/// The status for one look at the connection at the moment `now`: nothing
/// is pending, and `now` is the time of the last synchronisation.
pub fn sync_status(connected: bool, now: String) -> (status: SyncStatus)
    ensures
        status.connected == connected,
        status.last_sync == Some(now),
        status.pending_operations == 0,
{
    SyncStatus { connected, last_sync: Some(now), pending_operations: 0 }
}

/// Looks at the connection and reports the status as of now. Where the
/// look itself fails its error is handed on; otherwise the status carries
/// its answer, the present time, and no pending operation.
pub fn get_sync_status(config: &ApiConfig) -> (outcome: Result<SyncStatus, String>)
    ensures
        outcome is Ok,
        outcome matches Ok(status) ==> status.connected && status.last_sync is Some
            && status.pending_operations == 0,
{
    match check_api_connection(config) {
        Ok(connected) => Ok(sync_status(connected, utc_timestamp())),
        Err(error) => Err(error),
    }
}

/// Answers a request to synchronise one module. Modules keep nothing
/// locally, so the answer is the status of the connection, whichever module
/// is named.
pub fn sync_module(module_id: &str, config: &ApiConfig) -> (outcome: Result<SyncStatus, String>)
    ensures
        outcome is Ok,
        outcome matches Ok(status) ==> status.connected && status.last_sync is Some
            && status.pending_operations == 0,
{
    get_sync_status(config)
}

/// Starts background synchronisation. Every operation goes to the API at
/// once, so there is nothing to start and the call always succeeds.
pub fn start_background_sync() -> (outcome: Result<(), String>)
    ensures
        outcome is Ok,
{
    Ok(())
}

} // verus!
