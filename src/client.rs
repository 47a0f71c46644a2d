//! The client's own decisions, apart from its threads and its lock.
use vstd::prelude::*;
use vstd::string::StringExecFns;
use crate::error::{ClientError, JoinError};

verus! {

/// Seconds between two heartbeats.
pub const HEARTBEAT_SECS: u64 = 2;

/// The error for a shared sender left poisoned by a panicking holder.
pub fn poisoned_error() -> (r: ClientError)
    ensures
        r matches ClientError::Thread(m) && m@ == "Cannot join as sender mutex has been poisoned"@,
{
    ClientError::Thread(String::from_str("Cannot join as sender mutex has been poisoned"))
}

/// What the client's join reports: the poisoned-lock error where the shared
/// sender could not be had, else the join's own outcome.
pub fn client_join_result(outcome: Option<Result<u32, JoinError>>) -> (r: Result<u32, ClientError>)
    ensures
        match outcome {
            None => r matches Err(ClientError::Thread(m)) && m@
                == "Cannot join as sender mutex has been poisoned"@,
            Some(Ok(n)) => r == Ok::<u32, ClientError>(n),
            Some(Err(e)) => r == Err::<u32, ClientError>(ClientError::Join(e)),
        },
{
    match outcome {
        None => Err(poisoned_error()),
        Some(Ok(n)) => Ok(n),
        Some(Err(e)) => Err(ClientError::from(e)),
    }
}

} // verus!
