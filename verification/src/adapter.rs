//! Raw status interpretation: the one policy every typed method applies to
//! the status a native call reports.
//!
//! The distinguished success status becomes a successful outcome; the
//! degraded-but-usable status of the present family becomes a successful
//! outcome with a flag, never an error; every other status becomes an error
//! carrying that status verbatim, with no retry at this layer.

use crate::vk::Status;
use vstd::prelude::*;

verus! {

/// Success exactly on the distinguished success status; any other status
/// comes back verbatim as the error.
pub fn ok_or_status(status: Status) -> (r: Result<(), Status>)
    ensures
        status is Success <==> r is Ok,
        !(status is Success) ==> r == Result::<(), Status>::Err(status),
{
    match status {
        Status::Success => Ok(()),
        _ => Err(status),
    }
}

/// Carries `value` on the distinguished success status; any other status
/// comes back verbatim as the error.
pub fn value_or_status<T>(status: Status, value: T) -> (r: Result<T, Status>)
    ensures
        status is Success ==> r is Ok && r->Ok_0 == value,
        !(status is Success) ==> r is Err && r->Err_0 == status,
{
    match status {
        Status::Success => Ok(value),
        _ => Err(status),
    }
}

/// The present-family policy: plain success carries `value` with the
/// degraded flag false; the degraded-but-usable status is still success,
/// carrying `value` with the flag true; everything else is an error
/// carrying the status verbatim.
pub fn flagged_or_status<T>(status: Status, value: T) -> (r: Result<(T, bool), Status>)
    ensures
        status is Success ==> r is Ok && r->Ok_0 == (value, false),
        status is Suboptimal ==> r is Ok && r->Ok_0 == (value, true),
        !(status is Success) && !(status is Suboptimal) ==> r is Err && r->Err_0 == status,
{
    match status {
        Status::Success => Ok((value, false)),
        Status::Suboptimal => Ok((value, true)),
        _ => Err(status),
    }
}

} // verus!
