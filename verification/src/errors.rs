//! The error taxonomy: connection errors fatal to establishing a transport,
//! capacity errors the caller may retry after releasing a slot, liveness
//! errors that mark a stale handle, and transport errors carried up verbatim
//! from the OS call that failed.

use vstd::prelude::*;

verus! {

/// One failed OS call, reduced to the status code the OS returned for it.
#[derive(Debug, Clone, Copy, PartialEq, Eq, Structural)]
pub struct OsError {
    /// The OS status code (an HRESULT-shaped value).
    pub code: i32,
}

/// What can go wrong between this client and the bus device.
#[derive(Debug, Clone, Copy, PartialEq, Eq, Structural)]
pub enum BusError {
    /// An OS call on the bus device failed with this status.
    WindowsAPIError(OsError),
    /// A candidate device answered the version check with a mismatch.
    VersionMismatch,
    /// No candidate device accepted the version check.
    BusNotFound,
}

/// What a caller of the client can see fail.
#[derive(Debug, Clone, Copy, PartialEq, Eq, Structural)]
pub enum ClientError {
    /// An OS call failed with this status.
    WindowsAPIError(OsError),
    /// The bus transport failed underneath the client.
    BusError(BusError),
    /// Every slot up to the configured maximum is occupied; the caller may
    /// retry after releasing one.
    NoFreeSlot,
    /// The slot with this serial number is no longer plugged in; the handle
    /// that named it is stale.
    TargetDoesNotExist(u32),
    /// The owning client was dropped, so no target operation can reach the
    /// bus any more.
    ClientNoLongerExists,
}

impl BusError {
    /// Wraps this bus-level failure into the error a client caller sees,
    /// as every layer boundary does on the way up.
    pub fn into_client_error(self) -> (r: ClientError)
        ensures
            r == ClientError::BusError(self),
    {
        ClientError::BusError(self)
    }
}

} // verus!
