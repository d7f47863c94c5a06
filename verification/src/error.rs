use vstd::prelude::*;

verus! {

/// Why a call into this library was turned down.
#[derive(Clone, Copy, Debug, PartialEq, Eq, Structural)]
pub enum RpcError {
    /// A text holds a zero byte, so no null-terminated buffer can carry it.
    InvalidText,
    /// A timestamp does not fit the signed 64-bit seconds of the wire struct.
    TimestampOutOfRange,
    /// The session behind the handle has been shut down.
    SessionClosed,
}

impl RpcError {
    /// A short description of the error.
    pub fn message(&self) -> (text: &'static str)
        ensures
            text@ == match *self {
                RpcError::InvalidText => "text contains a null byte"@,
                RpcError::TimestampOutOfRange => "timestamp does not fit the wire struct"@,
                RpcError::SessionClosed => "session is closed"@,
            },
    {
        match self {
            RpcError::InvalidText => "text contains a null byte",
            RpcError::TimestampOutOfRange => "timestamp does not fit the wire struct",
            RpcError::SessionClosed => "session is closed",
        }
    }
}

} // verus!
