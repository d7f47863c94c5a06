//! The session handle: which native call each operation asks for, and when.

use vstd::prelude::*;
use vstd::utf8::*;
use crate::error::RpcError;
use crate::native::NativeCall;
use crate::presence::RichPresence;
use crate::text::{has_nul, to_wire, wire_text};

verus! {

/// The handle of the one native session. It is made by `init` alone, and it
/// turns every operation down once it has been shut down.
#[derive(Debug)]
pub struct RPC {
    open: bool,
}

/// An id that is given and holds a zero byte.
pub open spec fn id_rejected(id: Option<&str>) -> bool {
    id matches Some(s) && has_nul(encode_utf8(s@))
}

/// `call` opens a session for these arguments: both ids as null-terminated
/// buffers (the null sentinel for an absent platform id), the flag as 1 or 0.
pub open spec fn opens_with(
    call: NativeCall,
    app_id: &str,
    auto_register: bool,
    steam_id: Option<&str>,
) -> bool {
    call matches NativeCall::Initialize { application_id, auto_register: flag, steam_id: platform }
        && application_id@ == wire_text(app_id@) && flag == (if auto_register {
        1i32
    } else {
        0i32
    }) && match steam_id {
        None => platform is None,
        Some(s) => platform matches Some(b) && b@ == wire_text(s@),
    }
}

/// What an operation without arguments gives on a handle: the call on an
/// open one, `SessionClosed` on a closed one.
pub open spec fn asks_for(open: bool, call: NativeCall, r: Result<NativeCall, RpcError>) -> bool {
    if open {
        r == Ok::<NativeCall, RpcError>(call)
    } else {
        r == Err::<NativeCall, RpcError>(RpcError::SessionClosed)
    }
}

/// What publishing `presence` gives on a handle: `SessionClosed` on a closed
/// one; else the marshaling error, or the call with the wire struct.
pub open spec fn publishes(open: bool, presence: &RichPresence, r: Result<NativeCall, RpcError>) -> bool {
    if !open {
        r == Err::<NativeCall, RpcError>(RpcError::SessionClosed)
    } else if presence.has_invalid_text() {
        r == Err::<NativeCall, RpcError>(RpcError::InvalidText)
    } else if presence.has_invalid_time() {
        r == Err::<NativeCall, RpcError>(RpcError::TimestampOutOfRange)
    } else {
        r matches Ok(NativeCall::UpdatePresence(native)) && presence.marshals_to(&native)
    }
}

impl RPC {
    /// Whether the session has not been shut down.
    pub closed spec fn spec_is_open(&self) -> bool {
        self.open
    }

    /// Whether the session has not been shut down.
    #[verifier::when_used_as_spec(spec_is_open)]
    pub fn is_open(&self) -> (open: bool)
        ensures
            open == self.spec_is_open(),
    {
        self.open
    }

    /// Checks both ids and plans the call that opens the session. A zero
    /// byte in either id gives `InvalidText`, and neither a handle nor a
    /// call.
    pub fn init(app_id: &str, auto_register: bool, steam_id: Option<&str>) -> (r: Result<
        (RPC, NativeCall),
        RpcError,
    >)
        ensures
            r is Err <==> has_nul(encode_utf8(app_id@)) || id_rejected(steam_id),
            r matches Err(e) ==> e == RpcError::InvalidText,
            r matches Ok(pair) ==> pair.0.is_open() && opens_with(
                pair.1,
                app_id,
                auto_register,
                steam_id,
            ),
    {
        let application_id = match to_wire(app_id) {
            Ok(buffer) => buffer,
            Err(e) => return Err(e),
        };
        let platform = match steam_id {
            None => None,
            Some(id) => match to_wire(id) {
                Ok(buffer) => Some(buffer),
                Err(e) => return Err(e),
            },
        };
        let flag: i32 = if auto_register {
            1
        } else {
            0
        };
        Ok(
            (
                RPC { open: true },
                NativeCall::Initialize {
                    application_id,
                    auto_register: flag,
                    steam_id: platform,
                },
            ),
        )
    }

    /// Marshals the presence and plans the call that publishes it.
    pub fn update_presence(&self, presence: RichPresence) -> (r: Result<NativeCall, RpcError>)
        ensures
            publishes(self.is_open(), &presence, r),
    {
        if !self.open {
            return Err(RpcError::SessionClosed);
        }
        match presence.to_native() {
            Ok(native) => Ok(NativeCall::UpdatePresence(native)),
            Err(e) => Err(e),
        }
    }

    /// Plans the call that publishes "no presence".
    pub fn clear_presence(&self) -> (r: Result<NativeCall, RpcError>)
        ensures
            asks_for(self.is_open(), NativeCall::ClearPresence, r),
    {
        if self.open {
            Ok(NativeCall::ClearPresence)
        } else {
            Err(RpcError::SessionClosed)
        }
    }

    /// Plans the call that lets the native layer deliver its pending events.
    pub fn run_callbacks(&self) -> (r: Result<NativeCall, RpcError>)
        ensures
            asks_for(self.is_open(), NativeCall::RunCallbacks, r),
    {
        if self.open {
            Ok(NativeCall::RunCallbacks)
        } else {
            Err(RpcError::SessionClosed)
        }
    }

    /// Closes the handle. The first call plans the call that releases the
    /// native session; every later one plans nothing.
    pub fn shutdown(&mut self) -> (call: Option<NativeCall>)
        ensures
            !final(self).is_open(),
            old(self).is_open() ==> call == Some(NativeCall::Shutdown),
            !old(self).is_open() ==> call is None,
    {
        if self.open {
            self.open = false;
            Some(NativeCall::Shutdown)
        } else {
            None
        }
    }
}

/// A presence with a zero byte in any text is never published: on an open
/// handle the error is `InvalidText`, and on any handle no call is planned.
pub proof fn lemma_nul_text_never_published(
    open: bool,
    presence: &RichPresence,
    r: Result<NativeCall, RpcError>,
)
    requires
        presence.has_invalid_text(),
        publishes(open, presence, r),
    ensures
        r is Err,
        open ==> r == Err::<NativeCall, RpcError>(RpcError::InvalidText),
{
}

/// On a handle that has been shut down every operation is turned down with
/// `SessionClosed`, whatever its arguments, and no native call is planned.
pub proof fn lemma_closed_session_rejects(
    presence: &RichPresence,
    call: NativeCall,
    published: Result<NativeCall, RpcError>,
    asked: Result<NativeCall, RpcError>,
)
    requires
        publishes(false, presence, published),
        asks_for(false, call, asked),
    ensures
        published == Err::<NativeCall, RpcError>(RpcError::SessionClosed),
        asked == Err::<NativeCall, RpcError>(RpcError::SessionClosed),
{
}

} // verus!
