//! The plain values that cross the native boundary: what the native layer
//! hands over, and the calls that the library plans for it.

use vstd::prelude::*;

verus! {

/// The native layer's code for declining a join request.
pub const REPLY_NO: i32 = 0;

/// The native layer's code for accepting a join request.
pub const REPLY_YES: i32 = 1;

/// The native layer's code for ignoring a join request.
pub const REPLY_IGNORE: i32 = 2;

/// A user as the native layer hands it over: four text buffers, each read up
/// to its terminator.
#[derive(Clone, Debug, PartialEq, Eq)]
pub struct NativeUser {
    pub user_id: Vec<u8>,
    pub username: Vec<u8>,
    pub discriminator: Vec<u8>,
    pub avatar: Vec<u8>,
}

/// The wire struct of a presence. A text that is not set is `None`, the null
/// pointer of the native convention; a number that is not set is zero. Every
/// buffer ends in its terminator.
#[derive(Clone, Debug, PartialEq, Eq)]
pub struct NativePresence {
    pub state: Option<Vec<u8>>,
    pub details: Option<Vec<u8>>,
    pub start_timestamp: i64,
    pub end_timestamp: i64,
    pub large_image_key: Option<Vec<u8>>,
    pub large_image_text: Option<Vec<u8>>,
    pub small_image_key: Option<Vec<u8>>,
    pub small_image_text: Option<Vec<u8>>,
    pub party_id: Option<Vec<u8>>,
    pub party_size: i32,
    pub party_max: i32,
    pub match_secret: Option<Vec<u8>>,
    pub join_secret: Option<Vec<u8>>,
    pub spectate_secret: Option<Vec<u8>>,
    pub instance: i8,
}

/// One call into the native layer, planned by the library and performed by
/// whoever holds the native session.
#[derive(Clone, Debug, PartialEq, Eq)]
pub enum NativeCall {
    /// Open the session.
    Initialize { application_id: Vec<u8>, auto_register: i32, steam_id: Option<Vec<u8>> },
    /// Publish a presence.
    UpdatePresence(NativePresence),
    /// Publish "no presence".
    ClearPresence,
    /// Let the native layer deliver its pending events.
    RunCallbacks,
    /// Close the session.
    Shutdown,
    /// Answer the join request of the user with this id buffer.
    Respond { user_id: Vec<u8>, reply: i32 },
}

} // verus!
