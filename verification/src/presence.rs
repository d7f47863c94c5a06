use vstd::prelude::*;
use vstd::utf8::*;
use crate::error::RpcError;
use crate::native::NativePresence;
use crate::text::{has_nul, to_wire, wire_text};

verus! {

/// The publishable state of the local user's activity. A field that is
/// `None` is left out of what is shown.
#[derive(Clone, Debug, PartialEq, Eq)]
pub struct RichPresence {
    /// The user's current party status. Maximum of 128 bytes.
    pub state: Option<String>,
    /// What the player is currently doing. Maximum of 128 bytes.
    pub details: Option<String>,
    /// Time of game start, in seconds since the Unix epoch. Shown as "elapsed".
    pub start_time: Option<u64>,
    /// Time of game end, in seconds since the Unix epoch. Shown as "remaining".
    pub end_time: Option<u64>,
    /// Name of the uploaded image for the large profile artwork. Maximum of 32 bytes.
    pub large_image_key: Option<String>,
    /// Tooltip for the large image. Maximum of 128 bytes.
    pub large_image_text: Option<String>,
    /// Name of the uploaded image for the small profile artwork. Maximum of 32 bytes.
    pub small_image_key: Option<String>,
    /// Tooltip for the small image. Maximum of 128 bytes.
    pub small_image_text: Option<String>,
    /// ID of the player's party, lobby, or group. Maximum of 128 bytes.
    pub party_id: Option<String>,
    /// Current size of the player's party, lobby, or group.
    pub party_size: Option<u32>,
    /// Maximum size of the player's party, lobby, or group.
    pub party_max: Option<u32>,
    /// Unique hashed string for the Spectate button. Maximum of 128 bytes.
    pub spectate_secret: Option<String>,
    /// Unique hashed string for chat invitations and Ask to Join. Maximum of 128 bytes.
    pub join_secret: Option<String>,
}

/// A text that is set and holds a zero byte.
pub open spec fn text_rejected(text: Option<String>) -> bool {
    text matches Some(s) && has_nul(encode_utf8(s@))
}

/// `buffer` is the wire form of `text`: the null sentinel for an absent text,
/// its null-terminated bytes for one that is set.
pub open spec fn carries(buffer: Option<Vec<u8>>, text: Option<String>) -> bool {
    match text {
        None => buffer is None,
        Some(s) => buffer matches Some(b) && b@ == wire_text(s@),
    }
}

/// A time that is set and lies beyond the signed 64-bit seconds of the wire.
pub open spec fn time_rejected(time: Option<u64>) -> bool {
    time matches Some(secs) && secs > i64::MAX
}

/// The wire form of a time: zero where it is absent, else its epoch seconds.
pub open spec fn wire_time(time: Option<u64>) -> int {
    match time {
        None => 0,
        Some(secs) => secs as int,
    }
}

/// The wire form of a party size: zero where it is absent, else the signed
/// 32-bit integer with the same bits.
pub open spec fn wire_size(size: Option<u32>) -> int {
    match size {
        None => 0,
        Some(n) => if n <= i32::MAX {
            n as int
        } else {
            n - 0x1_0000_0000
        },
    }
}

/// The wire form of an optional text.
pub fn to_wire_opt(text: &Option<String>) -> (r: Result<Option<Vec<u8>>, RpcError>)
    ensures
        text_rejected(*text) ==> r == Err::<Option<Vec<u8>>, RpcError>(RpcError::InvalidText),
        !text_rejected(*text) ==> r is Ok && carries(r->Ok_0, *text),
{
    match text {
        None => Ok(None),
        Some(s) => match to_wire(s.as_str()) {
            Ok(buffer) => Ok(Some(buffer)),
            Err(e) => Err(e),
        },
    }
}

/// The wire form of an optional time, or `None` where it does not fit.
pub fn to_wire_time(time: Option<u64>) -> (r: Option<i64>)
    ensures
        time_rejected(time) <==> r is None,
        r matches Some(secs) ==> secs == wire_time(time),
{
    match time {
        None => Some(0),
        Some(secs) => if secs > 0x7fff_ffff_ffff_ffff {
            None
        } else {
            Some(secs as i64)
        },
    }
}

/// The wire form of an optional party size.
pub fn to_wire_size(size: Option<u32>) -> (n: i32)
    ensures
        n == wire_size(size),
{
    match size {
        None => 0,
        Some(s) => if s <= 0x7fff_ffff {
            s as i32
        } else {
            let low: i32 = (s - 0x8000_0000) as i32;
            low - 0x7fff_ffff - 1
        },
    }
}

impl RichPresence {
    /// Some text field holds a zero byte.
    pub open spec fn has_invalid_text(&self) -> bool {
        ||| text_rejected(self.state)
        ||| text_rejected(self.details)
        ||| text_rejected(self.large_image_key)
        ||| text_rejected(self.large_image_text)
        ||| text_rejected(self.small_image_key)
        ||| text_rejected(self.small_image_text)
        ||| text_rejected(self.party_id)
        ||| text_rejected(self.join_secret)
        ||| text_rejected(self.spectate_secret)
    }

    /// Some timestamp does not fit the wire struct.
    pub open spec fn has_invalid_time(&self) -> bool {
        time_rejected(self.start_time) || time_rejected(self.end_time)
    }

    /// No field is set.
    pub open spec fn is_empty(&self) -> bool {
        &&& self.state is None
        &&& self.details is None
        &&& self.start_time is None
        &&& self.end_time is None
        &&& self.large_image_key is None
        &&& self.large_image_text is None
        &&& self.small_image_key is None
        &&& self.small_image_text is None
        &&& self.party_id is None
        &&& self.party_size is None
        &&& self.party_max is None
        &&& self.spectate_secret is None
        &&& self.join_secret is None
    }

    /// `native` is the wire struct of this presence, field by field. The
    /// match secret and the instance flag are never set.
    pub open spec fn marshals_to(&self, native: &NativePresence) -> bool {
        &&& carries(native.state, self.state)
        &&& carries(native.details, self.details)
        &&& native.start_timestamp == wire_time(self.start_time)
        &&& native.end_timestamp == wire_time(self.end_time)
        &&& carries(native.large_image_key, self.large_image_key)
        &&& carries(native.large_image_text, self.large_image_text)
        &&& carries(native.small_image_key, self.small_image_key)
        &&& carries(native.small_image_text, self.small_image_text)
        &&& carries(native.party_id, self.party_id)
        &&& native.party_size == wire_size(self.party_size)
        &&& native.party_max == wire_size(self.party_max)
        &&& native.match_secret is None
        &&& carries(native.join_secret, self.join_secret)
        &&& carries(native.spectate_secret, self.spectate_secret)
        &&& native.instance == 0
    }

    /// What marshaling this presence gives: `InvalidText` where a text holds
    /// a zero byte; else `TimestampOutOfRange` where a time does not fit;
    /// else the wire struct.
    pub open spec fn marshaled(&self, r: Result<NativePresence, RpcError>) -> bool {
        if self.has_invalid_text() {
            r == Err::<NativePresence, RpcError>(RpcError::InvalidText)
        } else if self.has_invalid_time() {
            r == Err::<NativePresence, RpcError>(RpcError::TimestampOutOfRange)
        } else {
            r matches Ok(native) && self.marshals_to(&native)
        }
    }

    /// Marshals the presence into its wire struct. Nothing is produced
    /// unless every field can be carried.
    pub fn to_native(&self) -> (r: Result<NativePresence, RpcError>)
        ensures
            self.marshaled(r),
    {
        let state = match to_wire_opt(&self.state) {
            Ok(b) => b,
            Err(e) => return Err(e),
        };
        let details = match to_wire_opt(&self.details) {
            Ok(b) => b,
            Err(e) => return Err(e),
        };
        let large_image_key = match to_wire_opt(&self.large_image_key) {
            Ok(b) => b,
            Err(e) => return Err(e),
        };
        let large_image_text = match to_wire_opt(&self.large_image_text) {
            Ok(b) => b,
            Err(e) => return Err(e),
        };
        let small_image_key = match to_wire_opt(&self.small_image_key) {
            Ok(b) => b,
            Err(e) => return Err(e),
        };
        let small_image_text = match to_wire_opt(&self.small_image_text) {
            Ok(b) => b,
            Err(e) => return Err(e),
        };
        let party_id = match to_wire_opt(&self.party_id) {
            Ok(b) => b,
            Err(e) => return Err(e),
        };
        let join_secret = match to_wire_opt(&self.join_secret) {
            Ok(b) => b,
            Err(e) => return Err(e),
        };
        let spectate_secret = match to_wire_opt(&self.spectate_secret) {
            Ok(b) => b,
            Err(e) => return Err(e),
        };
        let start_timestamp = match to_wire_time(self.start_time) {
            Some(secs) => secs,
            None => return Err(RpcError::TimestampOutOfRange),
        };
        let end_timestamp = match to_wire_time(self.end_time) {
            Some(secs) => secs,
            None => return Err(RpcError::TimestampOutOfRange),
        };
        Ok(
            NativePresence {
                state,
                details,
                start_timestamp,
                end_timestamp,
                large_image_key,
                large_image_text,
                small_image_key,
                small_image_text,
                party_id,
                party_size: to_wire_size(self.party_size),
                party_max: to_wire_size(self.party_max),
                match_secret: None,
                join_secret,
                spectate_secret,
                instance: 0,
            },
        )
    }
}

impl Default for RichPresence {
    fn default() -> (presence: RichPresence)
        ensures
            presence.is_empty(),
    {
        RichPresence {
            state: None,
            details: None,
            start_time: None,
            end_time: None,
            large_image_key: None,
            large_image_text: None,
            small_image_key: None,
            small_image_text: None,
            party_id: None,
            party_size: None,
            party_max: None,
            spectate_secret: None,
            join_secret: None,
        }
    }
}

/// Whether every text of a wire struct is the null sentinel and every number
/// its zero sentinel.
pub open spec fn is_blank(native: &NativePresence) -> bool {
    &&& native.state is None
    &&& native.details is None
    &&& native.start_timestamp == 0
    &&& native.end_timestamp == 0
    &&& native.large_image_key is None
    &&& native.large_image_text is None
    &&& native.small_image_key is None
    &&& native.small_image_text is None
    &&& native.party_id is None
    &&& native.party_size == 0
    &&& native.party_max == 0
    &&& native.match_secret is None
    &&& native.join_secret is None
    &&& native.spectate_secret is None
    &&& native.instance == 0
}

/// A text that holds a zero byte anywhere in a presence makes marshaling
/// fail with `InvalidText`: no wire struct comes out.
pub proof fn lemma_nul_text_rejected(presence: &RichPresence, r: Result<NativePresence, RpcError>)
    requires
        presence.has_invalid_text(),
        presence.marshaled(r),
    ensures
        r == Err::<NativePresence, RpcError>(RpcError::InvalidText),
{
}

/// Absence is preserved: a presence with no field set marshals, and every
/// field of its wire struct is the null or zero sentinel.
pub proof fn lemma_empty_presence_is_blank(
    presence: &RichPresence,
    r: Result<NativePresence, RpcError>,
)
    requires
        presence.is_empty(),
        presence.marshaled(r),
    ensures
        r is Ok,
        is_blank(&r->Ok_0),
{
}

} // verus!
