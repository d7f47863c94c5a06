//! A boundary-safety layer between a callback-driven native presence SDK and
//! an application: text and presence marshaling, event decoding and single
//! dispatch to a handler, the one-shot answer to a join request, and the
//! lifecycle of the session handle.
//!
//! The library never touches a pointer. It plans each native call as a plain
//! value ([`NativeCall`]) that the caller performs, and it reads what the
//! native layer hands back as byte buffers.

pub mod error;
pub mod text;
pub mod discord_user;
pub mod presence;
pub mod native;
pub mod event_handlers;
pub mod event_wrappers;
pub mod rpc;

pub use discord_user::DiscordUser;
pub use error::RpcError;
pub use event_handlers::{EventHandlers, JoinRequest, JoinResponse, Responder};
pub use event_wrappers::NativeEvent;
pub use native::{NativeCall, NativePresence, NativeUser};
pub use presence::RichPresence;
pub use rpc::RPC;
