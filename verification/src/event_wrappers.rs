//! The callback bridge: one entry point per event, each of which decodes the
//! native arguments into owned values and calls one method of the handler.

use vstd::prelude::*;
use crate::discord_user::DiscordUser;
use crate::event_handlers::{is_reply, EventHandlers, JoinRequest, JoinResponse, Responder};
use crate::native::{NativeCall, NativeUser};
use crate::text::{decodes_to, from_wire};

verus! {

/// An event as the native layer delivers it, with its text still in native
/// buffers.
#[derive(Clone, Debug, PartialEq, Eq)]
pub enum NativeEvent {
    Ready(NativeUser),
    Errored { errcode: i32, message: Vec<u8> },
    Disconnected { errcode: i32, message: Vec<u8> },
    JoinGame(Vec<u8>),
    SpectateGame(Vec<u8>),
    JoinRequest(NativeUser),
}

/// Reads the local user into owned storage and runs `ready` on the handler,
/// once, with that user: the handler is left as that one run leaves it.
pub fn ready_wrapper<EH: EventHandlers>(handler: &mut EH, user: &NativeUser)
    ensures
        exists|h: &mut EH, owned: DiscordUser|
            *h == *old(handler) && *final(h) == *final(handler) && owned.read_from(user)
                && #[trigger] call_ensures(EH::ready, (h, owned), ()),
{
    let user = DiscordUser::from_native(user);
    handler.ready(user);
}

/// Decodes the message and runs `disconnected` on the handler, once, with the
/// code and the decoded text: the handler is left as that one run leaves it.
pub fn disconnected_wrapper<EH: EventHandlers>(handler: &mut EH, errcode: i32, message: &[u8])
    ensures
        exists|h: &mut EH, text: &str|
            *h == *old(handler) && *final(h) == *final(handler) && decodes_to(message@, text@)
                && #[trigger] call_ensures(EH::disconnected, (h, errcode, text), ()),
{
    let message = from_wire(message);
    handler.disconnected(errcode, message.as_str());
}

/// Decodes the message and runs `errored` on the handler, once, with the code
/// and the decoded text: the handler is left as that one run leaves it.
pub fn errored_wrapper<EH: EventHandlers>(handler: &mut EH, errcode: i32, message: &[u8])
    ensures
        exists|h: &mut EH, text: &str|
            *h == *old(handler) && *final(h) == *final(handler) && decodes_to(message@, text@)
                && #[trigger] call_ensures(EH::errored, (h, errcode, text), ()),
{
    let message = from_wire(message);
    handler.errored(errcode, message.as_str());
}

/// Decodes the secret and runs `join_game` on the handler, once, with the
/// decoded text: the handler is left as that one run leaves it.
pub fn join_game_wrapper<EH: EventHandlers>(handler: &mut EH, secret: &[u8])
    ensures
        exists|h: &mut EH, text: &str|
            *h == *old(handler) && *final(h) == *final(handler) && decodes_to(secret@, text@)
                && #[trigger] call_ensures(EH::join_game, (h, text), ()),
{
    let secret = from_wire(secret);
    handler.join_game(secret.as_str());
}

/// Decodes the secret and runs `spectate_game` on the handler, once, with the
/// decoded text: the handler is left as that one run leaves it.
pub fn spectate_game_wrapper<EH: EventHandlers>(handler: &mut EH, secret: &[u8])
    ensures
        exists|h: &mut EH, text: &str|
            *h == *old(handler) && *final(h) == *final(handler) && decodes_to(secret@, text@)
                && #[trigger] call_ensures(EH::spectate_game, (h, text), ()),
{
    let secret = from_wire(secret);
    handler.spectate_game(secret.as_str());
}

/// Reads the request into owned storage and runs `join_request` on the
/// handler, once, with that request and a fresh capability; then plans the
/// response call for the answer that this run left in the capability, if it
/// left one. The call carries the id buffer of `user` itself, whatever the
/// handler did.
pub fn join_request_wrapper<EH: EventHandlers>(handler: &mut EH, user: &NativeUser) -> (call:
    Option<NativeCall>)
    ensures
        exists|answer: Option<JoinResponse>| is_reply(call, user.user_id@, answer),
        exists|h: &mut EH, request: JoinRequest, respond: &mut Responder|
            *h == *old(handler) && *final(h) == *final(handler) && request.read_from(user)
                && (*respond)@ is None && is_reply(call, user.user_id@, (*final(respond))@)
                && #[trigger] call_ensures(EH::join_request, (h, request, respond), ()),
{
    let request = JoinRequest::from_native(user);
    let mut responder = Responder::new();
    handler.join_request(request, &mut responder);
    let ghost answer = responder@;
    let call = responder.into_call(&user.user_id);
    assert(is_reply(call, user.user_id@, answer));
    call
}

/// Delivers one event: runs the one method of the handler that belongs to
/// it, once, with the decoded arguments, and leaves the handler as that run
/// leaves it. Only a join request can ask for a native call in return.
pub fn dispatch<EH: EventHandlers>(handler: &mut EH, event: &NativeEvent) -> (call: Option<
    NativeCall,
>)
    ensures
        !(event is JoinRequest) ==> call is None,
        event matches NativeEvent::JoinRequest(user) ==> exists|answer: Option<JoinResponse>|
            is_reply(call, user.user_id@, answer),
        match *event {
            NativeEvent::Ready(user) => exists|h: &mut EH, owned: DiscordUser|
                *h == *old(handler) && *final(h) == *final(handler) && owned.read_from(&user)
                    && #[trigger] call_ensures(EH::ready, (h, owned), ()),
            NativeEvent::Errored { errcode, message } => exists|h: &mut EH, text: &str|
                *h == *old(handler) && *final(h) == *final(handler) && decodes_to(message@, text@)
                    && #[trigger] call_ensures(EH::errored, (h, errcode, text), ()),
            NativeEvent::Disconnected { errcode, message } => exists|h: &mut EH, text: &str|
                *h == *old(handler) && *final(h) == *final(handler) && decodes_to(message@, text@)
                    && #[trigger] call_ensures(EH::disconnected, (h, errcode, text), ()),
            NativeEvent::JoinGame(secret) => exists|h: &mut EH, text: &str|
                *h == *old(handler) && *final(h) == *final(handler) && decodes_to(secret@, text@)
                    && #[trigger] call_ensures(EH::join_game, (h, text), ()),
            NativeEvent::SpectateGame(secret) => exists|h: &mut EH, text: &str|
                *h == *old(handler) && *final(h) == *final(handler) && decodes_to(secret@, text@)
                    && #[trigger] call_ensures(EH::spectate_game, (h, text), ()),
            NativeEvent::JoinRequest(user) => exists|
                h: &mut EH,
                request: JoinRequest,
                respond: &mut Responder,
            |
                *h == *old(handler) && *final(h) == *final(handler) && request.read_from(&user)
                    && (*respond)@ is None && is_reply(call, user.user_id@, (*final(respond))@)
                    && #[trigger] call_ensures(EH::join_request, (h, request, respond), ()),
        },
{
    match event {
        NativeEvent::Ready(user) => {
            ready_wrapper(handler, user);
            None
        },
        NativeEvent::Errored { errcode, message } => {
            errored_wrapper(handler, *errcode, message.as_slice());
            None
        },
        NativeEvent::Disconnected { errcode, message } => {
            disconnected_wrapper(handler, *errcode, message.as_slice());
            None
        },
        NativeEvent::JoinGame(secret) => {
            join_game_wrapper(handler, secret.as_slice());
            None
        },
        NativeEvent::SpectateGame(secret) => {
            spectate_game_wrapper(handler, secret.as_slice());
            None
        },
        NativeEvent::JoinRequest(user) => join_request_wrapper(handler, user),
    }
}

} // verus!
