//! What a handler sees: the events, the join request, and the one-shot
//! capability to answer it.

use vstd::prelude::*;
use crate::discord_user::DiscordUser;
use crate::native::{NativeCall, NativeUser, REPLY_IGNORE, REPLY_NO, REPLY_YES};
use crate::text::{decodes_to, from_wire};

verus! {

/// A request of another user to join the local user's game.
#[derive(Clone, Hash, PartialEq, Eq, Debug)]
pub struct JoinRequest {
    pub user_id: String,
    pub username: String,
    pub discriminator: String,
    pub avatar: String,
}

impl JoinRequest {
    /// Each field is the decoded text of the native field of the same name.
    pub open spec fn read_from(&self, native: &NativeUser) -> bool {
        &&& decodes_to(native.user_id@, self.user_id@)
        &&& decodes_to(native.username@, self.username@)
        &&& decodes_to(native.discriminator@, self.discriminator@)
        &&& decodes_to(native.avatar@, self.avatar@)
    }

    /// Copies a native join request into owned storage, field by field.
    pub fn from_native(native: &NativeUser) -> (request: JoinRequest)
        ensures
            request.read_from(native),
    {
        JoinRequest {
            user_id: from_wire(native.user_id.as_slice()),
            username: from_wire(native.username.as_slice()),
            discriminator: from_wire(native.discriminator.as_slice()),
            avatar: from_wire(native.avatar.as_slice()),
        }
    }
}

impl Default for JoinRequest {
    fn default() -> (request: JoinRequest)
        ensures
            request.user_id@ == Seq::<char>::empty(),
            request.username@ == Seq::<char>::empty(),
            request.discriminator@ == Seq::<char>::empty(),
            request.avatar@ == Seq::<char>::empty(),
    {
        JoinRequest {
            user_id: String::new(),
            username: String::new(),
            discriminator: String::new(),
            avatar: String::new(),
        }
    }
}

/// The answer to a join request.
#[derive(Clone, Copy, Debug, PartialEq, Eq, Structural)]
pub enum JoinResponse {
    Accept,
    Decline,
    Ignore,
}

/// The native reply code of an answer.
pub open spec fn reply_code(response: JoinResponse) -> i32 {
    match response {
        JoinResponse::Decline => REPLY_NO,
        JoinResponse::Accept => REPLY_YES,
        JoinResponse::Ignore => REPLY_IGNORE,
    }
}

/// Maps an answer to its native reply code.
pub fn reply_to_native(response: JoinResponse) -> (code: i32)
    ensures
        code == reply_code(response),
{
    match response {
        JoinResponse::Decline => REPLY_NO,
        JoinResponse::Accept => REPLY_YES,
        JoinResponse::Ignore => REPLY_IGNORE,
    }
}

/// The answer that a capability holds after it is asked to record `reply`:
/// the first answer stays, a later one is dropped.
pub open spec fn answer_after(answer: Option<JoinResponse>, reply: JoinResponse) -> Option<
    JoinResponse,
> {
    match answer {
        None => Some(reply),
        Some(first) => Some(first),
    }
}

/// `call` is the native call that answers the request of the user with the
/// id buffer `user_id`: none where no answer was given, else one response
/// call with that very buffer and the answer's code.
pub open spec fn is_reply(
    call: Option<NativeCall>,
    user_id: Seq<u8>,
    answer: Option<JoinResponse>,
) -> bool {
    match answer {
        None => call is None,
        Some(response) => call matches Some(NativeCall::Respond { user_id: id, reply })
            && id@ == user_id && reply == reply_code(response),
    }
}

/// The capability to answer one join request, once. A handler cannot make
/// one: it gets the one that belongs to the request it is handed.
pub struct Responder {
    answer: Option<JoinResponse>,
}

impl View for Responder {
    type V = Option<JoinResponse>;

    /// The answer given so far.
    closed spec fn view(&self) -> Option<JoinResponse> {
        self.answer
    }
}

impl Responder {
    /// A capability that has not been used.
    pub(crate) fn new() -> (responder: Responder)
        ensures
            responder@ is None,
    {
        Responder { answer: None }
    }

    /// Answers the request. Only the first call counts: it returns `true` and
    /// records the answer. Every later call returns `false` and changes
    /// nothing.
    pub fn respond(&mut self, reply: JoinResponse) -> (accepted: bool)
        ensures
            accepted == (old(self)@ is None),
            final(self)@ == answer_after(old(self)@, reply),
    {
        match self.answer {
            None => {
                self.answer = Some(reply);
                true
            },
            Some(_) => false,
        }
    }

    /// The answer given so far.
    pub fn answer(&self) -> (answer: Option<JoinResponse>)
        ensures
            answer == self@,
    {
        self.answer
    }

    /// Uses the capability up and plans the native call for its answer, with
    /// the id buffer of the request it belongs to.
    pub fn into_call(self, user_id: &Vec<u8>) -> (call: Option<NativeCall>)
        ensures
            is_reply(call, user_id@, self@),
    {
        match self.answer {
            None => None,
            Some(response) => Some(
                NativeCall::Respond { user_id: user_id.clone(), reply: reply_to_native(response) },
            ),
        }
    }
}

/// The capability is single-use: once it was asked to answer, it holds an
/// answer, and asking again changes nothing, so at most one response call
/// is ever planned for a request.
pub proof fn lemma_single_use(answer: Option<JoinResponse>, first: JoinResponse, second: JoinResponse)
    ensures
        answer_after(answer, first) is Some,
        answer_after(answer_after(answer, first), second) == answer_after(answer, first),
        answer is None ==> answer_after(answer_after(answer, first), second) == Some(first),
{
}

/// The events that the native layer delivers. Every method does nothing
/// unless the handler says otherwise.
pub trait EventHandlers {
    /// The session is connected; `_user` is the local user.
    fn ready(&mut self, _user: DiscordUser) {
    }

    /// The native layer reports an error.
    fn errored(&mut self, _errcode: i32, _message: &str) {
    }

    /// The session was disconnected.
    fn disconnected(&mut self, _errcode: i32, _message: &str) {
    }

    /// The local user joins a game with this secret.
    fn join_game(&mut self, _secret: &str) {
    }

    /// The local user spectates a game with this secret.
    fn spectate_game(&mut self, _secret: &str) {
    }

    /// Another user asks to join. The handler may answer through `_respond`,
    /// once, before it returns; not to answer is allowed.
    fn join_request(&mut self, _request: JoinRequest, _respond: &mut Responder) {
    }
}

} // verus!
