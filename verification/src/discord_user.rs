use vstd::prelude::*;
use crate::native::NativeUser;
use crate::text::{ascii_chars, content, decodes_to, from_wire, is_ascii_bytes, lemma_ascii_decodes_exactly};

verus! {

/// The identity of a participant, in owned storage.
#[derive(Clone, Hash, PartialEq, Eq, Debug)]
pub struct DiscordUser {
    pub user_id: String,
    pub username: String,
    pub discriminator: String,
    pub avatar: String,
}

impl DiscordUser {
    /// Each field is the decoded text of the native field of the same name.
    pub open spec fn read_from(&self, native: &NativeUser) -> bool {
        &&& decodes_to(native.user_id@, self.user_id@)
        &&& decodes_to(native.username@, self.username@)
        &&& decodes_to(native.discriminator@, self.discriminator@)
        &&& decodes_to(native.avatar@, self.avatar@)
    }

    /// Copies a native user into owned storage, field by field.
    pub fn from_native(native: &NativeUser) -> (user: DiscordUser)
        ensures
            user.read_from(native),
    {
        DiscordUser {
            user_id: from_wire(native.user_id.as_slice()),
            username: from_wire(native.username.as_slice()),
            discriminator: from_wire(native.discriminator.as_slice()),
            avatar: from_wire(native.avatar.as_slice()),
        }
    }
}

impl Default for DiscordUser {
    fn default() -> (user: DiscordUser)
        ensures
            user.user_id@ == Seq::<char>::empty(),
            user.username@ == Seq::<char>::empty(),
            user.discriminator@ == Seq::<char>::empty(),
            user.avatar@ == Seq::<char>::empty(),
    {
        DiscordUser {
            user_id: String::new(),
            username: String::new(),
            discriminator: String::new(),
            avatar: String::new(),
        }
    }
}

/// Whether the text of every field of a native user is ASCII.
pub open spec fn is_ascii_user(native: &NativeUser) -> bool {
    &&& is_ascii_bytes(content(native.user_id@))
    &&& is_ascii_bytes(content(native.username@))
    &&& is_ascii_bytes(content(native.discriminator@))
    &&& is_ascii_bytes(content(native.avatar@))
}

/// A native user whose texts are ASCII is read exactly: every field of the
/// owned user holds the characters of the native field, one for one.
pub proof fn lemma_ascii_user_read_exactly(native: &NativeUser, user: &DiscordUser)
    requires
        is_ascii_user(native),
        user.read_from(native),
    ensures
        user.user_id@ == ascii_chars(content(native.user_id@)),
        user.username@ == ascii_chars(content(native.username@)),
        user.discriminator@ == ascii_chars(content(native.discriminator@)),
        user.avatar@ == ascii_chars(content(native.avatar@)),
{
    lemma_ascii_decodes_exactly(native.user_id@, user.user_id@);
    lemma_ascii_decodes_exactly(native.username@, user.username@);
    lemma_ascii_decodes_exactly(native.discriminator@, user.discriminator@);
    lemma_ascii_decodes_exactly(native.avatar@, user.avatar@);
}

} // verus!
