//! Peer identities: how a participant's numeric id becomes the identity of a
//! one-to-one conversation and of a group conversation.
//!
//! The identities themselves are `grammers_session::defs::PeerId` values. What
//! this crate knows of them it knows through their Bot API dialog id, the
//! integer in which a `PeerId` packs the peer's kind and number.

use vstd::prelude::*;
use grammers_session::defs::PeerId;
use crate::schema::TrackedUser;

verus! {

/// `grammers_session::defs::PeerId`, carried through as an opaque value.
#[verifier::external_type_specification]
#[verifier::external_body]
pub struct ExPeerId(PeerId);

/// The Bot API dialog id of a peer identity: what `PeerId::bot_api_dialog_id`
/// returns for it. A `PeerId` is a wrapper around this one integer, so two
/// identities with the same dialog id are the same identity.
pub uninterp spec fn dialog_id(peer: PeerId) -> i64;

/// `PeerId::user` panics unless the id lies in 1..=0xffffffffff, and otherwise
/// packs the id unchanged: the identity's dialog id is the id itself.
pub assume_specification[ PeerId::user ](id: i64) -> (peer: PeerId)
    requires
        1 <= id <= 0xff_ffff_ffff,
    ensures
        dialog_id(peer) == id,
;

/// `PeerId::chat` panics unless the id lies in 1..=999999999999, and otherwise
/// packs the negated id: the identity's dialog id is minus the id.
pub assume_specification[ PeerId::chat ](id: i64) -> (peer: PeerId)
    requires
        1 <= id <= 999_999_999_999,
    ensures
        dialog_id(peer) == -id,
;

/// `PeerId::bot_api_dialog_id` hands out the packed integer.
pub assume_specification[ PeerId::bot_api_dialog_id ](peer: &PeerId) -> (id: i64)
    ensures
        id == dialog_id(*peer),
;

/// The greatest number that a user or bot account can have.
pub const MAX_USER_ID: i64 = 0xff_ffff_ffff;

/// The greatest number that a small group chat can have.
pub const MAX_CHAT_ID: i64 = 999_999_999_999;

/// The ids that can name a user or bot account.
pub open spec fn is_user_id(id: i64) -> bool {
    1 <= id <= MAX_USER_ID
}

/// The ids that can name a small group chat.
pub open spec fn is_chat_id(id: i64) -> bool {
    1 <= id <= MAX_CHAT_ID
}

/// The dialog id under which participant `id` is found in a one-to-one
/// conversation.
pub open spec fn direct_key(id: i64) -> i64 {
    id
}

/// The dialog id under which participant `id` is found when the same number
/// is read as a group chat.
pub open spec fn group_key(id: i64) -> i64 {
    (-id) as i64
}

/// The two identities of a participant never meet: no key of a one-to-one
/// conversation is the key of a group conversation, whoever the two belong to.
pub proof fn lemma_direct_and_group_keys_differ(user: i64, chat: i64)
    requires
        is_user_id(user),
        is_chat_id(chat),
    ensures
        direct_key(user) != group_key(chat),
{
}

impl TrackedUser {
    /// The participant addressed one-to-one.
    pub fn user_id(&self) -> (peer: PeerId)
        requires
            is_user_id(self.id),
        ensures
            dialog_id(peer) == direct_key(self.id),
    {
        PeerId::user(self.id)
    }

    /// The participant's number read as a group chat.
    pub fn chat_id(&self) -> (peer: PeerId)
        requires
            is_chat_id(self.id),
        ensures
            dialog_id(peer) == group_key(self.id),
    {
        PeerId::chat(self.id)
    }
}

} // verus!
