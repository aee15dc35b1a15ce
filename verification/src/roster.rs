//! The roster index: from a peer's dialog id to the participant it stands for.
//!
//! Every participant is entered twice, once under the identity of the
//! one-to-one conversation and once under that of the group conversation, so
//! that a lookup succeeds whichever way a message arrived. Where two entries
//! claim one key, the one declared later holds it.

use std::collections::HashMap;
use vstd::prelude::*;
use grammers_session::defs::PeerId;
use crate::peer::{dialog_id, direct_key, group_key, is_chat_id, is_user_id, MAX_CHAT_ID};
use crate::schema::{Config, TrackedUser, TrackedUserView};

verus! {

/// Both identities of the participant can be built.
pub open spec fn addressable(user: TrackedUserView) -> bool {
    is_user_id(user.id) && is_chat_id(user.id)
}

/// Both identities of every participant can be built.
pub open spec fn roster_addressable(users: Seq<TrackedUserView>) -> bool {
    forall|i: int| 0 <= i < users.len() ==> addressable(#[trigger] users[i])
}

/// `key` is one of the two dialog ids of `user`.
pub open spec fn addresses(user: TrackedUserView, key: i64) -> bool {
    key == direct_key(user.id) || key == group_key(user.id)
}

/// The position of the last entry that `key` addresses, or -1 where none does.
pub open spec fn last_addressed(users: Seq<TrackedUserView>, key: i64) -> int
    decreases users.len(),
{
    if users.len() == 0 {
        -1
    } else if addresses(users.last(), key) {
        users.len() - 1
    } else {
        last_addressed(users.drop_last(), key)
    }
}

/// The index of a roster: each key that some entry is addressed by, mapped to
/// the last such entry.
pub open spec fn roster_index(users: Seq<TrackedUserView>) -> Map<i64, TrackedUserView> {
    Map::new(
        |key: i64| last_addressed(users, key) >= 0,
        |key: i64| users[last_addressed(users, key)],
    )
}

/// What an index holds, record by record.
pub open spec fn index_view(index: Map<i64, TrackedUser>) -> Map<i64, TrackedUserView> {
    Map::new(|key: i64| index.contains_key(key), |key: i64| index[key]@)
}

/// `last_addressed` names an entry that the key addresses, and no later entry
/// is addressed by it.
pub proof fn lemma_last_addressed(users: Seq<TrackedUserView>, key: i64)
    ensures
        -1 <= last_addressed(users, key) < users.len(),
        last_addressed(users, key) >= 0 ==> addresses(users[last_addressed(users, key)], key),
        forall|j: int|
            last_addressed(users, key) < j < users.len() ==> !addresses(#[trigger] users[j], key),
    decreases users.len(),
{
    if users.len() > 0 && !addresses(users.last(), key) {
        let front = users.drop_last();
        lemma_last_addressed(front, key);
        assert forall|j: int| last_addressed(users, key) < j < users.len() implies !addresses(
            #[trigger] users[j],
            key,
        ) by {
            if j < front.len() {
                assert(users[j] == front[j]);
            }
        }
    }
}

/// Appending an entry enters it under its two keys and leaves the rest of the
/// index as it was.
pub proof fn lemma_roster_index_push(users: Seq<TrackedUserView>, user: TrackedUserView)
    ensures
        roster_index(users.push(user)) == roster_index(users).insert(
            direct_key(user.id),
            user,
        ).insert(group_key(user.id), user),
{
    let longer = users.push(user);
    assert(longer.drop_last() == users);
    assert forall|key: i64| !addresses(user, key) implies last_addressed(longer, key)
        == last_addressed(users, key) && (last_addressed(users, key) >= 0 ==> longer[last_addressed(
        longer,
        key,
    )] == users[last_addressed(users, key)]) by {
        lemma_last_addressed(users, key);
    }
    assert(roster_index(longer) =~= roster_index(users).insert(direct_key(user.id), user).insert(
        group_key(user.id),
        user,
    ));
}

/// Every participant is found under both of its keys, and under each of them
/// stands the participant itself unless a later entry carries the same id.
pub proof fn lemma_index_holds_both_keys(users: Seq<TrackedUserView>, i: int)
    requires
        roster_addressable(users),
        0 <= i < users.len(),
    ensures
        roster_index(users).contains_key(direct_key(users[i].id)),
        roster_index(users).contains_key(group_key(users[i].id)),
        (forall|j: int| i < j < users.len() ==> (#[trigger] users[j]).id != users[i].id) ==> {
            &&& roster_index(users)[direct_key(users[i].id)] == users[i]
            &&& roster_index(users)[group_key(users[i].id)] == users[i]
        },
{
    lemma_last_addressed(users, direct_key(users[i].id));
    lemma_last_addressed(users, group_key(users[i].id));
}

/// Where two entries carry the same id, both keys lead to the later one,
/// provided that no entry after it carries that id again.
pub proof fn lemma_later_entry_wins(users: Seq<TrackedUserView>, i: int, j: int)
    requires
        roster_addressable(users),
        0 <= i < j < users.len(),
        users[i].id == users[j].id,
        forall|k: int| j < k < users.len() ==> (#[trigger] users[k]).id != users[j].id,
    ensures
        roster_index(users)[direct_key(users[i].id)] == users[j],
        roster_index(users)[group_key(users[i].id)] == users[j],
{
    lemma_index_holds_both_keys(users, j);
}

impl Config {
    /// Builds the roster index.
    ///
    /// Both identities of every participant must be constructible; for a
    /// roster of which that is not known, see [`Config::try_users_map`].
    pub fn users_map(&self) -> (index: HashMap<i64, TrackedUser>)
        requires
            roster_addressable(self@.users),
        ensures
            index_view(index@) == roster_index(self@.users),
    {
        broadcast use vstd::std_specs::hash::group_hash_axioms;

        let mut index: HashMap<i64, TrackedUser> = HashMap::new();
        for i in 0..self.users.len()
            invariant
                roster_addressable(self@.users),
                index_view(index@) == roster_index(self@.users.take(i as int)),
        {
            let user = &self.users[i];
            assert(addressable(self@.users[i as int]));
            let ghost before = index_view(index@);
            index.insert(user.user_id().bot_api_dialog_id(), user.clone());
            index.insert(user.chat_id().bot_api_dialog_id(), user.clone());
            proof {
                let seen = self@.users.take(i as int);
                lemma_roster_index_push(seen, user@);
                assert(seen.push(user@) =~= self@.users.take(i + 1));
                assert(index_view(index@) =~= before.insert(direct_key(user.id), user@).insert(
                    group_key(user.id),
                    user@,
                ));
            }
        }
        assert(self@.users.take(self.users.len() as int) =~= self@.users);
        index
    }

    /// Builds the roster index if both identities of every participant can be
    /// constructed, and reports `None` otherwise.
    pub fn try_users_map(&self) -> (built: Option<HashMap<i64, TrackedUser>>)
        ensures
            match built {
                Some(index) => roster_addressable(self@.users) && index_view(index@)
                    == roster_index(self@.users),
                None => !roster_addressable(self@.users),
            },
    {
        for i in 0..self.users.len()
            invariant
                forall|j: int| 0 <= j < i ==> addressable(#[trigger] self@.users[j]),
        {
            let id: i64 = self.users[i].id;
            if id < 1 || id > MAX_CHAT_ID {
                assert(!addressable(self@.users[i as int]));
                return None;
            }
        }
        Some(self.users_map())
    }
}

/// The participant that an index holds for a peer identity, if any.
pub fn find_user<'a>(index: &'a HashMap<i64, TrackedUser>, peer: &PeerId) -> (found: Option<
    &'a TrackedUser,
>)
    ensures
        match found {
            Some(user) => index@.contains_key(dialog_id(*peer)) && *user == index@[dialog_id(
                *peer,
            )],
            None => !index@.contains_key(dialog_id(*peer)),
        },
{
    broadcast use vstd::std_specs::hash::group_hash_axioms;

    let key: i64 = peer.bot_api_dialog_id();
    index.get(&key)
}

} // verus!
