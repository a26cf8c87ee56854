//! One AI conversation per user, made on the user's first message.

use crate::session::UserId;
use std::collections::hash_map::Entry;
use std::collections::HashMap;
use vstd::prelude::*;

verus! {

/// What a lookup of `user`'s conversation leaves behind: the handle given out
/// is the stored one whenever the user had one, and afterwards the store maps
/// the user to that handle as its holder left it (`left`), all else unchanged.
pub open spec fn handed_out<C>(
    before: Map<UserId, C>,
    user: UserId,
    handle: C,
    left: C,
    after: Map<UserId, C>,
) -> bool {
    &&& before.contains_key(user) ==> handle == before[user]
    &&& after == before.insert(user, left)
}

/// Asking twice for the same user's conversation gives back, the second time,
/// the very conversation that the first call handed out, as its holder left
/// it; and no second conversation appears: the second call adds no user.
pub proof fn lemma_get_or_create_twice<C>(
    m0: Map<UserId, C>,
    user: UserId,
    h1: C,
    left1: C,
    m1: Map<UserId, C>,
    h2: C,
    left2: C,
    m2: Map<UserId, C>,
)
    requires
        handed_out(m0, user, h1, left1, m1),
        handed_out(m1, user, h2, left2, m2),
    ensures
        h2 == left1,
        m0.contains_key(user) ==> h1 == m0[user],
        m1.dom() == m0.dom().insert(user),
        m2.dom() == m1.dom(),
{
    assert(m2.dom() =~= m1.dom());
}

/// One conversation handle per user, made on the user's first message and
/// kept for the life of the store.
#[verifier::reject_recursive_types(C)]
pub struct ConversationStore<C> {
    conversations: HashMap<UserId, C>,
}

impl<C> View for ConversationStore<C> {
    type V = Map<UserId, C>;

    closed spec fn view(&self) -> Map<UserId, C> {
        self.conversations@
    }
}

impl<C> ConversationStore<C> {
    /// A store with no conversations.
    pub fn new() -> (r: Self)
        ensures
            r@ == Map::<UserId, C>::empty(),
    {
        ConversationStore { conversations: HashMap::new() }
    }

    /// Whether `user` has a conversation.
    pub fn contains(&self, user: UserId) -> (r: bool)
        ensures
            r == self@.contains_key(user),
    {
        self.conversations.contains_key(&user)
    }

    /// The number of users with a conversation.
    pub fn len(&self) -> (r: usize)
        ensures
            r == self@.len(),
    {
        self.conversations.len()
    }

    /// `user`'s conversation; on the user's first use, one made by `make`.
    /// `make` is called only then, so no user ever gets a second one.
    pub fn get_or_create<F: FnOnce() -> C>(&mut self, user: UserId, make: F) -> (r: &mut C)
        requires
            make.requires(()),
        ensures
            handed_out(old(self)@, user, *r, *final(r), final(self)@),
            !old(self)@.contains_key(user) ==> make.ensures((), *r),
    {
        match self.conversations.entry(user) {
            Entry::Occupied(e) => e.into_mut(),
            Entry::Vacant(e) => e.insert(make()),
        }
    }
}

} // verus!
