//! All per-user state of the bot in one value.

use crate::ai::new_conversation;
use crate::conversation::{handed_out, ConversationStore};
use crate::session::{sessions_valid, Session, SessionTracker, UserId};
use chatgpt::client::ChatGPT;
use chatgpt::converse::Conversation;
use vstd::prelude::*;

verus! {

/// The bot's whole per-user state: each user's conversation with the AI and
/// each user's running session. Commands go through one value of it.
pub struct CommandHandler {
    pub client: ChatGPT,
    pub conversations: ConversationStore<Conversation>,
    pub sessions: SessionTracker,
}

impl CommandHandler {
    /// A handler with no conversations and no sessions, that starts
    /// conversations through `client`.
    pub fn new(client: ChatGPT) -> (r: Self)
        ensures
            r.client == client,
            r.conversations@ == Map::<UserId, Conversation>::empty(),
            r.sessions@ == Map::<UserId, Session>::empty(),
            sessions_valid(r.sessions@),
    {
        CommandHandler {
            client,
            conversations: ConversationStore::new(),
            sessions: SessionTracker::new(),
        }
    }

    /// `user`'s conversation, started through this handler's client on the
    /// user's first message. Sessions are left as they are.
    pub fn conversation(&mut self, user: UserId) -> (r: &mut Conversation)
        ensures
            handed_out(old(self).conversations@, user, *r, *final(r), final(self).conversations@),
            final(self).sessions@ == old(self).sessions@,
            final(self).client == old(self).client,
    {
        let client = &self.client;
        self.conversations.get_or_create(user, || new_conversation(client))
    }
}

} // verus!
