//! The AI client's types and the one call this library makes into it.

use chatgpt::client::ChatGPT;
use chatgpt::converse::Conversation;
use vstd::prelude::*;

verus! {

/// The AI service's client, carried through as an opaque value.
#[verifier::external_type_specification]
#[verifier::external_body]
pub struct ExChatGPT(ChatGPT);

/// A conversation with the AI, which keeps its own message history.
#[verifier::external_type_specification]
#[verifier::external_body]
pub struct ExConversation(Conversation);

/// A new conversation with the AI through `client`.
///
/// Relies on chatgpt's `ChatGPT::new_conversation`, which starts a conversation
/// on a copy of the client with its default opening message, with no network
/// traffic and no way to fail.
#[verifier::external_body]
pub fn new_conversation(client: &ChatGPT) -> Conversation {
    client.new_conversation()
}

} // verus!
