use chatgpt::client::ChatGPT;
use chatgpt::types::{ChatMessage, Role};
use pomobot::ai::new_conversation;
use pomobot::conversation::ConversationStore;
use pomobot::handler::CommandHandler;

#[test]
fn second_lookup_returns_the_first_handle() {
    let mut store: ConversationStore<u64> = ConversationStore::new();
    let h = store.get_or_create(1, || 7);
    assert_eq!(*h, 7);
    *h = 8;
    let mut made_again = false;
    let h2 = store.get_or_create(1, || {
        made_again = true;
        99
    });
    assert_eq!(*h2, 8);
    assert!(!made_again);
    assert_eq!(store.len(), 1);
}

#[test]
fn each_user_gets_an_own_handle() {
    let mut store: ConversationStore<u64> = ConversationStore::new();
    assert!(!store.contains(1));
    *store.get_or_create(1, || 10) += 1;
    *store.get_or_create(2, || 20) += 1;
    assert!(store.contains(1));
    assert!(store.contains(2));
    assert_eq!(store.len(), 2);
    assert_eq!(*store.get_or_create(1, || 0), 11);
    assert_eq!(*store.get_or_create(2, || 0), 21);
}

fn client() -> ChatGPT {
    ChatGPT::new("not-a-real-key").unwrap()
}

#[test]
fn new_conversation_starts_with_the_system_message() {
    let c = new_conversation(&client());
    assert_eq!(c.history.len(), 1);
    assert!(matches!(c.history[0].role, Role::System));
    assert!(!c.history[0].content.is_empty());
}

#[test]
fn handler_keeps_one_conversation_per_user() {
    let mut h = CommandHandler::new(client());
    assert_eq!(h.conversations.len(), 0);
    h.conversation(5).history.push(ChatMessage {
        role: Role::User,
        content: "hello".to_string(),
    });
    assert_eq!(h.conversation(5).history.len(), 2);
    assert_eq!(h.conversation(6).history.len(), 1);
    assert_eq!(h.conversations.len(), 2);
    assert_eq!(h.sessions.progress(5, 0), None);
}
