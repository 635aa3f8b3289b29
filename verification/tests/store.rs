//! Store integrity: primary keys, foreign keys, lifecycle transitions, and
//! the end-to-end write/read scenario.

use xmtp_store::errors::StorageError;
use xmtp_store::models::{
    ConversationState, MessageState, NewStoredMessage, StoredConversation, StoredUser,
};
use xmtp_store::store::MessageStore;

fn user(address: &str) -> StoredUser {
    StoredUser { user_address: address.to_string(), created_at: 1, last_refreshed: 0 }
}

fn conversation(id: &str, peer: &str, state: ConversationState) -> StoredConversation {
    StoredConversation {
        convo_id: id.to_string(),
        peer_address: peer.to_string(),
        created_at: 2,
        convo_state: state.to_code(),
    }
}

#[test]
fn ephemeral_store_write_then_read_back() {
    let mut store = MessageStore::new();
    store.insert_user(user("0xabc")).unwrap();
    store
        .insert_conversation(conversation("c1", "0xabc", ConversationState::Uninitialized))
        .unwrap();
    assert!(store.set_conversation_state(
        "c1",
        ConversationState::Uninitialized,
        ConversationState::Invited
    ));
    let msg = NewStoredMessage::new(
        "c1".to_string(),
        "0xabc".to_string(),
        vec![1, 2, 3],
        MessageState::Unprocessed.to_code(),
        500,
        600,
    );
    let id = store.insert_message(msg).unwrap();
    let rows = store.get_messages("c1");
    assert_eq!(rows.len(), 1);
    assert_eq!(rows[0].state, MessageState::Unprocessed.to_code());
    assert_eq!(rows[0].id, id);
    assert_eq!(rows[0].convo_id, "c1");
    assert_eq!(rows[0].addr_from, "0xabc");
    assert_eq!(rows[0].content, vec![1, 2, 3]);
    let convo = store.get_conversation("c1").unwrap();
    assert_eq!(convo.convo_state, ConversationState::Invited.to_code());
}

#[test]
fn duplicate_user_is_a_result_error() {
    let mut store = MessageStore::new();
    store.insert_user(user("0xabc")).unwrap();
    let r = store.insert_user(user("0xabc"));
    assert!(matches!(r, Err(StorageError::DieselResultError(_))));
    assert_eq!(store.users.len(), 1);
}

#[test]
fn conversation_requires_existing_peer() {
    let mut store = MessageStore::new();
    let r = store.insert_conversation(conversation(
        "c1",
        "0xmissing",
        ConversationState::Uninitialized,
    ));
    assert!(matches!(r, Err(StorageError::DieselResultError(_))));
    assert!(store.get_conversation("c1").is_none());
}

#[test]
fn message_requires_existing_conversation() {
    let mut store = MessageStore::new();
    let msg = NewStoredMessage::new(
        "nope".to_string(),
        "0xabc".to_string(),
        vec![],
        0,
        1,
        2,
    );
    let r = store.insert_message(msg);
    assert!(matches!(r, Err(StorageError::DieselResultError(_))));
}

#[test]
fn message_ids_are_assigned_monotonically() {
    let mut store = MessageStore::new();
    store.insert_user(user("0xabc")).unwrap();
    store
        .insert_conversation(conversation("c1", "0xabc", ConversationState::Uninitialized))
        .unwrap();
    let make = |n: i64| {
        NewStoredMessage::new("c1".to_string(), "0xabc".to_string(), vec![], 0, n, n)
    };
    let id1 = store.insert_message(make(1)).unwrap();
    let id2 = store.insert_message(make(2)).unwrap();
    let id3 = store.insert_message(make(3)).unwrap();
    assert!(id1 < id2 && id2 < id3);
    assert_eq!(store.get_messages("c1").len(), 3);
}

#[test]
fn message_id_exhaustion_is_a_store_error() {
    let mut store = MessageStore::new();
    store.insert_user(user("0xabc")).unwrap();
    store
        .insert_conversation(conversation("c1", "0xabc", ConversationState::Uninitialized))
        .unwrap();
    store.next_message_id = i32::MAX;
    let msg = NewStoredMessage::new("c1".to_string(), "0xabc".to_string(), vec![], 0, 1, 2);
    assert!(matches!(store.insert_message(msg), Err(StorageError::Store(_))));
}

#[test]
fn conversation_transition_requires_expected_prior_state() {
    let mut store = MessageStore::new();
    store.insert_user(user("0xabc")).unwrap();
    store
        .insert_conversation(conversation("c1", "0xabc", ConversationState::Uninitialized))
        .unwrap();
    // A transition that does not start from Uninitialized is never applied.
    assert!(!store.set_conversation_state(
        "c1",
        ConversationState::Invited,
        ConversationState::InviteReceived
    ));
    assert!(store.set_conversation_state(
        "c1",
        ConversationState::Uninitialized,
        ConversationState::InviteReceived
    ));
    // The loser of a race sees the state already moved and is a no-op.
    assert!(!store.set_conversation_state(
        "c1",
        ConversationState::Uninitialized,
        ConversationState::Invited
    ));
    let convo = store.get_conversation("c1").unwrap();
    assert_eq!(convo.convo_state, ConversationState::InviteReceived.to_code());
}

#[test]
fn message_state_never_regresses() {
    let mut store = MessageStore::new();
    store.insert_user(user("0xabc")).unwrap();
    store
        .insert_conversation(conversation("c1", "0xabc", ConversationState::Uninitialized))
        .unwrap();
    let msg = NewStoredMessage::new(
        "c1".to_string(),
        "0xabc".to_string(),
        vec![],
        MessageState::Unprocessed.to_code(),
        1,
        2,
    );
    let id = store.insert_message(msg).unwrap();
    assert!(store.update_message_state(id, MessageState::Unprocessed, MessageState::Received));
    // Nothing moves a Received message back.
    assert!(!store.update_message_state(id, MessageState::Received, MessageState::Unprocessed));
    assert!(!store.update_message_state(id, MessageState::Received, MessageState::LocallyCommitted));
    let rows = store.get_messages("c1");
    assert_eq!(rows[0].state, MessageState::Received.to_code());
}

#[test]
fn message_state_advances_stepwise() {
    let mut store = MessageStore::new();
    store.insert_user(user("0xabc")).unwrap();
    store
        .insert_conversation(conversation("c1", "0xabc", ConversationState::Uninitialized))
        .unwrap();
    let msg = NewStoredMessage::new(
        "c1".to_string(),
        "0xabc".to_string(),
        vec![],
        MessageState::Unprocessed.to_code(),
        1,
        2,
    );
    let id = store.insert_message(msg).unwrap();
    // The loser of a race (wrong expected prior state) is a no-op.
    assert!(!store.update_message_state(id, MessageState::LocallyCommitted, MessageState::Received));
    assert!(store.update_message_state(
        id,
        MessageState::Unprocessed,
        MessageState::LocallyCommitted
    ));
    assert!(store.update_message_state(id, MessageState::LocallyCommitted, MessageState::Received));
    let rows = store.get_messages("c1");
    assert_eq!(rows[0].state, MessageState::Received.to_code());
}

#[test]
fn get_messages_is_scoped_by_conversation() {
    let mut store = MessageStore::new();
    store.insert_user(user("0xabc")).unwrap();
    store
        .insert_conversation(conversation("c1", "0xabc", ConversationState::Uninitialized))
        .unwrap();
    store
        .insert_conversation(conversation("c2", "0xabc", ConversationState::Uninitialized))
        .unwrap();
    let make = |c: &str| {
        NewStoredMessage::new(c.to_string(), "0xabc".to_string(), vec![], 0, 1, 2)
    };
    store.insert_message(make("c1")).unwrap();
    store.insert_message(make("c2")).unwrap();
    store.insert_message(make("c1")).unwrap();
    assert_eq!(store.get_messages("c1").len(), 2);
    assert_eq!(store.get_messages("c2").len(), 1);
    assert_eq!(store.get_messages("c3").len(), 0);
}

#[test]
fn get_user_returns_the_row() {
    let mut store = MessageStore::new();
    store.insert_user(user("0xabc")).unwrap();
    let u = store.get_user("0xabc").unwrap();
    assert_eq!(u.user_address, "0xabc");
    assert!(store.get_user("0xother").is_none());
}
