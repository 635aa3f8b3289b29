//! Status code round trips, fail-closed decoding, and row constructors.

use xmtp_store::ids::{inbound_id, payload_id};
use xmtp_store::models::{
    ConversationState, Envelope, InboundInvite, InboundInviteStatus, InboundMessage,
    InboundMessageStatus, MessageState, NewStoredAccount, NewStoredMessage, OutboundPayloadState,
    RefreshJobKind, StoredOutboundPayload, StoredSession,
};

#[test]
fn conversation_state_codes_round_trip() {
    assert_eq!(ConversationState::Uninitialized.to_code(), 0);
    assert_eq!(ConversationState::Invited.to_code(), 10);
    assert_eq!(ConversationState::InviteReceived.to_code(), 20);
    for state in [
        ConversationState::Uninitialized,
        ConversationState::Invited,
        ConversationState::InviteReceived,
    ] {
        assert_eq!(ConversationState::from_code(state.to_code()), Some(state));
    }
    assert_eq!(ConversationState::from_code(5), None);
    assert_eq!(ConversationState::from_code(-1), None);
}

#[test]
fn message_state_codes_round_trip() {
    assert_eq!(MessageState::Unprocessed.to_code(), 0);
    assert_eq!(MessageState::LocallyCommitted.to_code(), 10);
    assert_eq!(MessageState::Received.to_code(), 20);
    assert_eq!(MessageState::from_code(10), Some(MessageState::LocallyCommitted));
    assert_eq!(MessageState::from_code(11), None);
}

#[test]
fn outbound_state_codes_round_trip() {
    assert_eq!(OutboundPayloadState::Pending.to_code(), 0);
    assert_eq!(OutboundPayloadState::ServerAcknowledged.to_code(), 10);
    assert_eq!(
        OutboundPayloadState::from_code(10),
        Some(OutboundPayloadState::ServerAcknowledged)
    );
    assert_eq!(OutboundPayloadState::from_code(1), None);
}

#[test]
fn inbound_status_codes_round_trip() {
    assert_eq!(InboundInviteStatus::Pending.to_code(), 0);
    assert_eq!(InboundInviteStatus::Processed.to_code(), 1);
    assert_eq!(InboundInviteStatus::DecryptionFailure.to_code(), 2);
    assert_eq!(InboundInviteStatus::Invalid.to_code(), 3);
    assert_eq!(InboundInviteStatus::from_code(4), None);
    assert_eq!(InboundMessageStatus::Pending.to_code(), 0);
    assert_eq!(InboundMessageStatus::from_code(3), Some(InboundMessageStatus::Invalid));
    assert_eq!(InboundMessageStatus::from_code(-2), None);
}

#[test]
fn refresh_job_kind_labels() {
    assert_eq!(RefreshJobKind::Invite.label(), "invite");
    assert_eq!(RefreshJobKind::Message.label(), "message");
}

#[test]
fn new_stored_message_carries_fields() {
    let m = NewStoredMessage::new(
        "c1".to_string(),
        "0xabc".to_string(),
        vec![1, 2, 3],
        MessageState::Unprocessed.to_code(),
        555,
        999,
    );
    assert_eq!(m.created_at, 999);
    assert_eq!(m.sent_at_ns, 555);
    assert_eq!(m.convo_id, "c1");
    assert_eq!(m.addr_from, "0xabc");
    assert_eq!(m.content, vec![1, 2, 3]);
    assert_eq!(m.state, 0);
}

#[test]
fn outbound_payload_derives_its_id() {
    let p = StoredOutboundPayload::new(1000, "t1".to_string(), vec![9], 0, 0);
    assert_eq!(p.payload_id, payload_id(1000, "t1"));
    assert_eq!(p.created_at_ns, 1000);
    assert_eq!(p.content_topic, "t1");
    assert_eq!(p.payload, vec![9]);
    assert_eq!(p.outbound_payload_state, 0);
    assert_eq!(p.locked_until_ns, 0);
}

#[test]
fn session_constructor_sets_both_timestamps() {
    let s = StoredSession::new(
        "s1".to_string(),
        "inst1".to_string(),
        vec![7, 7],
        "0xabc".to_string(),
        123,
    );
    assert_eq!(s.created_at, 123);
    assert_eq!(s.updated_at, 123);
    assert_eq!(s.session_id, "s1");
    assert_eq!(s.peer_installation_id, "inst1");
    assert_eq!(s.vmac_session_data, vec![7, 7]);
    assert_eq!(s.user_address, "0xabc");
}

#[test]
fn new_account_carries_key_material() {
    let a = NewStoredAccount::new(vec![4, 5, 6], 77);
    assert_eq!(a.created_at, 77);
    assert_eq!(a.serialized_key, vec![4, 5, 6]);
}

#[test]
fn envelope_becomes_pending_invite_keyed_by_content() {
    let envelope = Envelope {
        timestamp_ns: 42,
        content_topic: "invite-topic".to_string(),
        message: vec![1, 2],
    };
    let invite = InboundInvite::from_envelope(envelope);
    assert_eq!(invite.id, inbound_id(&vec![1, 2], "invite-topic"));
    assert_eq!(invite.sent_at_ns, 42);
    assert_eq!(invite.payload, vec![1, 2]);
    assert_eq!(invite.topic, "invite-topic");
    assert_eq!(invite.status, InboundInviteStatus::Pending.to_code());
}

#[test]
fn envelope_becomes_pending_message_keyed_by_content() {
    let envelope = Envelope {
        timestamp_ns: 43,
        content_topic: "msg-topic".to_string(),
        message: vec![3, 4],
    };
    let message = InboundMessage::from_envelope(envelope);
    assert_eq!(message.id, inbound_id(&vec![3, 4], "msg-topic"));
    assert_eq!(message.sent_at_ns, 43);
    assert_eq!(message.status, InboundMessageStatus::Pending.to_code());
}

#[test]
fn message_equality_ignores_store_assigned_id() {
    let m = NewStoredMessage::new(
        "c1".to_string(),
        "0xabc".to_string(),
        vec![1],
        0,
        5,
        6,
    );
    let stored = xmtp_store::models::StoredMessage {
        id: 99,
        created_at: 6,
        sent_at_ns: 5,
        convo_id: "c1".to_string(),
        addr_from: "0xabc".to_string(),
        content: vec![1],
        state: 0,
    };
    assert!(m.matches_stored(&stored));
    // A different store-assigned id still compares equal...
    let renumbered = xmtp_store::models::StoredMessage { id: 7, ..stored.clone() };
    assert!(m.matches_stored(&renumbered));
    // ...but any other field takes part in the comparison, state included.
    let advanced = xmtp_store::models::StoredMessage {
        state: MessageState::Received.to_code(),
        ..stored.clone()
    };
    assert!(!m.matches_stored(&advanced));
    let other = xmtp_store::models::StoredMessage { content: vec![2], ..stored };
    assert!(!m.matches_stored(&other));
}
