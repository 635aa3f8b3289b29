//! The inbound intake pipeline: content-keyed dedup and the status report
//! discipline.

use xmtp_store::models::{
    Envelope, InboundInvite, InboundInviteStatus, InboundMessage, InboundMessageStatus,
};
use xmtp_store::store::MessageStore;

fn envelope(topic: &str, message: Vec<u8>) -> Envelope {
    Envelope { timestamp_ns: 42, content_topic: topic.to_string(), message }
}

#[test]
fn redelivered_invite_envelope_creates_one_row() {
    let mut store = MessageStore::new();
    let first = InboundInvite::from_envelope(envelope("t", vec![1, 2]));
    let second = InboundInvite::from_envelope(envelope("t", vec![1, 2]));
    assert_eq!(first.id, second.id);
    assert!(store.save_inbound_invite(first));
    assert!(!store.save_inbound_invite(second));
    assert_eq!(store.inbound_invites.len(), 1);
}

#[test]
fn redelivered_message_envelope_creates_one_row() {
    let mut store = MessageStore::new();
    let first = InboundMessage::from_envelope(envelope("t", vec![1, 2]));
    let second = InboundMessage::from_envelope(envelope("t", vec![1, 2]));
    assert_eq!(first.id, second.id);
    assert!(store.save_inbound_message(first));
    assert!(!store.save_inbound_message(second));
    assert_eq!(store.inbound_messages.len(), 1);
}

#[test]
fn distinct_envelopes_create_distinct_rows() {
    let mut store = MessageStore::new();
    assert!(store.save_inbound_invite(InboundInvite::from_envelope(envelope("t", vec![1]))));
    assert!(store.save_inbound_invite(InboundInvite::from_envelope(envelope("t", vec![2]))));
    assert!(store.save_inbound_invite(InboundInvite::from_envelope(envelope("u", vec![1]))));
    assert_eq!(store.inbound_invites.len(), 3);
}

#[test]
fn decryption_failure_stays_retriable() {
    let mut store = MessageStore::new();
    let invite = InboundInvite::from_envelope(envelope("t", vec![1]));
    let id = invite.id.clone();
    store.save_inbound_invite(invite);
    assert!(store.set_inbound_invite_status(&id, InboundInviteStatus::DecryptionFailure));
    // The session may appear later: the transient failure can be replaced.
    assert!(store.set_inbound_invite_status(&id, InboundInviteStatus::Processed));
    assert_eq!(store.inbound_invites[0].status, InboundInviteStatus::Processed.to_code());
}

#[test]
fn processed_is_terminal_for_invites() {
    let mut store = MessageStore::new();
    let invite = InboundInvite::from_envelope(envelope("t", vec![1]));
    let id = invite.id.clone();
    store.save_inbound_invite(invite);
    assert!(store.set_inbound_invite_status(&id, InboundInviteStatus::Processed));
    assert!(!store.set_inbound_invite_status(&id, InboundInviteStatus::DecryptionFailure));
    assert!(!store.set_inbound_invite_status(&id, InboundInviteStatus::Invalid));
    assert_eq!(store.inbound_invites[0].status, InboundInviteStatus::Processed.to_code());
}

#[test]
fn invalid_is_never_retried() {
    let mut store = MessageStore::new();
    let message = InboundMessage::from_envelope(envelope("t", vec![1]));
    let id = message.id.clone();
    store.save_inbound_message(message);
    assert!(store.set_inbound_message_status(&id, InboundMessageStatus::Invalid));
    assert!(!store.set_inbound_message_status(&id, InboundMessageStatus::Processed));
    assert_eq!(store.inbound_messages[0].status, InboundMessageStatus::Invalid.to_code());
}

#[test]
fn a_report_of_pending_is_ignored() {
    let mut store = MessageStore::new();
    let invite = InboundInvite::from_envelope(envelope("t", vec![1]));
    let id = invite.id.clone();
    store.save_inbound_invite(invite);
    assert!(!store.set_inbound_invite_status(&id, InboundInviteStatus::Pending));
    assert_eq!(store.inbound_invites[0].status, InboundInviteStatus::Pending.to_code());
}

#[test]
fn status_report_for_unknown_row_is_a_no_op() {
    let mut store = MessageStore::new();
    assert!(!store.set_inbound_invite_status("missing", InboundInviteStatus::Processed));
    assert!(!store.set_inbound_message_status("missing", InboundMessageStatus::Processed));
}

#[test]
fn pending_invites_lists_only_unprocessed_rows() {
    let mut store = MessageStore::new();
    let a = InboundInvite::from_envelope(envelope("t", vec![1]));
    let b = InboundInvite::from_envelope(envelope("t", vec![2]));
    let a_id = a.id.clone();
    store.save_inbound_invite(a);
    store.save_inbound_invite(b);
    assert_eq!(store.get_pending_invites().len(), 2);
    store.set_inbound_invite_status(&a_id, InboundInviteStatus::Processed);
    let pending = store.get_pending_invites();
    assert_eq!(pending.len(), 1);
    assert_eq!(pending[0].payload, vec![2]);
}

#[test]
fn pending_inbound_messages_lists_only_unprocessed_rows() {
    let mut store = MessageStore::new();
    let a = InboundMessage::from_envelope(envelope("t", vec![1]));
    let b = InboundMessage::from_envelope(envelope("t", vec![2]));
    let a_id = a.id.clone();
    store.save_inbound_message(a);
    store.save_inbound_message(b);
    assert_eq!(store.get_pending_inbound_messages().len(), 2);
    store.set_inbound_message_status(&a_id, InboundMessageStatus::Invalid);
    let pending = store.get_pending_inbound_messages();
    assert_eq!(pending.len(), 1);
    assert_eq!(pending[0].payload, vec![2]);
}
