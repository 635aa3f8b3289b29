//! Accounts, installations, sessions, and refresh job watermarks.

use xmtp_store::contact::Contact;
use xmtp_store::errors::StorageError;
use xmtp_store::models::{
    NewStoredAccount, RefreshJob, RefreshJobKind, StoredInstallation, StoredSession, StoredUser,
};
use xmtp_store::store::MessageStore;

fn user(address: &str) -> StoredUser {
    StoredUser { user_address: address.to_string(), created_at: 1, last_refreshed: 0 }
}

#[test]
fn account_round_trips_with_assigned_id() {
    let mut store = MessageStore::new();
    let id = store.insert_account(NewStoredAccount::new(vec![1, 2], 10)).unwrap();
    let account = store.get_account().unwrap();
    assert_eq!(account.id, id);
    assert_eq!(account.created_at, 10);
    assert_eq!(account.serialized_key, vec![1, 2]);
}

#[test]
fn missing_account_reads_none() {
    let store = MessageStore::new();
    assert!(store.get_account().is_none());
}

#[test]
fn installation_requires_existing_user() {
    let mut store = MessageStore::new();
    let contact = Contact::new("0xabc".to_string(), vec![1]);
    let row = StoredInstallation::new(&contact, 5).unwrap();
    let r = store.insert_installation(row);
    assert!(matches!(r, Err(StorageError::DieselResultError(_))));
}

#[test]
fn reobserved_installation_is_ignored() {
    let mut store = MessageStore::new();
    store.insert_user(user("0xabc")).unwrap();
    let contact = Contact::new("0xabc".to_string(), vec![1]);
    let row1 = StoredInstallation::new(&contact, 5).unwrap();
    let row2 = StoredInstallation::new(&contact, 99).unwrap();
    assert!(store.insert_installation(row1).unwrap());
    assert!(!store.insert_installation(row2).unwrap());
    assert_eq!(store.installations.len(), 1);
    // The row keeps its first sighting.
    assert_eq!(store.installations[0].first_seen_ns, 5);
}

#[test]
fn installations_are_listed_per_user() {
    let mut store = MessageStore::new();
    store.insert_user(user("0xabc")).unwrap();
    store.insert_user(user("0xdef")).unwrap();
    let c1 = Contact::new("0xabc".to_string(), vec![1]);
    let c2 = Contact::new("0xabc".to_string(), vec![2]);
    let c3 = Contact::new("0xdef".to_string(), vec![3]);
    store.insert_installation(StoredInstallation::new(&c1, 1).unwrap()).unwrap();
    store.insert_installation(StoredInstallation::new(&c2, 2).unwrap()).unwrap();
    store.insert_installation(StoredInstallation::new(&c3, 3).unwrap()).unwrap();
    assert_eq!(store.get_installations("0xabc").len(), 2);
    assert_eq!(store.get_installations("0xdef").len(), 1);
}

#[test]
fn session_updates_never_create_a_second_row() {
    let mut store = MessageStore::new();
    store.insert_user(user("0xabc")).unwrap();
    let session = StoredSession::new(
        "s1".to_string(),
        "inst1".to_string(),
        vec![1],
        "0xabc".to_string(),
        100,
    );
    store.save_session(&session, 100).unwrap();
    assert_eq!(store.sessions.len(), 1);
    // Repeated saves of the same session only mutate the one row.
    let mut updated = session;
    for now in [101, 102, 103] {
        updated.vmac_session_data = vec![now as u8];
        store.save_session(&updated, now).unwrap();
        assert_eq!(store.sessions.len(), 1);
        assert_eq!(store.sessions[0].created_at, 100);
        assert_eq!(store.sessions[0].updated_at, now);
        assert_eq!(store.sessions[0].vmac_session_data, vec![now as u8]);
    }
    assert_eq!(store.sessions[0].session_id, "s1");
    assert_eq!(store.sessions[0].user_address, "0xabc");
}

#[test]
fn session_requires_existing_user() {
    let mut store = MessageStore::new();
    let session = StoredSession::new(
        "s1".to_string(),
        "inst1".to_string(),
        vec![1],
        "0xmissing".to_string(),
        100,
    );
    let r = store.save_session(&session, 100);
    assert!(matches!(r, Err(StorageError::DieselResultError(_))));
    assert_eq!(store.sessions.len(), 0);
}

#[test]
fn get_session_returns_the_row() {
    let mut store = MessageStore::new();
    store.insert_user(user("0xabc")).unwrap();
    let session = StoredSession::new(
        "s1".to_string(),
        "inst1".to_string(),
        vec![1, 2],
        "0xabc".to_string(),
        100,
    );
    store.save_session(&session, 100).unwrap();
    let s = store.get_session("s1").unwrap();
    assert_eq!(s.vmac_session_data, vec![1, 2]);
    assert!(store.get_session("s2").is_none());
}

#[test]
fn refresh_job_watermark_is_upserted_per_kind() {
    let mut store = MessageStore::new();
    let invite_key = RefreshJobKind::Invite.label();
    let message_key = RefreshJobKind::Message.label();
    assert!(store.save_refresh_job(RefreshJob { id: invite_key.clone(), last_run: 10 }));
    assert!(store.save_refresh_job(RefreshJob { id: message_key.clone(), last_run: 20 }));
    assert_eq!(store.refresh_jobs.len(), 2);
    assert!(store.save_refresh_job(RefreshJob { id: invite_key.clone(), last_run: 30 }));
    assert_eq!(store.refresh_jobs.len(), 2);
    assert_eq!(store.get_refresh_job(&invite_key).unwrap().last_run, 30);
    assert_eq!(store.get_refresh_job(&message_key).unwrap().last_run, 20);
}

#[test]
fn refresh_job_watermark_never_moves_backwards() {
    let mut store = MessageStore::new();
    let key = RefreshJobKind::Message.label();
    assert!(store.save_refresh_job(RefreshJob { id: key.clone(), last_run: 50 }));
    assert!(!store.save_refresh_job(RefreshJob { id: key.clone(), last_run: 40 }));
    assert_eq!(store.get_refresh_job(&key).unwrap().last_run, 50);
    // An equal watermark may be rewritten.
    assert!(store.save_refresh_job(RefreshJob { id: key.clone(), last_run: 50 }));
}

#[test]
fn missing_refresh_job_reads_none() {
    let store = MessageStore::new();
    assert!(store.get_refresh_job("invite").is_none());
}
