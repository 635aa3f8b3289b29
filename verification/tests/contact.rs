//! Contact serialization round trips and malformed-bytes failures.

use sha2::Digest;
use xmtp_store::contact::Contact;
use xmtp_store::errors::ContactError;
use xmtp_store::models::StoredInstallation;

#[test]
fn contact_round_trips_through_bytes() {
    let contact = Contact::new("0xabc".to_string(), vec![10, 20, 30]);
    let bytes = contact.to_bytes();
    let back = Contact::from_bytes(bytes, "0xabc".to_string()).unwrap();
    assert_eq!(back.wallet_address, "0xabc");
    assert_eq!(back.bundle, vec![10, 20, 30]);
}

#[test]
fn empty_bundle_round_trips() {
    let contact = Contact::new("0xdef".to_string(), vec![]);
    let bytes = contact.to_bytes();
    assert_eq!(bytes, vec![1, 0, 0, 0, 0]);
    let back = Contact::from_bytes(bytes, "0xdef".to_string()).unwrap();
    assert_eq!(back.bundle, Vec::<u8>::new());
}

#[test]
fn truncated_contact_bytes_fail() {
    let r = Contact::from_bytes(vec![1, 0, 0], "0xabc".to_string());
    assert!(matches!(r, Err(ContactError::BadData(_))));
}

#[test]
fn wrong_version_contact_bytes_fail() {
    let r = Contact::from_bytes(vec![2, 0, 0, 0, 0], "0xabc".to_string());
    assert!(matches!(r, Err(ContactError::BadData(_))));
}

#[test]
fn inconsistent_length_contact_bytes_fail() {
    // The length field declares two payload bytes but three follow.
    let r = Contact::from_bytes(vec![1, 0, 0, 0, 2, 9, 9, 9], "0xabc".to_string());
    assert!(matches!(r, Err(ContactError::BadData(_))));
}

#[test]
fn installation_id_is_digest_of_bundle() {
    let contact = Contact::new("0xabc".to_string(), vec![10, 20, 30]);
    let expected = hex::encode(sha2::Sha256::digest([10u8, 20, 30].as_slice()));
    assert_eq!(contact.installation_id(), expected);
}

#[test]
fn installation_row_stores_and_returns_the_contact() {
    let contact = Contact::new("0xabc".to_string(), vec![5, 6, 7]);
    let row = StoredInstallation::new(&contact, 1234).unwrap();
    assert_eq!(row.installation_id, contact.installation_id());
    assert_eq!(row.user_address, "0xabc");
    assert_eq!(row.first_seen_ns, 1234);
    assert_eq!(row.expires_at_ns, None);
    let back = row.get_contact().unwrap();
    assert_eq!(back.wallet_address, "0xabc");
    assert_eq!(back.bundle, vec![5, 6, 7]);
}

#[test]
fn corrupted_installation_row_propagates_contact_error() {
    let contact = Contact::new("0xabc".to_string(), vec![5, 6, 7]);
    let mut row = StoredInstallation::new(&contact, 1234).unwrap();
    row.contact = vec![9, 9];
    assert!(matches!(row.get_contact(), Err(ContactError::BadData(_))));
}
