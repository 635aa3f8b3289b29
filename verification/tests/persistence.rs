//! The in-memory persistence backend: last write wins, reads never fail.

use xmtp_store::persistence::InMemoryPersistence;

#[test]
fn read_of_missing_key_is_none() {
    let p = InMemoryPersistence::new();
    assert_eq!(p.read("absent"), Ok(None));
}

#[test]
fn write_then_read_returns_the_bytes() {
    let mut p = InMemoryPersistence::new();
    p.write("k", &[1, 2, 3]).unwrap();
    assert_eq!(p.read("k"), Ok(Some(vec![1, 2, 3])));
}

#[test]
fn last_write_wins() {
    let mut p = InMemoryPersistence::new();
    p.write("k", &[1]).unwrap();
    p.write("k", &[2, 2]).unwrap();
    assert_eq!(p.read("k"), Ok(Some(vec![2, 2])));
}

#[test]
fn keys_do_not_interfere() {
    let mut p = InMemoryPersistence::new();
    p.write("a", &[1]).unwrap();
    p.write("b", &[2]).unwrap();
    assert_eq!(p.read("a"), Ok(Some(vec![1])));
    assert_eq!(p.read("b"), Ok(Some(vec![2])));
}

#[test]
fn default_backend_is_empty() {
    let p = InMemoryPersistence::default();
    assert_eq!(p.read("anything"), Ok(None));
}
