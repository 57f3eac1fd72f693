use sentiric_sip_registrar_service::store::{RegistrationStore, StoreCommand, StoreRead};
use std::collections::HashMap;

/// Runs a command on an in-memory stand-in for the store, as the command
/// executor does on Redis, and returns what a read gives back.
fn run(db: &mut HashMap<String, (String, u64)>, cmd: StoreCommand) -> Option<String> {
    match cmd {
        StoreCommand::SetWithExpiry { key, value, ttl_secs } => {
            db.insert(key, (value, ttl_secs));
            None
        }
        StoreCommand::Delete { key } => {
            db.remove(&key);
            None
        }
        StoreCommand::Get { key } => db.get(&key).map(|v| v.0.clone()),
    }
}

#[test]
fn key_uses_user_name() {
    let store = RegistrationStore::new();
    assert_eq!(store.generate_key("sip:alice@example.org", "alice"), "sip_reg:alice");
}

#[test]
fn key_falls_back_to_raw_uri() {
    let store = RegistrationStore::new();
    assert_eq!(store.generate_key("tel:+123", ""), "sip_reg:tel:+123");
}

#[test]
fn register_with_positive_expiry_sets_with_ttl() {
    let store = RegistrationStore::new();
    match store.register_user("sip:bob@x", "bob", "sip:bob@10.0.0.1:5060", 3600) {
        StoreCommand::SetWithExpiry { key, value, ttl_secs } => {
            assert_eq!(key, "sip_reg:bob");
            assert_eq!(value, "sip:bob@10.0.0.1:5060");
            assert_eq!(ttl_secs, 3600);
        }
        other => panic!("unexpected {:?}", other),
    }
}

#[test]
fn register_with_zero_or_negative_expiry_deletes() {
    let store = RegistrationStore::new();
    for expires in [0, -1, i32::MIN] {
        match store.register_user("sip:bob@x", "bob", "sip:bob@h", expires) {
            StoreCommand::Delete { key } => assert_eq!(key, "sip_reg:bob"),
            other => panic!("unexpected {:?}", other),
        }
    }
    match store.register_user("sip:bob@x", "bob", "sip:bob@h", i32::MAX) {
        StoreCommand::SetWithExpiry { ttl_secs, .. } => assert_eq!(ttl_secs, 2147483647),
        other => panic!("unexpected {:?}", other),
    }
}

#[test]
fn unregister_and_lookup_commands() {
    let store = RegistrationStore::new();
    match store.unregister_user("sip:carol@x", "carol") {
        StoreCommand::Delete { key } => assert_eq!(key, "sip_reg:carol"),
        other => panic!("unexpected {:?}", other),
    }
    match store.lookup_user("sip:carol@x", "carol") {
        StoreCommand::Get { key } => assert_eq!(key, "sip_reg:carol"),
        other => panic!("unexpected {:?}", other),
    }
}

#[test]
fn lookup_after_register_and_unregister() {
    let store = RegistrationStore::new();
    let mut db = HashMap::new();
    run(&mut db, store.register_user("sip:dave@x", "dave", "sip:dave@h1", 60));
    assert_eq!(run(&mut db, store.lookup_user("sip:dave@y", "dave")), Some("sip:dave@h1".to_string()));
    run(&mut db, store.register_user("sip:dave@x", "dave", "sip:dave@h2", 60));
    assert_eq!(run(&mut db, store.lookup_user("sip:dave@x", "dave")), Some("sip:dave@h2".to_string()));
    run(&mut db, store.register_user("sip:erin@x", "erin", "sip:erin@h", 60));
    run(&mut db, store.unregister_user("sip:dave@x", "dave"));
    assert_eq!(run(&mut db, store.lookup_user("sip:dave@x", "dave")), None);
    assert_eq!(run(&mut db, store.lookup_user("sip:erin@x", "erin")), Some("sip:erin@h".to_string()));
    run(&mut db, store.register_user("sip:erin@x", "erin", "sip:erin@h", 0));
    assert_eq!(run(&mut db, store.lookup_user("sip:erin@x", "erin")), None);
}

#[test]
fn failed_read_is_a_miss() {
    let store = RegistrationStore::new();
    assert_eq!(store.contact_from_read(StoreRead::Found("sip:f@h".to_string())), Some("sip:f@h".to_string()));
    assert_eq!(store.contact_from_read(StoreRead::Missing), None);
    assert_eq!(store.contact_from_read(StoreRead::Failed), None);
}
