use sentiric_sip_registrar_service::error::Code;
use sentiric_sip_registrar_service::registrar::{
    LookupContactRequest, MyRegistrarService, RegisterRequest, RegisterStep, UnregisterRequest,
};
use sentiric_sip_registrar_service::store::{RegistrationStore, StoreCommand, StoreRead};

fn service() -> MyRegistrarService {
    MyRegistrarService::new(RegistrationStore::new(), "example.org".to_string())
}

fn request(expires: i32) -> RegisterRequest {
    RegisterRequest {
        sip_uri: "sip:alice@example.org".to_string(),
        contact_uri: "sip:alice@192.0.2.1:5060".to_string(),
        expires,
    }
}

#[test]
fn trace_id_defaults_to_unknown() {
    assert_eq!(MyRegistrarService::extract_trace_id(None), "unknown");
    assert_eq!(MyRegistrarService::extract_trace_id(Some("abc-123".to_string())), "abc-123");
}

#[test]
fn register_without_user_name_is_invalid() {
    match service().register_start("", "t1") {
        RegisterStep::Reject(s) => {
            assert_eq!(s.code, Code::InvalidArgument);
            assert_eq!(s.message, "Invalid SIP URI");
        }
        other => panic!("unexpected {:?}", other),
    }
}

#[test]
fn register_checks_credentials_first() {
    match service().register_start("alice", "t1") {
        RegisterStep::CheckCredentials(q) => {
            assert_eq!(q.sip_username, "alice");
            assert_eq!(q.realm, "example.org");
            assert_eq!(q.timeout_secs, 5);
            assert_eq!(q.trace_id, "t1");
        }
        other => panic!("unexpected {:?}", other),
    }
}

#[test]
fn unknown_credentials_are_unauthenticated() {
    match service().register_credentials_checked(&request(60), "alice", false) {
        RegisterStep::Reject(s) => {
            assert_eq!(s.code, Code::Unauthenticated);
            assert_eq!(s.message, "Invalid credentials");
        }
        other => panic!("unexpected {:?}", other),
    }
}

#[test]
fn known_credentials_store_the_contact() {
    match service().register_credentials_checked(&request(60), "alice", true) {
        RegisterStep::Store(StoreCommand::SetWithExpiry { key, value, ttl_secs }) => {
            assert_eq!(key, "sip_reg:alice");
            assert_eq!(value, "sip:alice@192.0.2.1:5060");
            assert_eq!(ttl_secs, 60);
        }
        other => panic!("unexpected {:?}", other),
    }
    match service().register_credentials_checked(&request(0), "alice", true) {
        RegisterStep::Store(StoreCommand::Delete { key }) => assert_eq!(key, "sip_reg:alice"),
        other => panic!("unexpected {:?}", other),
    }
}

#[test]
fn store_outcome_decides_register_answer() {
    match service().register_stored(false) {
        RegisterStep::Reject(s) => {
            assert_eq!(s.code, Code::Internal);
            assert_eq!(s.message, "Location store failure");
        }
        other => panic!("unexpected {:?}", other),
    }
    match service().register_stored(true) {
        RegisterStep::Accept(r) => assert!(r.success),
        other => panic!("unexpected {:?}", other),
    }
}

#[test]
fn unregister_flow() {
    let svc = service();
    let req = UnregisterRequest { sip_uri: "sip:alice@example.org".to_string() };
    match svc.unregister_start(&req, "alice") {
        StoreCommand::Delete { key } => assert_eq!(key, "sip_reg:alice"),
        other => panic!("unexpected {:?}", other),
    }
    assert!(svc.unregister_finished(true).unwrap().success);
    let s = svc.unregister_finished(false).unwrap_err();
    assert_eq!(s.code, Code::Internal);
    assert_eq!(s.message, "Location store failure");
}

#[test]
fn lookup_flow() {
    let svc = service();
    let req = LookupContactRequest { sip_uri: "sip:bob@example.org".to_string() };
    match svc.lookup_start(&req, "") {
        StoreCommand::Get { key } => assert_eq!(key, "sip_reg:sip:bob@example.org"),
        other => panic!("unexpected {:?}", other),
    }
    assert_eq!(
        svc.lookup_finished(StoreRead::Found("sip:bob@h".to_string())).contact_uris,
        vec!["sip:bob@h".to_string()]
    );
    assert!(svc.lookup_finished(StoreRead::Missing).contact_uris.is_empty());
    assert!(svc.lookup_finished(StoreRead::Failed).contact_uris.is_empty());
}
