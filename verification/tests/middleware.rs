use tower_defense::auth::AuthenticatedParams;
use tower_defense::crypto::{Keypair, PeerId};
use tower_defense::middleware::{Sign, SignFailure, Verify};
use tower_defense::rpc::{ErrorCode, RequestId};

#[test]
fn verify_middleware_new_keeps_service() {
    let v = Verify::new(42u32);
    assert_eq!(*v.inner(), 42);
}

#[test]
fn sign_middleware_new_keeps_parts() {
    let k = Keypair::from_secret_bytes(&[4; 32]);
    let s = Sign::new(k, "svc");
    assert_eq!(*s.inner(), "svc");
    assert_eq!(s.keypair().secret_bytes(), [4; 32]);
}

#[test]
fn unparsable_params_refused() {
    let v = Verify::new(());
    let r = v.check_at(None, &RequestId::Number(1), "echo", 0);
    assert!(matches!(r, Err(ErrorCode::InvalidRequest)));
    assert!(matches!(v.check(None, &RequestId::Number(1), "echo"), Err(ErrorCode::InvalidRequest)));
}

#[test]
fn signed_request_goes_through() {
    let k = Keypair::from_secret_bytes(&[4; 32]);
    let id = RequestId::Str("a".into());
    let p = AuthenticatedParams::prepare(&k, &id, "echo", Some("[1]".into()), 1_000);
    let v = Verify::new(());
    let out = v.check_at(Some(p), &id, "echo", 2_000).unwrap();
    assert_eq!(out.peer, PeerId::from_public_key(k.public()));
    assert_eq!(out.inner, Some("[1]".to_string()));
}

#[test]
fn stale_or_forged_request_refused() {
    let k = Keypair::from_secret_bytes(&[4; 32]);
    let id = RequestId::Number(9);
    let p = AuthenticatedParams::prepare(&k, &id, "echo", None, 1_000);
    let v = Verify::new(());
    assert!(matches!(v.check_at(Some(p.clone()), &id, "echo", 6_001), Err(ErrorCode::InvalidRequest)));
    assert!(matches!(v.check_at(Some(p), &id, "other", 1_000), Err(ErrorCode::InvalidRequest)));
}

#[test]
fn sign_then_verify_now() {
    let k = Keypair::from_secret_bytes(&[4; 32]);
    let id = RequestId::Number(9);
    let s = Sign::new(k, ());
    let p = s.authenticate(&id, "echo", None).unwrap();
    let v = Verify::new(());
    let out = v.check(Some(p), &id, "echo").unwrap();
    assert_eq!(out.peer, PeerId::from_public_key(k.public()));
    assert_eq!(out.inner, None);
}

#[test]
fn batches_and_notifications_refused() {
    let v = Verify::new(());
    assert_eq!(v.batch(), ErrorCode::InternalError);
    assert_eq!(v.notification(), ErrorCode::InternalError);
    let s = Sign::new(Keypair::from_secret_bytes(&[4; 32]), ());
    assert_eq!(s.batch(), SignFailure::BatchUnsupported);
    assert_eq!(s.notification(), SignFailure::NotificationUnsupported);
}

#[test]
fn failure_messages() {
    assert_eq!(SignFailure::Prepare.message(), "Failed to prepare authenticated params");
    assert_eq!(SignFailure::Serialize.message(), "Failed to serialize authenticated params");
    assert_eq!(SignFailure::BatchUnsupported.message(), "Authenticated batch calls are not supported");
    assert_eq!(
        SignFailure::NotificationUnsupported.message(),
        "Authenticated notifications are not supported"
    );
}
