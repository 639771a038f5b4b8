use tower_defense::auth::timestamp::{LaterThanLast, VerifyTimestamp, WithinDuration};
use tower_defense::auth::AuthenticatedParams;
use tower_defense::crypto::{Keypair, PeerId};
use tower_defense::error::Error;
use tower_defense::rpc::RequestId;

fn hex(s: &str) -> Vec<u8> {
    (0..s.len())
        .step_by(2)
        .map(|i| u8::from_str_radix(&s[i..i + 2], 16).unwrap())
        .collect()
}

const SECRET1: &str = "9d61b19deffd5a60ba844af492ec2cc44449c5697b326919703bac031cae7f60";

fn keypair() -> Keypair {
    Keypair::from_secret_bytes(&hex(SECRET1).try_into().unwrap())
}

fn params() -> Option<String> {
    Some("[\"foo\"]".to_string())
}

#[test]
fn prepare_signs_the_material() {
    let k = keypair();
    let p = AuthenticatedParams::prepare(&k, &RequestId::Number(1), "echo", params(), 1000);
    let mut material = b"1".to_vec();
    material.extend(1000u64.to_be_bytes());
    material.extend(b"echo");
    material.extend(b"[\"foo\"]");
    assert_eq!(p.signature(), k.sign(&material));
    assert_eq!(p.signature().to_bytes().to_vec(), hex("09594b68f3934a7b4d221d86214132a04bf5439b4ec023ae3c4a00c434ee4cd82d3ca7fe438787fc9e6167359f3bfbf4a19b192c3a1ddbb24fea9617df818e05"));
    assert_eq!(p.signer(), k.public());
    assert_eq!(p.timestamp(), 1000);
    assert_eq!(p.inner(), &params());
}

#[test]
fn prepare_without_params_signs_empty_params() {
    let k = keypair();
    let p = AuthenticatedParams::prepare(&k, &RequestId::Str("x".into()), "m", None, 5);
    let mut material = b"x".to_vec();
    material.extend(5u64.to_be_bytes());
    material.extend(b"m");
    assert_eq!(p.signature(), k.sign(&material));
    assert_eq!(p.inner(), &None);
}

#[test]
fn verify_at_accepts_within_five_seconds() {
    let k = keypair();
    let id = RequestId::Number(1);
    let p = AuthenticatedParams::prepare(&k, &id, "echo", params(), 10_000);
    assert!(p.verify_at(&id, "echo", 10_000).is_ok());
    assert!(p.verify_at(&id, "echo", 15_000).is_ok());
    assert!(p.verify_at(&id, "echo", 5_000).is_ok());
}

#[test]
fn verify_at_refuses_stale_or_future_timestamps() {
    let k = keypair();
    let id = RequestId::Number(1);
    let p = AuthenticatedParams::prepare(&k, &id, "echo", params(), 10_000);
    assert!(matches!(p.verify_at(&id, "echo", 15_001), Err(Error::InvalidTimestamp)));
    assert!(matches!(p.verify_at(&id, "echo", 4_999), Err(Error::InvalidTimestamp)));
    // The timestamp is checked first, whatever the signature.
    assert!(matches!(p.verify_at(&id, "other", 20_000), Err(Error::InvalidTimestamp)));
}

#[test]
fn verify_at_refuses_other_request() {
    let k = keypair();
    let id = RequestId::Number(1);
    let p = AuthenticatedParams::prepare(&k, &id, "echo", params(), 10_000);
    assert!(matches!(p.verify_at(&id, "other", 10_000), Err(Error::Signature(_))));
    assert!(matches!(p.verify_at(&RequestId::Number(2), "echo", 10_000), Err(Error::Signature(_))));
}

#[test]
fn verify_at_refuses_tampered_params() {
    let k = keypair();
    let id = RequestId::Number(1);
    let p = AuthenticatedParams::prepare(&k, &id, "echo", params(), 10_000);
    let forged = AuthenticatedParams::from_parts(
        p.signer(),
        p.signature(),
        p.timestamp(),
        Some("[\"bar\"]".to_string()),
    );
    assert!(matches!(forged.verify_at(&id, "echo", 10_000), Err(Error::Signature(_))));
    let other_time = AuthenticatedParams::from_parts(p.signer(), p.signature(), 10_001, params());
    assert!(matches!(other_time.verify_at(&id, "echo", 10_000), Err(Error::Signature(_))));
}

#[test]
fn prepared_now_verifies_now() {
    let k = keypair();
    let id = RequestId::Null;
    let p = AuthenticatedParams::prepare_now(&k, &id, "echo", params()).unwrap();
    assert!(p.verify_now(&id, "echo").is_ok());
    assert!(matches!(p.verify_now(&id, "ech"), Err(Error::Signature(_))));
}

#[test]
fn verify_gives_signer_peer_and_params() {
    let k = keypair();
    let id = RequestId::Number(3);
    let p = AuthenticatedParams::prepare(&k, &id, "echo", params(), 10_000);
    let mut log = LaterThanLast::default();
    let v = p.verify(&id, "echo", &mut log).unwrap();
    assert_eq!(v.peer, PeerId::from_public_key(k.public()));
    assert_eq!(v.inner, params());
}

#[test]
fn verify_refuses_replay() {
    let k = keypair();
    let id = RequestId::Number(3);
    let p = AuthenticatedParams::prepare(&k, &id, "echo", params(), 10_000);
    let mut log = LaterThanLast::default();
    assert!(p.clone().verify(&id, "echo", &mut log).is_ok());
    assert!(matches!(p.verify(&id, "echo", &mut log), Err(Error::InvalidTimestamp)));
    let later = AuthenticatedParams::prepare(&k, &id, "echo", params(), 10_001);
    assert!(later.verify(&id, "echo", &mut log).is_ok());
}

#[test]
fn bad_signature_does_not_touch_the_log() {
    let k = keypair();
    let id = RequestId::Number(3);
    let p = AuthenticatedParams::prepare(&k, &id, "echo", params(), 10_000);
    let mut log = LaterThanLast::default();
    assert!(matches!(p.clone().verify(&id, "other", &mut log), Err(Error::Signature(_))));
    // The failed attempt recorded nothing, so the genuine request still goes through.
    assert!(p.verify(&id, "echo", &mut log).is_ok());
}

#[test]
fn verify_with_duration_window() {
    let k = keypair();
    let id = RequestId::Number(3);
    let p = AuthenticatedParams::prepare_now(&k, &id, "echo", None).unwrap();
    let mut window = WithinDuration(std::time::Duration::from_secs(60));
    assert!(p.clone().verify(&id, "echo", &mut window).is_ok());
    let old = AuthenticatedParams::prepare(&k, &id, "echo", None, 1_000);
    assert!(matches!(old.verify(&id, "echo", &mut window), Err(Error::InvalidTimestamp)));
}

struct Never;

impl VerifyTimestamp for Never {
    fn verify(&mut self, _peer: &PeerId, _timestamp: u64) -> bool {
        false
    }
}

#[test]
fn verify_respects_custom_policy() {
    let k = keypair();
    let id = RequestId::Number(3);
    let p = AuthenticatedParams::prepare(&k, &id, "echo", None, 1);
    assert!(matches!(p.verify(&id, "echo", &mut Never), Err(Error::InvalidTimestamp)));
}
