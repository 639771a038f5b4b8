use tower_defense::crypto::{Keypair, PublicKey, Signature};
use tower_defense::error::Error;

#[test]
fn signature_verifies_under_own_key() {
    let k = Keypair::from_secret_bytes(&[7; 32]);
    let sig = k.sign(b"hello");
    assert!(k.public().verify(b"hello", &sig).is_ok());
}

#[test]
fn signature_refused_for_other_message() {
    let k = Keypair::from_secret_bytes(&[7; 32]);
    let sig = k.sign(b"hello");
    assert!(matches!(k.public().verify(b"hellp", &sig), Err(Error::Signature(_))));
}

#[test]
fn signature_refused_under_other_key() {
    let k = Keypair::from_secret_bytes(&[7; 32]);
    let other = Keypair::from_secret_bytes(&[8; 32]);
    let sig = k.sign(b"hello");
    assert!(matches!(other.public().verify(b"hello", &sig), Err(Error::Signature(_))));
}

#[test]
fn tampered_signature_refused() {
    let k = Keypair::from_secret_bytes(&[7; 32]);
    let mut bytes = k.sign(b"hello").to_bytes();
    bytes[0] ^= 1;
    let sig = Signature::from_bytes(bytes);
    assert!(matches!(k.public().verify(b"hello", &sig), Err(Error::Signature(_))));
}

#[test]
fn undecodable_public_key_refused() {
    // y = 2 is not the y-coordinate of a curve point.
    let mut bytes = [0u8; 32];
    bytes[0] = 2;
    let pk = PublicKey::from_bytes(bytes);
    let sig = Keypair::from_secret_bytes(&[1; 32]).sign(b"m");
    assert!(matches!(pk.verify(b"m", &sig), Err(Error::Signature(_))));
}

#[test]
fn signing_is_deterministic() {
    let k = Keypair::from_secret_bytes(&[3; 32]);
    assert_eq!(k.sign(b"abc"), k.sign(b"abc"));
    assert_ne!(k.sign(b"abc"), k.sign(b"abd"));
}

#[test]
fn key_bytes_round_trip() {
    let pk = Keypair::from_secret_bytes(&[5; 32]).public();
    assert_eq!(PublicKey::from_bytes(pk.to_bytes()), pk);
}
