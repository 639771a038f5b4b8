use std::str::FromStr;

use tower_defense::crypto::peer_id::{Multihash, ParseError, MAX_INLINE_KEY_LENGTH};
use tower_defense::crypto::{Keypair, PeerId, PublicKey};

fn hex(s: &str) -> Vec<u8> {
    (0..s.len())
        .step_by(2)
        .map(|i| u8::from_str_radix(&s[i..i + 2], 16).unwrap())
        .collect()
}

const PUBLIC1: &str = "d75a980182b10ab7d54bfed3c964073a0ee172f3daa62325af021a68f707511a";

fn rfc_key() -> PublicKey {
    PublicKey::from_bytes(hex(PUBLIC1).try_into().unwrap())
}

#[test]
fn peer_id_inlines_protobuf_encoded_key() {
    let peer = PeerId::from_public_key(rfc_key());
    let mut expected = vec![0x00, 0x24, 0x08, 0x01, 0x12, 0x20];
    expected.extend(hex(PUBLIC1));
    assert_eq!(peer.to_bytes(), expected);
    assert!(expected.len() - 2 <= MAX_INLINE_KEY_LENGTH);
}

#[test]
fn peer_id_base58_of_rfc_key() {
    let peer = PeerId::from_public_key(rfc_key());
    assert_eq!(peer.to_base58(), "12D3KooWQK1wnefoLrcVHbbnf5tLzbopUd3K3bFAoJpA7YJgL5pV");
    assert_eq!(peer.to_string(), peer.to_base58());
}

#[test]
fn peer_id_of_zero_secret() {
    let peer = PeerId::from_public_key(Keypair::from_secret_bytes(&[0; 32]).public());
    assert_eq!(peer.to_base58(), "12D3KooWDpJ7As7BWAwRMfu1VU2WCqNjvq387JEYKDBj4kx6nXTN");
}

#[test]
fn bytes_round_trip() {
    let peer = PeerId::from_public_key(Keypair::from_secret_bytes(&[9; 32]).public());
    assert_eq!(PeerId::from_bytes(&peer.to_bytes()).unwrap(), peer);
}

#[test]
fn base58_round_trip() {
    let peer = PeerId::from_public_key(Keypair::from_secret_bytes(&[9; 32]).public());
    assert_eq!(PeerId::from_str(&peer.to_base58()).unwrap(), peer);
    assert_eq!(PeerId::from_base58(&peer.to_base58()).unwrap(), peer);
}

#[test]
fn different_keys_give_different_peer_ids() {
    let a = PeerId::from_public_key(Keypair::from_secret_bytes(&[1; 32]).public());
    let b = PeerId::from_public_key(Keypair::from_secret_bytes(&[2; 32]).public());
    assert_ne!(a, b);
    assert_eq!(a.clone(), a);
}

#[test]
fn sha256_peer_id_accepted() {
    let mut bytes = vec![0x12, 0x20];
    bytes.extend([0xab; 32]);
    let peer = PeerId::from_bytes(&bytes).unwrap();
    assert_eq!(peer.to_bytes(), bytes);
    let mh = Multihash::from_bytes(&bytes).unwrap();
    assert_eq!(mh.code(), 0x12);
    assert_eq!(PeerId::from_multihash(mh).unwrap(), peer);
}

#[test]
fn unsupported_code_refused() {
    // SHA-1 (0x11) is not a code that peer ids use.
    let mut bytes = vec![0x11, 0x14];
    bytes.extend([0x01; 20]);
    assert!(matches!(PeerId::from_bytes(&bytes), Err(ParseError::UnsupportedCode(0x11))));
}

#[test]
fn long_identity_refused() {
    let mut bytes = vec![0x00, 43];
    bytes.extend([0x01; 43]);
    assert!(matches!(PeerId::from_bytes(&bytes), Err(ParseError::UnsupportedCode(0))));
}

#[test]
fn longest_identity_accepted() {
    let mut bytes = vec![0x00, 42];
    bytes.extend([0x01; 42]);
    assert!(PeerId::from_bytes(&bytes).is_ok());
}

#[test]
fn invalid_multihash_refused() {
    assert!(matches!(PeerId::from_bytes(&[]), Err(ParseError::InvalidMultihash(_))));
    assert!(matches!(PeerId::from_bytes(&[0x80]), Err(ParseError::InvalidMultihash(_))));
    // A digest shorter than its stated length.
    assert!(matches!(PeerId::from_bytes(&[0x12, 0x20, 1, 2]), Err(ParseError::InvalidMultihash(_))));
    // Bytes left after the digest.
    let mut bytes = vec![0x12, 0x20];
    bytes.extend([0xab; 33]);
    assert!(matches!(PeerId::from_bytes(&bytes), Err(ParseError::InvalidMultihash(_))));
}

#[test]
fn bad_base58_refused() {
    assert!(matches!(PeerId::from_str("0OIl"), Err(ParseError::B58(_))));
}

#[test]
fn base58_of_bad_bytes_refused() {
    // "11" decodes to two zero bytes: code 0, length 0; then accepted as an empty identity.
    assert!(PeerId::from_str("11").is_ok());
    // "1" decodes to one zero byte: the length is missing.
    assert!(matches!(PeerId::from_str("1"), Err(ParseError::InvalidMultihash(_))));
}

#[test]
fn from_multihash_checks_code() {
    let sha = Multihash::wrap(0x12, &[0; 32]).unwrap();
    assert!(PeerId::from_multihash(sha).is_ok());
    let short = Multihash::wrap(0, &[0; 42]).unwrap();
    assert!(PeerId::from_multihash(short).is_ok());
    let long = Multihash::wrap(0, &[0; 43]).unwrap();
    let back = PeerId::from_multihash(long.clone()).unwrap_err();
    assert_eq!(back, long);
    let other = Multihash::wrap(0x13, &[0; 64]).unwrap();
    assert!(PeerId::from_multihash(other).is_err());
}

#[test]
fn multihash_wrap_limits_digest() {
    assert!(Multihash::wrap(0x12, &[0; 64]).is_ok());
    assert!(Multihash::wrap(0x12, &[0; 65]).is_err());
}

#[test]
fn multihash_bytes_use_varints() {
    let m = Multihash::wrap(300, &[7; 3]).unwrap();
    assert_eq!(m.to_bytes(), vec![0xac, 0x02, 0x03, 7, 7, 7]);
    let back = Multihash::from_bytes(&m.to_bytes()).unwrap();
    assert_eq!(back.code(), 300);
    assert_eq!(back.digest(), &[7, 7, 7]);
}

#[test]
fn base58_of_unsupported_code_refused() {
    // Base-58 of the SHA-1 multihash 0x11 0x14 followed by twenty 0x01 bytes.
    assert!(matches!(
        PeerId::from_str("5dqoDrscZNGAoS1CSzgzu51xw2UXcL"),
        Err(ParseError::UnsupportedCode(0x11))
    ));
}

#[test]
fn overlong_varint_code_is_read_but_not_kept() {
    // A ten-byte varint whose last byte carries bits past the 64th: `multihash` reads the
    // code as 0 (the high bits drop out), so the peer id re-encodes to other bytes.
    let mut bytes = vec![0x80; 9];
    bytes.extend([0x02, 0x00]);
    let peer = PeerId::from_bytes(&bytes).unwrap();
    assert_eq!(peer.to_bytes(), vec![0x00, 0x00]);
    assert_ne!(peer.to_bytes(), bytes);
}
