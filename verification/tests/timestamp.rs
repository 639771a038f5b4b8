use std::time::Duration;

use tower_defense::auth::timestamp::{millis_since_epoch, now, LaterThanLast, VerifyTimestamp, WithinDuration};
use tower_defense::crypto::{Keypair, PeerId};

fn peer(seed: u8) -> PeerId {
    PeerId::from_public_key(Keypair::from_secret_bytes(&[seed; 32]).public())
}

#[test]
fn now_is_after_2020() {
    let t = now().unwrap();
    assert!(t > 1_577_836_800_000);
}

#[test]
fn within_duration_is_strict() {
    let w = WithinDuration(Duration::from_secs(5));
    assert!(w.accepts_at(10_000, 5_001));
    assert!(!w.accepts_at(10_000, 5_000));
    assert!(w.accepts_at(10_000, 14_999));
    assert!(!w.accepts_at(10_000, 15_000));
    assert!(w.accepts_at(10_000, 10_000));
}

#[test]
fn within_duration_sub_millisecond() {
    let w = WithinDuration(Duration::from_nanos(1_000_001));
    assert!(w.accepts_at(10, 11));
    let w = WithinDuration(Duration::from_nanos(1_000_000));
    assert!(!w.accepts_at(10, 11));
    assert!(w.accepts_at(10, 10));
    let zero = WithinDuration(Duration::ZERO);
    assert!(!zero.accepts_at(10, 10));
}

#[test]
fn within_duration_reads_clock() {
    let mut w = WithinDuration(Duration::from_secs(60));
    let t = now().unwrap();
    assert!(w.verify(&peer(1), t));
    assert!(!w.verify(&peer(1), t - 120_000));
}

#[test]
fn later_than_last_first_accepted() {
    let mut log = LaterThanLast::default();
    assert!(log.verify(&peer(1), 0));
}

#[test]
fn later_than_last_refuses_replay_and_older() {
    let mut log = LaterThanLast::default();
    assert!(log.verify(&peer(1), 100));
    assert!(!log.verify(&peer(1), 100));
    assert!(!log.verify(&peer(1), 99));
    assert!(log.verify(&peer(1), 101));
    assert!(!log.verify(&peer(1), 100));
}

#[test]
fn later_than_last_peers_independent() {
    let mut log = LaterThanLast::default();
    assert!(log.verify(&peer(1), 100));
    assert!(log.verify(&peer(2), 50));
    assert!(!log.verify(&peer(2), 50));
    assert!(log.verify(&peer(1), 101));
    assert!(log.verify(&peer(3), 0));
}

#[test]
fn refused_timestamp_leaves_last() {
    let mut log = LaterThanLast::default();
    assert!(log.verify(&peer(1), 100));
    assert!(!log.verify(&peer(1), 10));
    // The last accepted timestamp is still 100, not 10.
    assert!(!log.verify(&peer(1), 50));
}

#[test]
fn millis_since_epoch_converts_readings() {
    assert_eq!(millis_since_epoch(Ok(Duration::from_millis(1234))).unwrap(), 1234);
    assert_eq!(millis_since_epoch(Ok(Duration::from_micros(1999))).unwrap(), 1);
    assert!(matches!(
        millis_since_epoch(Ok(Duration::MAX)),
        Err(tower_defense::error::Error::TryFromInt(_))
    ));
    let before = std::time::UNIX_EPOCH.duration_since(std::time::UNIX_EPOCH + Duration::from_secs(1));
    assert!(matches!(
        millis_since_epoch(before),
        Err(tower_defense::error::Error::SystemTime(_))
    ));
}
