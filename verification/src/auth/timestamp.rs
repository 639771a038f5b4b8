use std::time::{Duration, SystemTime, UNIX_EPOCH};
use vstd::prelude::*;

use crate::crypto::peer_id::PeerId;
use crate::error::Error;

verus! {

/// A reading of the system clock.
#[verifier::external_type_specification]
#[verifier::external_body]
pub struct ExSystemTime(std::time::SystemTime);

/// The number of nanoseconds that a `Duration` spans.
pub uninterp spec fn duration_nanos(d: Duration) -> u128;

/// Calls `SystemTime::now`. Nothing is claimed of the reading.
#[verifier::external_body]
fn system_time_now() -> SystemTime {
    SystemTime::now()
}

/// Calls `SystemTime::duration_since(UNIX_EPOCH)`. Nothing is claimed of the outcome: it
/// depends on the clock.
#[verifier::external_body]
fn duration_since_unix_epoch(t: SystemTime) -> Result<Duration, std::time::SystemTimeError> {
    t.duration_since(UNIX_EPOCH)
}

/// The number of whole milliseconds that a `Duration` spans.
pub open spec fn duration_millis(d: Duration) -> u128 {
    duration_nanos(d) / 1_000_000
}

/// Calls `Duration::as_millis`.
/// Claimed: the value is the duration's length in whole milliseconds, that is its length in
/// nanoseconds divided by 10^6, rounded down.
#[verifier::external_body]
fn duration_as_millis(d: &Duration) -> (r: u128)
    ensures
        r == duration_nanos(*d) / 1_000_000,
{
    d.as_millis()
}

/// Calls `Duration::as_nanos`.
/// Claimed: the value is the duration's length in nanoseconds, a function of the duration alone.
#[verifier::external_body]
fn duration_as_nanos(d: &Duration) -> (r: u128)
    ensures
        r == duration_nanos(*d),
{
    d.as_nanos()
}

/// Calls `u64::try_from` on a `u128`.
/// Claimed: it succeeds exactly when the value fits in a `u64`, and then keeps it.
#[verifier::external_body]
fn u64_try_from_u128(v: u128) -> (r: Result<u64, std::num::TryFromIntError>)
    ensures
        r is Ok <==> v <= u64::MAX,
        r matches Ok(x) ==> x == v,
{
    u64::try_from(v)
}

/// What `now` makes of a reading of the time since the unix epoch: the error when the clock is
/// before the epoch, the whole milliseconds when they fit in a `u64`, and a conversion error
/// otherwise.
pub open spec fn epoch_millis_result(
    since: Result<Duration, std::time::SystemTimeError>,
    r: Result<u64, Error>,
) -> bool {
    match since {
        Err(e) => r == Err::<u64, Error>(Error::SystemTime(e)),
        Ok(d) => if duration_millis(d) <= u64::MAX {
            r == Ok::<u64, Error>(duration_millis(d) as u64)
        } else {
            r matches Err(Error::TryFromInt(_))
        },
    }
}

/// `r` is what `now` returns for some reading of the clock.
pub open spec fn clock_reading(r: Result<u64, Error>) -> bool {
    exists|since: Result<Duration, std::time::SystemTimeError>| epoch_millis_result(since, r)
}

/// The number of milliseconds from the unix epoch for a reading of the time since the epoch.
///
/// # Errors
///
/// Passes on the reading's error, or fails when the count does not fit in a `u64`.
pub fn millis_since_epoch(since: Result<Duration, std::time::SystemTimeError>) -> (r: Result<
    u64,
    Error,
>)
    ensures
        epoch_millis_result(since, r),
{
    let since = match since {
        Ok(d) => d,
        Err(e) => return Err(Error::SystemTime(e)),
    };
    let millis = duration_as_millis(&since);
    match u64_try_from_u128(millis) {
        Ok(m) => Ok(m),
        Err(e) => Err(Error::TryFromInt(e)),
    }
}

/// Number of milliseconds from the unix epoch.
///
/// # Errors
///
/// Fails when the clock is before the epoch, or the count does not fit in a `u64`.
pub fn now() -> (r: Result<u64, Error>)
    ensures
        clock_reading(r),
        r matches Err(e) ==> e is SystemTime || e is TryFromInt,
{
    let since = duration_since_unix_epoch(system_time_now());
    let ghost reading = since;
    let r = millis_since_epoch(since);
    assert(epoch_millis_result(reading, r));
    r
}

/// The distance between two instants in milliseconds.
pub open spec fn distance(a: u64, b: u64) -> nat {
    if a >= b {
        (a - b) as nat
    } else {
        (b - a) as nat
    }
}

/// The distance between two instants in milliseconds (`u64::abs_diff`).
pub(crate) fn abs_diff(a: u64, b: u64) -> (r: u64)
    ensures
        r == distance(a, b),
{
    if a >= b {
        a - b
    } else {
        b - a
    }
}

/// A policy on the timestamps of signed requests. An implementation may keep state, such as
/// the timestamps seen so far.
pub trait VerifyTimestamp: Sized {
    /// What the policy does with a request signed by `peer` at `timestamp`: from state
    /// `before` it answers `accepted` and goes to state `after`. A policy that does not state
    /// its behaviour leaves every outcome possible.
    open spec fn verify_outcome(
        before: Self,
        peer: (u64, Seq<u8>),
        timestamp: u64,
        accepted: bool,
        after: Self,
    ) -> bool {
        true
    }

    /// Whether a request signed by `peer` at `timestamp` (milliseconds since the unix epoch)
    /// is accepted.
    fn verify(&mut self, peer: &PeerId, timestamp: u64) -> (r: bool)
        ensures
            Self::verify_outcome(*old(self), peer@, timestamp, r, *final(self)),
    ;
}

/// Accepts timestamps less than the given duration away from the current time.
#[derive(Debug, Clone, Copy)]
pub struct WithinDuration(pub Duration);

impl WithinDuration {
    /// Whether `timestamp` is less than the duration away from `now`.
    pub open spec fn accepts(&self, now: u64, timestamp: u64) -> bool {
        distance(now, timestamp) * 1_000_000 < duration_nanos(self.0)
    }

    /// Whether `timestamp` is less than the duration away from `now`.
    pub fn accepts_at(&self, now: u64, timestamp: u64) -> (r: bool)
        ensures
            r == self.accepts(now, timestamp),
    {
        let diff = abs_diff(now, timestamp);
        let elapsed_nanos: u128 = (diff as u128) * 1_000_000;
        elapsed_nanos < duration_as_nanos(&self.0)
    }
}

impl VerifyTimestamp for WithinDuration {
    /// The state stays, and the answer is the window check at some reading of the clock,
    /// `false` where the clock cannot be read.
    open spec fn verify_outcome(
        before: Self,
        peer: (u64, Seq<u8>),
        timestamp: u64,
        accepted: bool,
        after: Self,
    ) -> bool {
        &&& after == before
        &&& exists|reading: Result<u64, Error>|
            clock_reading(reading) && accepted == match reading {
                Ok(now) => before.accepts(now, timestamp),
                Err(_) => false,
            }
    }

    /// Reads the clock and accepts `timestamp` when it is less than the duration away from it;
    /// refuses it when the clock cannot be read.
    fn verify(&mut self, _peer: &PeerId, timestamp: u64) -> (r: bool)
        ensures
            *final(self) == *old(self),
            exists|reading: Result<u64, Error>|
                clock_reading(reading) && r == match reading {
                    Ok(now) => old(self).accepts(now, timestamp),
                    Err(_) => false,
                },
    {
        let reading = now();
        let r = match &reading {
            Ok(now) => self.accepts_at(*now, timestamp),
            Err(_) => false,
        };
        assert(clock_reading(reading) && r == match reading {
            Ok(now) => self.accepts(now, timestamp),
            Err(_) => false,
        });
        r
    }
}

/// What a log of last timestamps makes of a request signed by `peer` at `timestamp`: accepted
/// when the peer has no entry yet or its last timestamp is earlier.
pub open spec fn later_than_last_accepts(
    log: Map<(u64, Seq<u8>), u64>,
    peer: (u64, Seq<u8>),
    timestamp: u64,
) -> bool {
    !log.contains_key(peer) || log[peer] < timestamp
}

/// The log after such a request: the accepted timestamp becomes the peer's last one; a refused
/// request leaves the log as it was.
pub open spec fn later_than_last_after(
    log: Map<(u64, Seq<u8>), u64>,
    peer: (u64, Seq<u8>),
    timestamp: u64,
) -> Map<(u64, Seq<u8>), u64> {
    if later_than_last_accepts(log, peer, timestamp) {
        log.insert(peer, timestamp)
    } else {
        log
    }
}

spec fn entry_for(log: Seq<(PeerId, u64)>, peer: (u64, Seq<u8>), i: int) -> bool {
    0 <= i < log.len() && log[i].0@ == peer
}

spec fn distinct_peers(log: Seq<(PeerId, u64)>) -> bool {
    forall|i: int, j: int|
        0 <= i < log.len() && 0 <= j < log.len() && i != j ==> #[trigger] log[i].0@ != #[trigger] log[j].0@
}

spec fn log_map(log: Seq<(PeerId, u64)>) -> Map<(u64, Seq<u8>), u64> {
    Map::new(
        |k: (u64, Seq<u8>)| exists|i: int| entry_for(log, k, i),
        |k: (u64, Seq<u8>)| log[choose|i: int| entry_for(log, k, i)].1,
    )
}

proof fn lemma_log_map_entry(log: Seq<(PeerId, u64)>, peer: (u64, Seq<u8>), i: int)
    requires
        distinct_peers(log),
        entry_for(log, peer, i),
    ensures
        log_map(log).contains_key(peer),
        log_map(log)[peer] == log[i].1,
{
    let j = choose|j: int| entry_for(log, peer, j);
    assert(entry_for(log, peer, j));
    if i != j {
        assert(log[i].0@ != log[j].0@);
    }
}

/// Accepts a request only when its timestamp is later than the last one accepted from the
/// same peer.
#[derive(Debug)]
pub struct LaterThanLast {
    log: Vec<(PeerId, u64)>,
}

impl View for LaterThanLast {
    type V = Map<(u64, Seq<u8>), u64>;

    /// The last timestamp accepted from each peer.
    closed spec fn view(&self) -> Map<(u64, Seq<u8>), u64> {
        log_map(self.log@)
    }
}

impl Default for LaterThanLast {
    fn default() -> (r: Self)
        ensures
            r@ == Map::<(u64, Seq<u8>), u64>::empty(),
    {
        let r = LaterThanLast { log: Vec::new() };
        assert(r@ =~= Map::<(u64, Seq<u8>), u64>::empty());
        r
    }
}

impl LaterThanLast {
    #[verifier::type_invariant]
    spec fn one_entry_per_peer(&self) -> bool {
        distinct_peers(self.log@)
    }

    fn find(&self, peer: &PeerId) -> (r: Option<usize>)
        ensures
            r matches Some(i) ==> entry_for(self.log@, peer@, i as int),
            r is None ==> forall|i: int| !entry_for(self.log@, peer@, i),
    {
        let mut i: usize = 0;
        while i < self.log.len()
            invariant
                i <= self.log@.len(),
                forall|j: int| 0 <= j < i ==> !entry_for(self.log@, peer@, j),
            decreases self.log@.len() - i,
        {
            if self.log[i].0 == *peer {
                return Some(i);
            }
            i = i + 1;
        }
        None
    }
}

impl VerifyTimestamp for LaterThanLast {
    /// The answer and the new log are those of `later_than_last_accepts` and
    /// `later_than_last_after`.
    open spec fn verify_outcome(
        before: Self,
        peer: (u64, Seq<u8>),
        timestamp: u64,
        accepted: bool,
        after: Self,
    ) -> bool {
        &&& accepted == later_than_last_accepts(before@, peer, timestamp)
        &&& after@ == later_than_last_after(before@, peer, timestamp)
    }

    /// Accepts `timestamp` when `peer` has no entry or its last accepted timestamp is earlier,
    /// and then records it as the peer's last one.
    fn verify(&mut self, peer: &PeerId, timestamp: u64) -> (r: bool)
        ensures
            r == later_than_last_accepts(old(self)@, peer@, timestamp),
            final(self)@ == later_than_last_after(old(self)@, peer@, timestamp),
    {
        proof { use_type_invariant(&*self); }
        let ghost old_log = self.log@;
        match self.find(peer) {
            None => {
                let entry = (peer.clone(), timestamp);
                let mut log: Vec<(PeerId, u64)> = Vec::new();
                std::mem::swap(&mut log, &mut self.log);
                log.push(entry);
                proof {
                    let new_log = log@;
                    assert(new_log == old_log.push(entry));
                    assert(entry_for(new_log, peer@, old_log.len() as int));
                    assert(distinct_peers(new_log)) by {
                        assert forall|a: int, b: int|
                            0 <= a < new_log.len() && 0 <= b < new_log.len() && a != b implies
                            #[trigger] new_log[a].0@ != #[trigger] new_log[b].0@ by {
                            if a == old_log.len() {
                                assert(!entry_for(old_log, peer@, b));
                            } else if b == old_log.len() {
                                assert(!entry_for(old_log, peer@, a));
                            }
                        }
                    }
                    lemma_log_map_entry(new_log, peer@, old_log.len() as int);
                    assert(log_map(new_log) =~= log_map(old_log).insert(peer@, timestamp)) by {
                        assert forall|k: (u64, Seq<u8>)| #[trigger] log_map(new_log).contains_key(k)
                            implies log_map(old_log).insert(peer@, timestamp).contains_key(k)
                            && log_map(new_log)[k] == log_map(old_log).insert(peer@, timestamp)[k] by {
                            if k != peer@ {
                                let j = choose|j: int| entry_for(new_log, k, j);
                                assert(entry_for(old_log, k, j));
                                lemma_log_map_entry(new_log, k, j);
                                lemma_log_map_entry(old_log, k, j);
                            }
                        }
                        assert forall|k: (u64, Seq<u8>)| #[trigger] log_map(old_log).contains_key(k)
                            implies log_map(new_log).contains_key(k) by {
                            let j = choose|j: int| entry_for(old_log, k, j);
                            assert(entry_for(new_log, k, j));
                        }
                    }
                }
                self.log = log;
                true
            },
            Some(i) => {
                let last = self.log[i].1;
                if last >= timestamp {
                    proof { lemma_log_map_entry(old_log, peer@, i as int); }
                    false
                } else {
                    proof { lemma_log_map_entry(old_log, peer@, i as int); }
                    let entry = (peer.clone(), timestamp);
                    let mut log: Vec<(PeerId, u64)> = Vec::new();
                    std::mem::swap(&mut log, &mut self.log);
                    log.set(i, entry);
                    proof {
                        let new_log = log@;
                        assert(new_log == old_log.update(i as int, entry));
                        assert(entry_for(new_log, peer@, i as int));
                        assert(distinct_peers(new_log)) by {
                            assert forall|a: int, b: int|
                                0 <= a < new_log.len() && 0 <= b < new_log.len() && a != b implies
                                #[trigger] new_log[a].0@ != #[trigger] new_log[b].0@ by {
                                assert(old_log[a].0@ != old_log[b].0@);
                            }
                        }
                        lemma_log_map_entry(new_log, peer@, i as int);
                        assert(log_map(new_log) =~= log_map(old_log).insert(peer@, timestamp)) by {
                            assert forall|k: (u64, Seq<u8>)| #[trigger] log_map(new_log).contains_key(k)
                                implies log_map(old_log).insert(peer@, timestamp).contains_key(k)
                                && log_map(new_log)[k] == log_map(old_log).insert(
                                peer@,
                                timestamp,
                            )[k] by {
                                if k != peer@ {
                                    let j = choose|j: int| entry_for(new_log, k, j);
                                    assert(j != i);
                                    assert(entry_for(old_log, k, j));
                                    lemma_log_map_entry(new_log, k, j);
                                    lemma_log_map_entry(old_log, k, j);
                                }
                            }
                            assert forall|k: (u64, Seq<u8>)| #[trigger] log_map(old_log).contains_key(k)
                                implies log_map(new_log).contains_key(k) by {
                                let j = choose|j: int| entry_for(old_log, k, j);
                                if j == i {
                                    assert(entry_for(new_log, k, j));
                                } else {
                                    assert(entry_for(new_log, k, j));
                                }
                            }
                        }
                    }
                    self.log = log;
                    true
                }
            },
        }
    }
}

/// The first request seen from a peer is accepted.
pub proof fn law_first_timestamp_accepted(
    log: Map<(u64, Seq<u8>), u64>,
    peer: (u64, Seq<u8>),
    timestamp: u64,
)
    requires
        !log.contains_key(peer),
    ensures
        later_than_last_accepts(log, peer, timestamp),
        later_than_last_after(log, peer, timestamp)[peer] == timestamp,
{
}

/// Once a timestamp is accepted from a peer, a request from that peer with the same or an
/// earlier timestamp is refused: a request cannot be replayed.
pub proof fn law_replay_refused(
    log: Map<(u64, Seq<u8>), u64>,
    peer: (u64, Seq<u8>),
    timestamp: u64,
    replayed: u64,
)
    requires
        later_than_last_accepts(log, peer, timestamp),
        replayed <= timestamp,
    ensures
        !later_than_last_accepts(later_than_last_after(log, peer, timestamp), peer, replayed),
{
}

/// A request from one peer changes nothing of what is accepted from any other peer.
pub proof fn law_peers_independent(
    log: Map<(u64, Seq<u8>), u64>,
    peer: (u64, Seq<u8>),
    timestamp: u64,
    other: (u64, Seq<u8>),
    other_timestamp: u64,
)
    requires
        peer != other,
    ensures
        later_than_last_accepts(later_than_last_after(log, peer, timestamp), other, other_timestamp)
            == later_than_last_accepts(log, other, other_timestamp),
{
}

/// The last timestamp recorded for a peer never decreases, and a refused request changes
/// nothing.
pub proof fn law_last_timestamps_grow(
    log: Map<(u64, Seq<u8>), u64>,
    peer: (u64, Seq<u8>),
    timestamp: u64,
    any: (u64, Seq<u8>),
)
    requires
        log.contains_key(any),
    ensures
        later_than_last_after(log, peer, timestamp).contains_key(any),
        later_than_last_after(log, peer, timestamp)[any] >= log[any],
        !later_than_last_accepts(log, peer, timestamp) ==> later_than_last_after(
            log,
            peer,
            timestamp,
        ) == log,
{
}

/// Through the policy interface: once a `LaterThanLast` log accepts a timestamp from a peer,
/// the resulting log refuses that peer the same or any earlier timestamp.
pub proof fn law_log_refuses_replay(
    log: LaterThanLast,
    peer: (u64, Seq<u8>),
    timestamp: u64,
    after: LaterThanLast,
    replayed: u64,
    accepted_again: bool,
    after_again: LaterThanLast,
)
    requires
        <LaterThanLast as VerifyTimestamp>::verify_outcome(log, peer, timestamp, true, after),
        <LaterThanLast as VerifyTimestamp>::verify_outcome(
            after,
            peer,
            replayed,
            accepted_again,
            after_again,
        ),
        replayed <= timestamp,
    ensures
        !accepted_again,
        after_again@ == after@,
{
    law_replay_refused(log@, peer, timestamp, replayed);
}

/// A run of a log over a sequence of requests, each a peer and a timestamp: `logs[i]` is the
/// log before request `i`, `answers[i]` the answer to it, and `logs[i + 1]` the log after it.
pub open spec fn log_run(
    logs: Seq<Map<(u64, Seq<u8>), u64>>,
    requests: Seq<((u64, Seq<u8>), u64)>,
    answers: Seq<bool>,
) -> bool {
    &&& logs.len() == requests.len() + 1
    &&& answers.len() == requests.len()
    &&& forall|i: int|
        #![trigger requests[i]]
        0 <= i < requests.len() ==> answers[i] == later_than_last_accepts(
            logs[i],
            requests[i].0,
            requests[i].1,
        ) && logs[i + 1] == later_than_last_after(logs[i], requests[i].0, requests[i].1)
}

proof fn lemma_run_remembers_accepted(
    logs: Seq<Map<(u64, Seq<u8>), u64>>,
    requests: Seq<((u64, Seq<u8>), u64)>,
    answers: Seq<bool>,
    i: int,
    k: int,
)
    requires
        log_run(logs, requests, answers),
        0 <= i < k <= requests.len(),
        answers[i],
    ensures
        logs[k].contains_key(requests[i].0),
        logs[k][requests[i].0] >= requests[i].1,
    decreases k - i,
{
    let _ = requests[i];
    if k > i + 1 {
        lemma_run_remembers_accepted(logs, requests, answers, i, k - 1);
        let _ = requests[k - 1];
        law_last_timestamps_grow(logs[k - 1], requests[k - 1].0, requests[k - 1].1, requests[i].0);
    }
}

/// Over any run of a log, the timestamps accepted from one peer strictly increase, whatever
/// requests from other peers come between: no timestamp is accepted twice for a peer.
pub proof fn law_accepted_timestamps_increase(
    logs: Seq<Map<(u64, Seq<u8>), u64>>,
    requests: Seq<((u64, Seq<u8>), u64)>,
    answers: Seq<bool>,
    i: int,
    j: int,
)
    requires
        log_run(logs, requests, answers),
        0 <= i < j < requests.len(),
        answers[i],
        answers[j],
        requests[i].0 == requests[j].0,
    ensures
        requests[i].1 < requests[j].1,
{
    lemma_run_remembers_accepted(logs, requests, answers, i, j);
    let _ = requests[j];
}

/// Over any run of a log that starts empty, a peer's entry is the greatest timestamp accepted
/// from it so far, and a peer with no accepted request has no entry.
pub proof fn law_log_holds_latest_accepted(
    logs: Seq<Map<(u64, Seq<u8>), u64>>,
    requests: Seq<((u64, Seq<u8>), u64)>,
    answers: Seq<bool>,
    k: int,
    peer: (u64, Seq<u8>),
)
    requires
        log_run(logs, requests, answers),
        logs[0] == Map::<(u64, Seq<u8>), u64>::empty(),
        0 <= k <= requests.len(),
    ensures
        logs[k].contains_key(peer) <==> exists|i: int|
            0 <= i < k && answers[i] && #[trigger] requests[i].0 == peer,
        logs[k].contains_key(peer) ==> exists|i: int|
            0 <= i < k && answers[i] && #[trigger] requests[i].0 == peer && logs[k][peer]
                == requests[i].1,
        forall|i: int|
            0 <= i < k && answers[i] && #[trigger] requests[i].0 == peer ==> requests[i].1
                <= logs[k][peer],
    decreases k,
{
    assert forall|i: int|
        0 <= i < k && answers[i] && #[trigger] requests[i].0 == peer implies requests[i].1
        <= logs[k][peer] by {
        lemma_run_remembers_accepted(logs, requests, answers, i, k);
    }
    if k > 0 {
        law_log_holds_latest_accepted(logs, requests, answers, k - 1, peer);
        let _ = requests[k - 1];
        if answers[k - 1] && requests[k - 1].0 == peer {
            assert(logs[k][peer] == requests[k - 1].1);
        } else {
            assert(logs[k].contains_key(peer) == logs[k - 1].contains_key(peer));
            if logs[k].contains_key(peer) {
                assert(logs[k][peer] == logs[k - 1][peer]);
                let w = choose|i: int|
                    0 <= i < k - 1 && answers[i] && #[trigger] requests[i].0 == peer && logs[k
                        - 1][peer] == requests[i].1;
                assert(0 <= w < k && answers[w] && requests[w].0 == peer && logs[k][peer]
                    == requests[w].1);
            }
        }
    }
}

/// The milliseconds since the epoch grow with the reading: a later (or equal) reading never
/// gives a smaller count.
pub proof fn law_epoch_millis_monotone(d1: Duration, d2: Duration, m1: u64, m2: u64)
    requires
        duration_nanos(d1) <= duration_nanos(d2),
        epoch_millis_result(Ok(d1), Ok(m1)),
        epoch_millis_result(Ok(d2), Ok(m2)),
    ensures
        m1 <= m2,
{
    vstd::arithmetic::div_mod::lemma_div_is_ordered(
        duration_nanos(d1) as int,
        duration_nanos(d2) as int,
        1_000_000,
    );
}

/// The window check of `WithinDuration` depends only on the distance between the reading and
/// the timestamp: it is symmetric, a timestamp closer to the reading than an accepted one is
/// accepted too, and a wider window accepts whatever a narrower one accepts.
pub proof fn law_window_relations(
    narrow: WithinDuration,
    wide: WithinDuration,
    now: u64,
    timestamp: u64,
    now2: u64,
    timestamp2: u64,
)
    requires
        duration_nanos(narrow.0) <= duration_nanos(wide.0),
    ensures
        narrow.accepts(now, timestamp) == narrow.accepts(timestamp, now),
        narrow.accepts(now, timestamp) && distance(now2, timestamp2) <= distance(now, timestamp)
            ==> narrow.accepts(now2, timestamp2),
        narrow.accepts(now, timestamp) ==> wide.accepts(now, timestamp),
{
    if distance(now2, timestamp2) <= distance(now, timestamp) {
        assert(distance(now2, timestamp2) * 1_000_000 <= distance(now, timestamp) * 1_000_000)
            by (nonlinear_arith)
            requires
                distance(now2, timestamp2) <= distance(now, timestamp),
        ;
    }
}

} // verus!
