use vstd::prelude::*;

verus! {

/// The error that `SystemTime::duration_since` reports when the clock is before the epoch.
#[verifier::external_type_specification]
#[verifier::external_body]
pub struct ExSystemTimeError(std::time::SystemTimeError);

/// Why signing or verifying a request failed.
#[derive(Debug)]
pub enum Error {
    /// The signature did not verify.
    Signature(ed25519_dalek::SignatureError),
    /// The timestamp was refused.
    InvalidTimestamp,
    /// The system clock is before the unix epoch.
    SystemTime(std::time::SystemTimeError),
    /// The number of milliseconds since the epoch does not fit in a `u64`.
    TryFromInt(std::num::TryFromIntError),
}

} // verus!
