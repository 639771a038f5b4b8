use vstd::prelude::*;

use crate::crypto::peer_id::PeerId;
use crate::crypto::{Keypair, PublicKey, Signature};
use crate::error::Error;
use crate::rpc::RequestId;

pub mod timestamp;
pub use timestamp::VerifyTimestamp;

verus! {

/// The eight bytes of `v`, most significant first (`u64::to_be_bytes`).
pub open spec fn be_bytes(v: u64) -> Seq<u8> {
    seq![
        (v >> 56u64) as u8,
        (v >> 48u64) as u8,
        (v >> 40u64) as u8,
        (v >> 32u64) as u8,
        (v >> 24u64) as u8,
        (v >> 16u64) as u8,
        (v >> 8u64) as u8,
        v as u8,
    ]
}

/// The text of optional raw JSON, as UTF-8 bytes; nothing for no params.
pub open spec fn params_bytes(params: Option<Seq<char>>) -> Seq<u8> {
    match params {
        Some(text) => vstd::utf8::encode_utf8(text),
        None => Seq::empty(),
    }
}

/// The optional text held by an optional string.
pub open spec fn opt_text(o: Option<String>) -> Option<Seq<char>> {
    match o {
        Some(s) => Some(s@),
        None => None,
    }
}

/// What is signed for a request: the text of the request id, the timestamp in big-endian
/// order, the method name and the raw JSON params (nothing when there are none).
pub open spec fn signing_material_of(
    timestamp: u64,
    id: RequestId,
    method: Seq<char>,
    params: Option<Seq<char>>,
) -> Seq<u8> {
    crate::rpc::request_id_bytes(id) + be_bytes(timestamp) + vstd::utf8::encode_utf8(method)
        + params_bytes(params)
}

/// The content of authenticated params.
pub struct ParamsView {
    pub signer: Seq<u8>,
    pub signature: Seq<u8>,
    pub timestamp: u64,
    pub inner: Option<Seq<char>>,
}

impl ParamsView {
    /// What these params sign for a request with this id and method.
    pub open spec fn material(self, id: RequestId, method: Seq<char>) -> Seq<u8> {
        signing_material_of(self.timestamp, id, method, self.inner)
    }

    /// The signature verifies under the signer's key for a request with this id and method.
    pub open spec fn signed_for(self, id: RequestId, method: Seq<char>) -> bool {
        crate::crypto::ed25519_verifies(self.signer, self.material(id, method), self.signature)
    }

    /// `verify_at` accepts these params for a request with this id and method at time `now`:
    /// the timestamp is at most five seconds away and the signature verifies.
    pub open spec fn accepted_at(self, id: RequestId, method: Seq<char>, now: u64) -> bool {
        timestamp::distance(now, self.timestamp) <= MAX_TIMESTAMP_SKEW_MILLIS && self.signed_for(
            id,
            method,
        )
    }
}

/// What `verify_at` answers for params with this content, for a request with this id and
/// method, at time `now`: `Ok` exactly when they are accepted; `InvalidTimestamp` exactly when
/// the timestamp is more than five seconds away; `Signature` otherwise.
pub open spec fn verify_at_outcome(
    params: ParamsView,
    id: RequestId,
    method: Seq<char>,
    now: u64,
    r: Result<(), Error>,
) -> bool {
    &&& (r is Ok <==> params.accepted_at(id, method, now))
    &&& (r matches Err(e) ==> (e is InvalidTimestamp <==> timestamp::distance(now, params.timestamp)
        > MAX_TIMESTAMP_SKEW_MILLIS))
    &&& (r matches Err(e) ==> (e is InvalidTimestamp || e is Signature))
}

/// The longest distance, in milliseconds, between the timestamp and the time of verification
/// that `verify_at` accepts (five seconds).
pub const MAX_TIMESTAMP_SKEW_MILLIS: u64 = 5000;

/// Request params with the signer's key, a signature over the request and a timestamp.
#[derive(Debug, Clone)]
pub struct AuthenticatedParams {
    pub(crate) signer: PublicKey,
    pub(crate) signature: Signature,
    pub(crate) timestamp: u64,
    pub(crate) inner: Option<String>,
}

impl View for AuthenticatedParams {
    type V = ParamsView;

    closed spec fn view(&self) -> ParamsView {
        ParamsView {
            signer: self.signer@,
            signature: self.signature@,
            timestamp: self.timestamp,
            inner: opt_text(self.inner),
        }
    }
}

/// Params whose signature and timestamp were accepted, with the peer id of the signer.
#[derive(Debug, Clone)]
pub struct VerifiedParams {
    pub peer: PeerId,
    pub inner: Option<String>,
}

fn signing_material(
    ts: u64,
    id: &RequestId,
    method: &str,
    params: Option<&String>,
) -> (r: Vec<u8>)
    ensures
        r@ == signing_material_of(
            ts,
            *id,
            method@,
            match params {
                Some(p) => Some(p@),
                None => None,
            },
        ),
{
    let mut out = id.text_bytes();
    let ghost id_bytes = out@;
    out.push((ts >> 56u64) as u8);
    out.push((ts >> 48u64) as u8);
    out.push((ts >> 40u64) as u8);
    out.push((ts >> 32u64) as u8);
    out.push((ts >> 24u64) as u8);
    out.push((ts >> 16u64) as u8);
    out.push((ts >> 8u64) as u8);
    out.push(ts as u8);
    assert(out@ =~= id_bytes + be_bytes(ts));
    let ghost before_method = out@;
    out.extend_from_slice(method.as_bytes());
    assert(out@ =~= before_method + vstd::utf8::encode_utf8(method@));
    let ghost before_params = out@;
    match params {
        Some(p) => {
            out.extend_from_slice(p.as_str().as_bytes());
            assert(out@ =~= before_params + vstd::utf8::encode_utf8(p@));
        },
        None => {
            assert(out@ =~= before_params + Seq::<u8>::empty());
        },
    }
    out
}

impl AuthenticatedParams {
    /// Params with the given parts.
    pub fn from_parts(
        signer: PublicKey,
        signature: Signature,
        timestamp: u64,
        inner: Option<String>,
    ) -> (r: Self)
        ensures
            r@ == (ParamsView {
                signer: signer@,
                signature: signature@,
                timestamp,
                inner: opt_text(inner),
            }),
    {
        AuthenticatedParams { signer, signature, timestamp, inner }
    }

    /// The public key of the signer.
    pub fn signer(&self) -> (r: PublicKey)
        ensures
            r@ == self@.signer,
    {
        self.signer
    }

    /// The signature.
    pub fn signature(&self) -> (r: Signature)
        ensures
            r@ == self@.signature,
    {
        self.signature
    }

    /// The timestamp, in milliseconds since the unix epoch.
    pub fn timestamp(&self) -> (r: u64)
        ensures
            r == self@.timestamp,
    {
        self.timestamp
    }

    /// The raw JSON params of the request, if any.
    pub fn inner(&self) -> (r: &Option<String>)
        ensures
            opt_text(*r) == self@.inner,
    {
        &self.inner
    }

    /// The raw JSON params of the request, if any, taking the params apart.
    pub fn into_inner(self) -> (r: Option<String>)
        ensures
            opt_text(r) == self@.inner,
    {
        self.inner
    }

    /// Prepare authenticated params at a given timestamp.
    #[must_use]
    pub fn prepare(
        keypair: &Keypair,
        id: &RequestId,
        method: &str,
        params: Option<String>,
        now: u64,
    ) -> (r: Self)
        ensures
            r@.signer == crate::crypto::ed25519_public_key(keypair@),
            r@.timestamp == now,
            r@.inner == opt_text(params),
            r@.signature == crate::crypto::ed25519_signature(
                keypair@,
                signing_material_of(now, *id, method@, opt_text(params)),
            ),
            r@.signed_for(*id, method@),
    {
        let signing_metarial = signing_material(now, id, method, params.as_ref());
        let signature = keypair.sign(signing_metarial.as_slice());
        AuthenticatedParams { signer: keypair.public(), signature, timestamp: now, inner: params }
    }

    /// Prepare authenticated params using the current `SystemTime`.
    ///
    /// # Errors
    ///
    /// This function will return an error if current timpestamp generation fails.
    pub fn prepare_now(
        keypair: &Keypair,
        id: &RequestId,
        method: &str,
        params: Option<String>,
    ) -> (r: Result<Self, Error>)
        ensures
            r matches Ok(p) ==> {
                &&& p@.signer == crate::crypto::ed25519_public_key(keypair@)
                &&& p@.inner == opt_text(params)
                &&& p@.signature == crate::crypto::ed25519_signature(
                    keypair@,
                    signing_material_of(p@.timestamp, *id, method@, opt_text(params)),
                )
                &&& p@.signed_for(*id, method@)
            },
            r matches Err(e) ==> e is SystemTime || e is TryFromInt,
            exists|reading: Result<u64, Error>|
                timestamp::clock_reading(reading) && match reading {
                    Ok(t) => r matches Ok(p) && p@.timestamp == t,
                    Err(e) => r == Err::<Self, Error>(e),
                },
    {
        let reading = timestamp::now();
        let ghost read = reading;
        let r = match reading {
            Ok(now) => Ok(Self::prepare(keypair, id, method, params, now)),
            Err(e) => Err(e),
        };
        assert(timestamp::clock_reading(read) && match read {
            Ok(t) => r matches Ok(p) && p@.timestamp == t,
            Err(e) => r == Err::<Self, Error>(e),
        });
        r
    }

    /// Verify authenticated params, then hand the signer's peer id and the timestamp to
    /// `verify_timestamp`. The timestamp policy is consulted only for a valid signature.
    ///
    /// # Errors
    ///
    /// This function will return an error if the signature or timestamp verification fails.
    pub fn verify<VT: VerifyTimestamp>(
        self,
        id: &RequestId,
        method: &str,
        verify_timestamp: &mut VT,
    ) -> (r: Result<VerifiedParams, Error>)
        ensures
            r matches Err(Error::Signature(_)) <==> !self@.signed_for(*id, method@),
            !self@.signed_for(*id, method@) ==> *final(verify_timestamp) == *old(verify_timestamp),
            r is Ok || r matches Err(Error::Signature(_)) || r matches Err(Error::InvalidTimestamp),
            r matches Ok(v) ==> v.peer@ == crate::crypto::peer_id::peer_id_of_key(self@.signer)
                && opt_text(v.inner) == self@.inner,
            self@.signed_for(*id, method@) ==> exists|accepted: bool|
                VT::verify_outcome(
                    *old(verify_timestamp),
                    crate::crypto::peer_id::peer_id_of_key(self@.signer),
                    self@.timestamp,
                    accepted,
                    *final(verify_timestamp),
                ) && (r is Ok <==> accepted),
    {
        let signing_metarial = signing_material(
            self.timestamp,
            id,
            method,
            self.inner.as_ref(),
        );
        match self.signer.verify(signing_metarial.as_slice(), &self.signature) {
            Ok(()) => {},
            Err(e) => return Err(e),
        }
        let peer = PeerId::from_public_key(self.signer);
        let accepted = verify_timestamp.verify(&peer, self.timestamp);
        if !accepted {
            return Err(Error::InvalidTimestamp);
        }
        Ok(VerifiedParams { peer, inner: self.inner })
    }

    /// Verify authenticated params at a given time: the timestamp must be at most five seconds
    /// away from `now`, and the signature must verify.
    ///
    /// # Errors
    ///
    /// This function will return an error if the signature or timestamp verification fails.
    pub fn verify_at(&self, id: &RequestId, method: &str, now: u64) -> (r: Result<(), Error>)
        ensures
            verify_at_outcome(self@, *id, method@, now, r),
    {
        // `Duration::from_millis(d) > Duration::from_secs(5)` holds exactly when d > 5000.
        if timestamp::abs_diff(now, self.timestamp) > MAX_TIMESTAMP_SKEW_MILLIS {
            return Err(Error::InvalidTimestamp);
        }
        let signing_metarial = signing_material(
            self.timestamp,
            id,
            method,
            self.inner.as_ref(),
        );
        self.signer.verify(signing_metarial.as_slice(), &self.signature)
    }

    /// Verify authenticated params using the current `SystemTime`.
    ///
    /// # Errors
    ///
    /// This function will return an error if the signature or timestamp verification fails.
    pub fn verify_now(&self, id: &RequestId, method: &str) -> (r: Result<(), Error>)
        ensures
            exists|reading: Result<u64, Error>|
                timestamp::clock_reading(reading) && match reading {
                    Ok(now) => verify_at_outcome(self@, *id, method@, now, r),
                    Err(e) => r == Err::<(), Error>(e),
                },
            r is Ok ==> self@.signed_for(*id, method@),
            r matches Err(Error::Signature(_)) ==> !self@.signed_for(*id, method@),
    {
        let reading = timestamp::now();
        let ghost read = reading;
        let r = match reading {
            Ok(now) => self.verify_at(id, method, now),
            Err(e) => Err(e),
        };
        assert(timestamp::clock_reading(read) && match read {
            Ok(now) => verify_at_outcome(self@, *id, method@, now, r),
            Err(e) => r == Err::<(), Error>(e),
        });
        r
    }
}

/// Params signed for a request are accepted for that request at any time at most five seconds
/// from their timestamp, whichever side of it.
pub proof fn law_signed_params_accepted_within_window(
    params: ParamsView,
    id: RequestId,
    method: Seq<char>,
    now: u64,
)
    requires
        params.signed_for(id, method),
        timestamp::distance(now, params.timestamp) <= MAX_TIMESTAMP_SKEW_MILLIS,
    ensures
        params.accepted_at(id, method, now),
{
}

/// Params are refused at any time more than five seconds from their timestamp, whatever their
/// signature.
pub proof fn law_stale_params_refused(params: ParamsView, id: RequestId, method: Seq<char>, now: u64)
    requires
        timestamp::distance(now, params.timestamp) > MAX_TIMESTAMP_SKEW_MILLIS,
    ensures
        !params.accepted_at(id, method, now),
{
}

/// The signed material determines the timestamp, the id's text, the method and the params'
/// text in a fixed layout: the id's text comes first, the timestamp's eight bytes follow it.
pub proof fn law_material_layout(timestamp: u64, id: RequestId, method: Seq<char>, params: Option<
    Seq<char>,
>)
    ensures
        ({
            let m = signing_material_of(timestamp, id, method, params);
            let n = crate::rpc::request_id_bytes(id).len();
            &&& m.subrange(0, n as int) == crate::rpc::request_id_bytes(id)
            &&& m.subrange(n as int, n + 8int) == be_bytes(timestamp)
            &&& m.len() == n + 8 + vstd::utf8::encode_utf8(method).len() + params_bytes(params).len()
        }),
{
    let m = signing_material_of(timestamp, id, method, params);
    let n = crate::rpc::request_id_bytes(id).len();
    assert(m.subrange(0, n as int) =~= crate::rpc::request_id_bytes(id));
    assert(m.subrange(n as int, n + 8int) =~= be_bytes(timestamp));
}

/// Acceptance by `verify_at` depends on the time only through its distance to the timestamp:
/// params accepted at one time are accepted at any time at most as far from their timestamp.
pub proof fn law_accepted_closer_in_time(
    params: ParamsView,
    id: RequestId,
    method: Seq<char>,
    now: u64,
    closer: u64,
)
    requires
        params.accepted_at(id, method, now),
        timestamp::distance(closer, params.timestamp) <= timestamp::distance(now, params.timestamp),
    ensures
        params.accepted_at(id, method, closer),
{
}

} // verus!
