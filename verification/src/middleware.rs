use vstd::prelude::*;

use crate::auth::{AuthenticatedParams, VerifiedParams};
use crate::crypto::peer_id::PeerId;
use crate::crypto::Keypair;
use crate::rpc::{ErrorCode, RequestId};

verus! {

/// Why the signing side refuses to send a request.
#[derive(Clone, Copy, Debug, PartialEq, Eq)]
pub enum SignFailure {
    /// The params could not be prepared (the clock could not be read).
    Prepare,
    /// The prepared params could not be serialized.
    Serialize,
    /// Batch calls cannot be authenticated.
    BatchUnsupported,
    /// Notifications cannot be authenticated.
    NotificationUnsupported,
}

impl SignFailure {
    /// The message with which the client reports the failure.
    pub fn message(&self) -> (r: &'static str)
        ensures
            r@ == match *self {
                SignFailure::Prepare => "Failed to prepare authenticated params"@,
                SignFailure::Serialize => "Failed to serialize authenticated params"@,
                SignFailure::BatchUnsupported => "Authenticated batch calls are not supported"@,
                SignFailure::NotificationUnsupported =>
                    "Authenticated notifications are not supported"@,
            },
    {
        match self {
            SignFailure::Prepare => "Failed to prepare authenticated params",
            SignFailure::Serialize => "Failed to serialize authenticated params",
            SignFailure::BatchUnsupported => "Authenticated batch calls are not supported",
            SignFailure::NotificationUnsupported => "Authenticated notifications are not supported",
        }
    }
}

/// Client-side middleware: signs each request with the keypair before handing it to the
/// inner service.
pub struct Sign<S> {
    keypair: Keypair,
    inner: S,
}

impl<S> Sign<S> {
    /// The keypair that signs requests.
    pub closed spec fn signing_key(&self) -> Keypair {
        self.keypair
    }

    /// The service that receives the signed requests.
    pub closed spec fn service(&self) -> S {
        self.inner
    }

    /// Middleware that signs with `keypair` and hands requests on to `inner`.
    pub fn new(keypair: Keypair, inner: S) -> (r: Self)
        ensures
            r.signing_key() == keypair,
            r.service() == inner,
    {
        Self { keypair, inner }
    }

    /// The keypair that signs requests.
    pub fn keypair(&self) -> (r: &Keypair)
        ensures
            *r == self.signing_key(),
    {
        &self.keypair
    }

    /// The service that receives the signed requests.
    pub fn inner(&self) -> (r: &S)
        ensures
            *r == self.service(),
    {
        &self.inner
    }

    /// The authenticated params that replace the params of a request with this id and method,
    /// signed at the current time.
    ///
    /// # Errors
    ///
    /// `SignFailure::Prepare` when the clock cannot be read.
    pub fn authenticate(&self, id: &RequestId, method: &str, params: Option<String>) -> (r: Result<
        AuthenticatedParams,
        SignFailure,
    >)
        ensures
            r matches Ok(p) ==> {
                &&& p@.signer == crate::crypto::ed25519_public_key(self.signing_key()@)
                &&& p@.inner == crate::auth::opt_text(params)
                &&& p@.signature == crate::crypto::ed25519_signature(
                    self.signing_key()@,
                    crate::auth::signing_material_of(
                        p@.timestamp,
                        *id,
                        method@,
                        crate::auth::opt_text(params),
                    ),
                )
                &&& p@.signed_for(*id, method@)
            },
            r matches Err(f) ==> f is Prepare,
            exists|reading: Result<u64, crate::error::Error>|
                crate::auth::timestamp::clock_reading(reading) && match reading {
                    Ok(t) => r matches Ok(p) && p@.timestamp == t,
                    Err(_) => r == Err::<AuthenticatedParams, SignFailure>(SignFailure::Prepare),
                },
    {
        let prepared = AuthenticatedParams::prepare_now(&self.keypair, id, method, params);
        let ghost read = choose|reading: Result<u64, crate::error::Error>|
            crate::auth::timestamp::clock_reading(reading) && match reading {
                Ok(t) => prepared matches Ok(p) && p@.timestamp == t,
                Err(e) => prepared == Err::<AuthenticatedParams, crate::error::Error>(e),
            };
        let r = match prepared {
            Ok(p) => Ok(p),
            Err(_) => Err(SignFailure::Prepare),
        };
        assert(crate::auth::timestamp::clock_reading(read) && match read {
            Ok(t) => r matches Ok(p) && p@.timestamp == t,
            Err(_) => r == Err::<AuthenticatedParams, SignFailure>(SignFailure::Prepare),
        });
        r
    }

    /// The answer to a batch call: batches are not signed.
    pub fn batch(&self) -> (r: SignFailure)
        ensures
            r is BatchUnsupported,
    {
        SignFailure::BatchUnsupported
    }

    /// The answer to a notification: notifications are not signed.
    pub fn notification(&self) -> (r: SignFailure)
        ensures
            r is NotificationUnsupported,
    {
        SignFailure::NotificationUnsupported
    }
}

/// Server-side middleware: checks the authenticated params of each request and hands the
/// inner params, with the signer's peer id, on to the inner service.
pub struct Verify<S> {
    inner: S,
}

impl<S> Verify<S> {
    /// The service that receives the checked requests.
    pub closed spec fn service(&self) -> S {
        self.inner
    }

    /// Middleware that checks requests and hands them on to `inner`.
    pub fn new(inner: S) -> (r: Self)
        ensures
            r.service() == inner,
    {
        Self { inner }
    }

    /// The service that receives the checked requests.
    pub fn inner(&self) -> (r: &S)
        ensures
            *r == self.service(),
    {
        &self.inner
    }

    /// What a request with this id and method is answered with at time `now`: `auth` is the
    /// request's params read as authenticated params (`None` where they are not). The request
    /// goes on, with the inner params and the signer's peer id, when the timestamp is at most
    /// five seconds from `now` and the signature verifies; otherwise it is refused as invalid.
    pub fn check_at(
        &self,
        auth: Option<AuthenticatedParams>,
        id: &RequestId,
        method: &str,
        now: u64,
    ) -> (r: Result<VerifiedParams, ErrorCode>)
        ensures
            r is Ok <==> (auth matches Some(a) && crate::auth::timestamp::distance(
                now,
                a@.timestamp,
            ) <= crate::auth::MAX_TIMESTAMP_SKEW_MILLIS && a@.signed_for(*id, method@)),
            r matches Ok(v) ==> auth matches Some(a) && v.peer@
                == crate::crypto::peer_id::peer_id_of_key(a@.signer) && crate::auth::opt_text(
                v.inner,
            ) == a@.inner,
            r matches Err(c) ==> c is InvalidRequest,
    {
        match auth {
            None => Err(ErrorCode::InvalidRequest),
            Some(a) => match a.verify_at(id, method, now) {
                Ok(()) => {
                    let peer = PeerId::from_public_key(a.signer());
                    Ok(VerifiedParams { peer, inner: a.into_inner() })
                },
                Err(_) => Err(ErrorCode::InvalidRequest),
            },
        }
    }

    /// What a request with this id and method is answered with now, as `check_at` says for
    /// the current time; refused as invalid when the clock cannot be read.
    pub fn check(&self, auth: Option<AuthenticatedParams>, id: &RequestId, method: &str) -> (r:
        Result<VerifiedParams, ErrorCode>)
        ensures
            r matches Ok(v) ==> auth matches Some(a) && a@.signed_for(*id, method@) && v.peer@
                == crate::crypto::peer_id::peer_id_of_key(a@.signer) && crate::auth::opt_text(
                v.inner,
            ) == a@.inner,
            r matches Err(c) ==> c is InvalidRequest,
            auth is None ==> r is Err,
            auth matches Some(a) ==> exists|reading: Result<u64, crate::error::Error>|
                crate::auth::timestamp::clock_reading(reading) && match reading {
                    Ok(now) => (r is Ok <==> crate::auth::timestamp::distance(now, a@.timestamp)
                        <= crate::auth::MAX_TIMESTAMP_SKEW_MILLIS && a@.signed_for(*id, method@)),
                    Err(_) => r is Err,
                },
    {
        match auth {
            None => Err(ErrorCode::InvalidRequest),
            Some(a) => {
                let ghost av = a@;
                let verdict = a.verify_now(id, method);
                let ghost read = choose|reading: Result<u64, crate::error::Error>|
                    crate::auth::timestamp::clock_reading(reading) && match reading {
                        Ok(now) => crate::auth::verify_at_outcome(av, *id, method@, now, verdict),
                        Err(e) => verdict == Err::<(), crate::error::Error>(e),
                    };
                let r = match verdict {
                    Ok(()) => {
                        let peer = PeerId::from_public_key(a.signer());
                        Ok(VerifiedParams { peer, inner: a.into_inner() })
                    },
                    Err(_) => Err(ErrorCode::InvalidRequest),
                };
                assert(crate::auth::timestamp::clock_reading(read) && match read {
                    Ok(now) => (r is Ok <==> crate::auth::timestamp::distance(now, av.timestamp)
                        <= crate::auth::MAX_TIMESTAMP_SKEW_MILLIS && av.signed_for(*id, method@)),
                    Err(_) => r is Err,
                });
                r
            },
        }
    }

    /// The answer to a batch call: an internal error, with a null id.
    pub fn batch(&self) -> (r: ErrorCode)
        ensures
            r is InternalError,
    {
        ErrorCode::InternalError
    }

    /// The answer to a notification: an internal error, with a null id.
    pub fn notification(&self) -> (r: ErrorCode)
        ensures
            r is InternalError,
    {
        ErrorCode::InternalError
    }
}

} // verus!
