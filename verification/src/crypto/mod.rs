use ed25519_dalek::{Signer, SigningKey, Verifier, VerifyingKey};
use vstd::prelude::*;

pub mod peer_id;
pub use peer_id::PeerId;

verus! {

/// The error that `ed25519_dalek` reports when a key or signature is rejected.
#[verifier::external_type_specification]
#[verifier::external_body]
pub struct ExSignatureError(ed25519_dalek::SignatureError);

/// The Ed25519 public key (RFC 8032 encoding) that belongs to a 32-byte secret seed.
pub uninterp spec fn ed25519_public_key(secret: Seq<u8>) -> Seq<u8>;

/// The Ed25519 signature (RFC 8032, deterministic) of `msg` under the secret seed `secret`.
pub uninterp spec fn ed25519_signature(secret: Seq<u8>, msg: Seq<u8>) -> Seq<u8>;

/// Whether `ed25519_dalek` accepts `sig` as a signature of `msg` under the encoded public key
/// `public` (the key decompresses and the verification equation holds).
pub uninterp spec fn ed25519_verifies(public: Seq<u8>, msg: Seq<u8>, sig: Seq<u8>) -> bool;

/// Calls `SigningKey::verifying_key` of `ed25519_dalek` on the key made from `secret`.
/// Claimed: the result is the encoded public key of the seed, a function of the seed alone.
#[verifier::external_body]
fn dalek_public_key(secret: &[u8; 32]) -> (r: [u8; 32])
    ensures
        r@ == ed25519_public_key(secret@),
{
    SigningKey::from_bytes(secret).verifying_key().to_bytes()
}

/// Calls `Signer::sign` of `ed25519_dalek::SigningKey`.
/// Claimed: the signature is a function of the seed and the message (Ed25519 signing is
/// deterministic), and `ed25519_dalek`'s own verification accepts it under the public key of
/// the same seed.
#[verifier::external_body]
fn dalek_sign(secret: &[u8; 32], msg: &[u8]) -> (r: [u8; 64])
    ensures
        r@ == ed25519_signature(secret@, msg@),
        ed25519_verifies(ed25519_public_key(secret@), msg@, r@),
{
    SigningKey::from_bytes(secret).sign(msg).to_bytes()
}

/// Calls `Verifier::verify` of `ed25519_dalek::VerifyingKey`, on the key decoded from `public`.
/// Claimed: it succeeds exactly when the key decodes and the signature verifies, a function of
/// the three byte strings alone. Which error value comes back is left unsaid.
#[verifier::external_body]
fn dalek_verify(
    public: &[u8; 32],
    msg: &[u8],
    sig: &[u8; 64],
) -> (r: Result<(), ed25519_dalek::SignatureError>)
    ensures
        r is Ok <==> ed25519_verifies(public@, msg@, sig@),
{
    match VerifyingKey::from_bytes(public) {
        Ok(key) => key.verify(msg, &ed25519_dalek::Signature::from_bytes(sig)),
        Err(e) => Err(e),
    }
}

/// An Ed25519 signing key, held as its 32-byte secret seed.
#[derive(Clone, Copy)]
pub struct Keypair {
    secret: [u8; 32],
}

/// An Ed25519 public key, held in its 32-byte encoding.
#[derive(Clone, Copy, Debug, PartialEq, Eq)]
pub struct PublicKey {
    bytes: [u8; 32],
}

/// An Ed25519 signature, held in its 64-byte encoding.
#[derive(Clone, Copy, Debug, PartialEq, Eq)]
pub struct Signature {
    bytes: [u8; 64],
}

impl View for Keypair {
    type V = Seq<u8>;

    closed spec fn view(&self) -> Seq<u8> {
        self.secret@
    }
}

impl View for PublicKey {
    type V = Seq<u8>;

    closed spec fn view(&self) -> Seq<u8> {
        self.bytes@
    }
}

impl View for Signature {
    type V = Seq<u8>;

    closed spec fn view(&self) -> Seq<u8> {
        self.bytes@
    }
}

impl Keypair {
    /// The key whose secret seed is `bytes`.
    pub fn from_secret_bytes(bytes: &[u8; 32]) -> (r: Self)
        ensures
            r@ == bytes@,
    {
        Keypair { secret: *bytes }
    }

    /// The secret seed of the key.
    pub fn secret_bytes(&self) -> (r: [u8; 32])
        ensures
            r@ == self@,
    {
        self.secret
    }

    /// Signs `data`.
    pub fn sign(&self, data: &[u8]) -> (r: Signature)
        ensures
            r@ == ed25519_signature(self@, data@),
            ed25519_verifies(ed25519_public_key(self@), data@, r@),
    {
        Signature { bytes: dalek_sign(&self.secret, data) }
    }

    /// The public key of this key.
    pub fn public(&self) -> (r: PublicKey)
        ensures
            r@ == ed25519_public_key(self@),
    {
        PublicKey { bytes: dalek_public_key(&self.secret) }
    }
}

impl PublicKey {
    /// The public key with the 32-byte encoding `bytes`.
    pub fn from_bytes(bytes: [u8; 32]) -> (r: Self)
        ensures
            r@ == bytes@,
    {
        PublicKey { bytes }
    }

    /// The 32-byte encoding of the key.
    pub fn to_bytes(&self) -> (r: [u8; 32])
        ensures
            r@ == self@,
    {
        self.bytes
    }

    /// Verify signature.
    ///
    /// # Errors
    ///
    /// This function will return an error if the verification fails.
    pub fn verify(&self, data: &[u8], signature: &Signature) -> (r: Result<(), crate::error::Error>)
        ensures
            r is Ok <==> ed25519_verifies(self@, data@, signature@),
            r is Err ==> r->Err_0 is Signature,
    {
        match dalek_verify(&self.bytes, data, &signature.bytes) {
            Ok(()) => Ok(()),
            Err(e) => Err(crate::error::Error::Signature(e)),
        }
    }
}

impl Signature {
    /// The signature with the 64-byte encoding `bytes`.
    pub fn from_bytes(bytes: [u8; 64]) -> (r: Self)
        ensures
            r@ == bytes@,
    {
        Signature { bytes }
    }

    /// The 64-byte encoding of the signature.
    pub fn to_bytes(&self) -> (r: [u8; 64])
        ensures
            r@ == self@,
    {
        self.bytes
    }
}

} // verus!
