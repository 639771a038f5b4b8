use bs58::decode::Error as Base58DecodeError;
use multihash::Error as MultihashError;
use quick_protobuf::Error as ProtobufError;
use quick_protobuf::Writer;
use sha2::Digest;
use vstd::prelude::*;

use super::PublicKey;

verus! {

/// The error that `bs58` reports for text that is not base-58.
#[verifier::external_type_specification]
#[verifier::external_body]
pub struct ExBase58DecodeError(Base58DecodeError);

/// The error that `multihash` reports for bytes that are not a multihash.
#[verifier::external_type_specification]
#[verifier::external_body]
pub struct ExMultihashError(MultihashError);

/// The error that `quick_protobuf` reports when a write fails.
#[verifier::external_type_specification]
#[verifier::external_body]
pub struct ExProtobufError(ProtobufError);

/// Public keys whose protobuf encoding is at most this long are inlined in the peer id.
pub const MAX_INLINE_KEY_LENGTH: usize = 42;

/// Multihash code of the identity "hash".
pub const MULTIHASH_IDENTITY_CODE: u64 = 0;

/// Multihash code of SHA-256.
pub const MULTIHASH_SHA256_CODE: u64 = 0x12;

/// Largest digest that a multihash can hold here.
pub const MULTIHASH_MAX_DIGEST: usize = 64;

/// The unsigned LEB128 varint encoding of `v`: seven bits per byte, least significant
/// group first, the high bit set on every byte but the last.
pub open spec fn varint(v: nat) -> Seq<u8>
    decreases v,
{
    if v < 128 {
        seq![v as u8]
    } else {
        seq![(v % 128 + 128) as u8] + varint(v / 128)
    }
}

/// The binary form of a multihash: the code and the digest length as varints, then the digest.
pub open spec fn multihash_bytes(code: u64, digest: Seq<u8>) -> Seq<u8> {
    varint(code as nat) + varint(digest.len()) + digest
}

/// What `multihash::Multihash::<64>::from_bytes` reads from `data`: its code and digest, or
/// `None` where it reports an error.
pub uninterp spec fn multihash_parse(data: Seq<u8>) -> Option<(u64, Seq<u8>)>;

/// The SHA-256 digest of `data`.
pub uninterp spec fn sha256(data: Seq<u8>) -> Seq<u8>;

/// The base-58 text (Bitcoin alphabet) that `bs58::encode` makes of `data`.
pub uninterp spec fn base58_encode(data: Seq<u8>) -> Seq<char>;

/// What `bs58::decode` makes of `text`: the bytes, or `None` where it reports an error.
pub uninterp spec fn base58_decode(text: Seq<char>) -> Option<Seq<u8>>;

/// Calls `Writer::write_tag` of `quick_protobuf` on a writer over `buf`.
/// Claimed: writing into a `Vec` always succeeds and appends the varint encoding of `tag`.
#[verifier::external_body]
fn protobuf_write_tag(buf: &mut Vec<u8>, tag: u32) -> (r: Result<(), ProtobufError>)
    ensures
        r is Ok,
        final(buf)@ == old(buf)@ + varint(tag as nat),
{
    Writer::new(buf).write_tag(tag)
}

/// Calls `Writer::write_enum` of `quick_protobuf` on a writer over `buf`.
/// Claimed: writing into a `Vec` always succeeds and appends the varint encoding of the value
/// taken as a `u64` (two's complement for negative values).
#[verifier::external_body]
fn protobuf_write_enum(buf: &mut Vec<u8>, v: i32) -> (r: Result<(), ProtobufError>)
    ensures
        r is Ok,
        final(buf)@ == old(buf)@ + varint((v as u64) as nat),
{
    Writer::new(buf).write_enum(v)
}

/// Calls `Writer::write_bytes` of `quick_protobuf` on a writer over `buf`.
/// Claimed: writing into a `Vec` always succeeds and appends the varint length, then the bytes.
#[verifier::external_body]
fn protobuf_write_bytes(buf: &mut Vec<u8>, bytes: &[u8]) -> (r: Result<(), ProtobufError>)
    ensures
        r is Ok,
        final(buf)@ == old(buf)@ + varint(bytes@.len()) + bytes@,
{
    Writer::new(buf).write_bytes(bytes)
}

/// Calls `Digest::digest` of `sha2::Sha256`.
/// Claimed: the result is the SHA-256 digest of `data`, 32 bytes long.
#[verifier::external_body]
fn sha256_digest(data: &[u8]) -> (r: Vec<u8>)
    ensures
        r@ == sha256(data@),
        r@.len() == 32,
{
    sha2::Sha256::digest(data).to_vec()
}

/// Calls `bs58::encode(..).into_string()`.
/// Claimed: the result is the base-58 text of `data`, and `bs58::decode` gives `data` back.
#[verifier::external_body]
fn base58_encode_bytes(data: &[u8]) -> (r: String)
    ensures
        r@ == base58_encode(data@),
        base58_decode(r@) == Some(data@),
{
    bs58::encode(data).into_string()
}

/// Calls `bs58::decode(..).into_vec()`.
/// Claimed: it succeeds exactly when the text decodes, with the decoded bytes. Which error
/// value comes back is left unsaid.
#[verifier::external_body]
fn base58_decode_text(text: &str) -> (r: Result<Vec<u8>, Base58DecodeError>)
    ensures
        r is Ok <==> base58_decode(text@) is Some,
        r matches Ok(v) ==> base58_decode(text@) == Some(v@),
{
    bs58::decode(text).into_vec()
}

/// Calls `multihash::Multihash::<64>::wrap` and hands back the code and digest it holds.
/// Claimed: it succeeds exactly when the digest is at most 64 bytes, and keeps both values.
#[verifier::external_body]
fn multihash_wrap(code: u64, digest: &[u8]) -> (r: Result<(u64, Vec<u8>), MultihashError>)
    ensures
        r is Ok <==> digest@.len() <= 64,
        r matches Ok((c, d)) ==> c == code && d@ == digest@,
{
    match multihash::Multihash::<64>::wrap(code, digest) {
        Ok(m) => Ok((m.code(), m.digest().to_vec())),
        Err(e) => Err(e),
    }
}

/// Calls `multihash::Multihash::<64>::to_bytes` on the multihash with the given parts.
/// Claimed: the bytes are the varint code, the varint digest length and the digest, and
/// `Multihash::from_bytes` reads the same code and digest back from them.
#[verifier::external_body]
fn multihash_to_bytes(code: u64, digest: &[u8]) -> (r: Vec<u8>)
    requires
        digest@.len() <= 64,
    ensures
        r@ == multihash_bytes(code, digest@),
        multihash_parse(r@) == Some((code, digest@)),
{
    multihash::Multihash::<64>::wrap(code, digest).expect("the digest fits 64 bytes").to_bytes()
}

/// Whether `data` is the binary form of some multihash that holds at most 64 digest bytes.
pub open spec fn is_multihash_encoding(data: Seq<u8>) -> bool {
    exists|code: u64, digest: Seq<u8>|
        digest.len() <= 64 && #[trigger] multihash_bytes(code, digest) == data
}

/// Calls `multihash::Multihash::<64>::from_bytes` and hands back the code and digest read.
/// Claimed: the outcome is `multihash_parse` of the bytes, a digest read is at most 64 bytes
/// long, and the binary form of a multihash is read back as that multihash. Which error value
/// comes back is left unsaid, and so is what is read from bytes that are no such binary form
/// (the varint reader keeps only the low 64 bits of a ten-byte varint).
#[verifier::external_body]
fn multihash_from_bytes(data: &[u8]) -> (r: Result<(u64, Vec<u8>), MultihashError>)
    ensures
        r is Ok <==> multihash_parse(data@) is Some,
        r matches Ok((c, d)) ==> multihash_parse(data@) == Some((c, d@)) && d@.len() <= 64,
        r is Ok || !is_multihash_encoding(data@),
        r matches Ok((c, d)) ==> forall|code: u64, digest: Seq<u8>|
            #[trigger] multihash_bytes(code, digest) == data@ && digest.len() <= 64 ==> c == code
                && d@ == digest,
{
    match multihash::Multihash::<64>::from_bytes(data) {
        Ok(m) => Ok((m.code(), m.digest().to_vec())),
        Err(e) => Err(e),
    }
}

/// A self-describing hash: a code naming the hash function, and the digest.
#[derive(Debug, Eq, Hash)]
pub struct Multihash {
    code: u64,
    digest: Vec<u8>,
}

impl View for Multihash {
    type V = (u64, Seq<u8>);

    closed spec fn view(&self) -> (u64, Seq<u8>) {
        (self.code, self.digest@)
    }
}

fn bytes_equal(a: &[u8], b: &[u8]) -> (r: bool)
    ensures
        r == (a@ == b@),
{
    if a.len() != b.len() {
        return false;
    }
    let mut i: usize = 0;
    while i < a.len()
        invariant
            a@.len() == b@.len(),
            i <= a@.len(),
            a@.subrange(0, i as int) == b@.subrange(0, i as int),
        decreases a@.len() - i,
    {
        if a[i] != b[i] {
            assert(a@[i as int] != b@[i as int]);
            return false;
        }
        assert(a@.subrange(0, i + 1) =~= a@.subrange(0, i as int).push(a@[i as int]));
        assert(b@.subrange(0, i + 1) =~= b@.subrange(0, i as int).push(b@[i as int]));
        i = i + 1;
    }
    assert(a@ =~= a@.subrange(0, i as int));
    assert(b@ =~= b@.subrange(0, i as int));
    true
}

impl PartialEq for Multihash {
    fn eq(&self, other: &Self) -> (r: bool) {
        self.code == other.code && bytes_equal(self.digest.as_slice(), other.digest.as_slice())
    }
}

impl vstd::std_specs::cmp::PartialEqSpecImpl for Multihash {
    open spec fn obeys_eq_spec() -> bool {
        true
    }

    open spec fn eq_spec(&self, other: &Multihash) -> bool {
        self@ == other@
    }
}

impl Clone for Multihash {
    fn clone(&self) -> (r: Self)
        ensures
            r@ == self@,
    {
        proof { use_type_invariant(self); }
        Multihash { code: self.code, digest: self.digest.clone() }
    }
}

impl Multihash {
    /// The digest fits the 64 bytes that a multihash holds.
    pub open spec fn wf(&self) -> bool {
        self@.1.len() <= 64
    }

    #[verifier::type_invariant]
    spec fn digest_fits(&self) -> bool {
        self.digest@.len() <= 64
    }

    /// Wraps the digest in a multihash.
    ///
    /// # Errors
    ///
    /// Fails when the digest is longer than 64 bytes.
    pub fn wrap(code: u64, digest: &[u8]) -> (r: Result<Multihash, MultihashError>)
        ensures
            r is Ok <==> digest@.len() <= 64,
            r matches Ok(m) ==> m@ == (code, digest@) && m.wf(),
    {
        match multihash_wrap(code, digest) {
            Ok((c, d)) => Ok(Multihash { code: c, digest: d }),
            Err(e) => Err(e),
        }
    }

    /// The code of the multihash.
    pub fn code(&self) -> (r: u64)
        ensures
            r == self@.0,
    {
        self.code
    }

    /// The digest.
    pub fn digest(&self) -> (r: &[u8])
        ensures
            r@ == self@.1,
    {
        self.digest.as_slice()
    }

    /// The bytes of the multihash.
    pub fn to_bytes(&self) -> (r: Vec<u8>)
        ensures
            r@ == multihash_bytes(self@.0, self@.1),
            multihash_parse(r@) == Some(self@),
    {
        proof { use_type_invariant(self); }
        multihash_to_bytes(self.code, self.digest.as_slice())
    }

    /// Parses a multihash from bytes, which must hold exactly one multihash.
    ///
    /// # Errors
    ///
    /// Fails where `multihash` does not read a multihash of all the bytes.
    pub fn from_bytes(data: &[u8]) -> (r: Result<Multihash, MultihashError>)
        ensures
            r is Ok <==> multihash_parse(data@) is Some,
            r matches Ok(m) ==> multihash_parse(data@) == Some(m@) && m.wf(),
            is_multihash_encoding(data@) ==> (r matches Ok(m) && multihash_bytes(m@.0, m@.1)
                == data@),
    {
        let read = multihash_from_bytes(data);
        proof {
            if is_multihash_encoding(data@) {
                let (code, digest) = choose|code: u64, digest: Seq<u8>|
                    digest.len() <= 64 && #[trigger] multihash_bytes(code, digest) == data@;
                assert(multihash_bytes(code, digest) == data@);
            }
        }
        match read {
            Ok((c, d)) => Ok(Multihash { code: c, digest: d }),
            Err(e) => Err(e),
        }
    }
}

/// Why text or bytes are not a peer id.
#[derive(Debug)]
pub enum ParseError {
    /// The text is not base-58.
    B58(Base58DecodeError),
    /// The multihash code is not one that a peer id uses.
    UnsupportedCode(u64),
    /// The bytes are not a multihash.
    InvalidMultihash(MultihashError),
}

/// The protobuf encoding of an Ed25519 public key as libp2p writes it: field 1 (the key type)
/// holding the enum value 1, then field 2 holding the 32 key bytes.
pub open spec fn ed25519_key_protobuf(key: Seq<u8>) -> Seq<u8> {
    seq![8u8, 1u8, 18u8, 32u8] + key
}

/// Whether a peer id may hold a multihash with this code and digest: a SHA-256 hash, or an
/// inlined key of at most 42 bytes.
pub open spec fn supported_multihash(code: u64, digest: Seq<u8>) -> bool {
    code == MULTIHASH_SHA256_CODE || (code == MULTIHASH_IDENTITY_CODE && digest.len()
        <= MAX_INLINE_KEY_LENGTH)
}

/// The peer id of an Ed25519 public key: its protobuf encoding, inlined (it is 36 bytes long).
pub open spec fn peer_id_of_key(key: Seq<u8>) -> (u64, Seq<u8>) {
    (MULTIHASH_IDENTITY_CODE, ed25519_key_protobuf(key))
}

/// The peer id read from bytes, or `None` where `PeerId::from_bytes` fails.
pub open spec fn peer_id_parse(data: Seq<u8>) -> Option<(u64, Seq<u8>)> {
    match multihash_parse(data) {
        Some((code, digest)) => if supported_multihash(code, digest) {
            Some((code, digest))
        } else {
            None
        },
        None => None,
    }
}

/// The peer id read from base-58 text, or `None` where `PeerId::from_str` fails.
pub open spec fn peer_id_parse_text(text: Seq<char>) -> Option<(u64, Seq<u8>)> {
    match base58_decode(text) {
        Some(bytes) => peer_id_parse(bytes),
        None => None,
    }
}

/// The error that `PeerId::from_bytes` gives for `data`: `InvalidMultihash` where the bytes
/// are not a multihash, `UnsupportedCode` with the code where the multihash is not one that a
/// peer id may hold.
pub open spec fn bytes_parse_error(data: Seq<u8>, e: ParseError) -> bool {
    match e {
        ParseError::InvalidMultihash(_) => multihash_parse(data) is None,
        ParseError::UnsupportedCode(c) => multihash_parse(data) matches Some((code, digest)) && c
            == code && !supported_multihash(code, digest),
        ParseError::B58(_) => false,
    }
}

/// The error that `PeerId::from_str` gives for `text`: `B58` where the text is not base-58,
/// otherwise the error that `from_bytes` gives for the decoded bytes.
pub open spec fn text_parse_error(text: Seq<char>, e: ParseError) -> bool {
    match e {
        ParseError::B58(_) => base58_decode(text) is None,
        _ => base58_decode(text) matches Some(bytes) && bytes_parse_error(bytes, e),
    }
}

fn encode_ed25519(pubkey_bytes: &[u8; 32]) -> (r: Vec<u8>)
    ensures
        r@ == ed25519_key_protobuf(pubkey_bytes@),
{
    let mut buf = Vec::new();
    // Field 1: tag (1 << 3) | 0 = 8, the enum variant 1 for Ed25519.
    protobuf_write_tag(&mut buf, 8).expect("could write enum variant");
    protobuf_write_enum(&mut buf, 1).expect("could write enum variant");
    // Field 2: tag (2 << 3) | 2 = 18, the 32 key bytes.
    protobuf_write_tag(&mut buf, 18).expect("could write all 32 bytes of public key");
    protobuf_write_bytes(&mut buf, pubkey_bytes.as_slice()).expect(
        "could write all 32 bytes of public key",
    );
    assert(varint(8) == seq![8u8]);
    assert(varint(1) == seq![1u8]);
    assert(varint(18) == seq![18u8]);
    assert(varint(32) == seq![32u8]);
    assert(buf@ =~= ed25519_key_protobuf(pubkey_bytes@));
    buf
}

/// The id of a peer: a multihash of its public key.
#[derive(Debug, Eq, Hash)]
pub struct PeerId(Multihash);

impl View for PeerId {
    type V = (u64, Seq<u8>);

    closed spec fn view(&self) -> (u64, Seq<u8>) {
        self.0@
    }
}

impl PartialEq for PeerId {
    fn eq(&self, other: &Self) -> (r: bool) {
        self.0 == other.0
    }
}

impl vstd::std_specs::cmp::PartialEqSpecImpl for PeerId {
    open spec fn obeys_eq_spec() -> bool {
        true
    }

    open spec fn eq_spec(&self, other: &PeerId) -> bool {
        self@ == other@
    }
}

impl Clone for PeerId {
    fn clone(&self) -> (r: Self)
        ensures
            r@ == self@,
    {
        proof { use_type_invariant(self); }
        PeerId(self.0.clone())
    }
}

impl PeerId {
    /// The multihash is one that a peer id may hold.
    pub open spec fn wf(&self) -> bool {
        supported_multihash(self@.0, self@.1) && self@.1.len() <= 64
    }

    #[verifier::type_invariant]
    spec fn holds_supported_multihash(&self) -> bool {
        supported_multihash(self.0.code, self.0.digest@)
    }


    /// The bytes of the peer id (of its multihash).
    #[must_use]
    pub fn to_bytes(&self) -> (r: Vec<u8>)
        ensures
            r@ == multihash_bytes(self@.0, self@.1),
            peer_id_parse(r@) == Some(self@),
    {
        proof { use_type_invariant(self); }
        self.0.to_bytes()
    }

    /// The base-58 text of the peer id's bytes.
    #[must_use]
    pub fn to_base58(&self) -> (r: String)
        ensures
            r@ == base58_encode(multihash_bytes(self@.0, self@.1)),
            peer_id_parse_text(r@) == Some(self@),
    {
        let bytes = self.to_bytes();
        base58_encode_bytes(bytes.as_slice())
    }

    /// The text of the peer id: its base-58 form.
    pub fn to_string(&self) -> (r: String)
        ensures
            r@ == base58_encode(multihash_bytes(self@.0, self@.1)),
            peer_id_parse_text(r@) == Some(self@),
    {
        self.to_base58()
    }

    /// Create a `PeerId` from bytes.
    ///
    /// # Errors
    ///
    /// This function will return an error if the bytes do not represent a valid `PeerId`.
    pub fn from_bytes(data: &[u8]) -> (r: Result<Self, ParseError>)
        ensures
            r is Ok <==> peer_id_parse(data@) is Some,
            r matches Ok(p) ==> Some(p@) == peer_id_parse(data@) && p.wf(),
            r matches Err(e) ==> bytes_parse_error(data@, e),
            r matches Ok(p) ==> (is_multihash_encoding(data@) ==> multihash_bytes(p@.0, p@.1)
                == data@),
    {
        let multihash = match Multihash::from_bytes(data) {
            Ok(m) => m,
            Err(e) => return Err(ParseError::InvalidMultihash(e)),
        };
        match Self::from_multihash(multihash) {
            Ok(p) => Ok(p),
            Err(mh) => Err(ParseError::UnsupportedCode(mh.code())),
        }
    }

    /// Create a `PeerId` from a multihash.
    ///
    /// # Errors
    ///
    /// This function will return an error if the multihash code is not supported.
    pub fn from_multihash(multihash: Multihash) -> (r: Result<Self, Multihash>)
        ensures
            r is Ok <==> supported_multihash(multihash@.0, multihash@.1),
            r matches Ok(p) ==> p@ == multihash@ && p.wf(),
            r matches Err(m) ==> m@ == multihash@,
    {
        proof { use_type_invariant(&multihash); }
        let code = multihash.code();
        if code == MULTIHASH_SHA256_CODE {
            Ok(PeerId(multihash))
        } else if code == MULTIHASH_IDENTITY_CODE && multihash.digest().len()
            <= MAX_INLINE_KEY_LENGTH {
            Ok(PeerId(multihash))
        } else {
            Err(multihash)
        }
    }

    /// The peer id of a public key: the protobuf encoding of the key, inlined in an identity
    /// multihash when it is short enough and hashed with SHA-256 otherwise.
    pub fn from_public_key(key: PublicKey) -> (r: Self)
        ensures
            r@ == peer_id_of_key(key@),
            r.wf(),
    {
        let key_bytes = key.to_bytes();
        let encoded = encode_ed25519(&key_bytes);
        let multihash = if encoded.len() <= MAX_INLINE_KEY_LENGTH {
            Multihash::wrap(MULTIHASH_IDENTITY_CODE, encoded.as_slice()).expect(
                "64 byte multihash provides sufficient space",
            )
        } else {
            let digest = sha256_digest(encoded.as_slice());
            Multihash::wrap(MULTIHASH_SHA256_CODE, digest.as_slice()).expect(
                "64 byte multihash provides sufficient space",
            )
        };
        PeerId(multihash)
    }

    /// Parses a peer id from its base-58 text.
    ///
    /// # Errors
    ///
    /// Fails when the text is not base-58 or its bytes are not a valid peer id.
    pub fn from_base58(s: &str) -> (r: Result<Self, ParseError>)
        ensures
            r is Ok <==> peer_id_parse_text(s@) is Some,
            r matches Ok(p) ==> Some(p@) == peer_id_parse_text(s@) && p.wf(),
            r matches Err(e) ==> text_parse_error(s@, e),
    {
        let bytes = match base58_decode_text(s) {
            Ok(b) => b,
            Err(e) => return Err(ParseError::B58(e)),
        };
        PeerId::from_bytes(bytes.as_slice())
    }
}

impl std::str::FromStr for PeerId {
    type Err = ParseError;

    fn from_str(s: &str) -> (r: Result<Self, Self::Err>)
        ensures
            r is Ok <==> peer_id_parse_text(s@) is Some,
            r matches Ok(p) ==> Some(p@) == peer_id_parse_text(s@) && p.wf(),
            r matches Err(e) ==> text_parse_error(s@, e),
    {
        PeerId::from_base58(s)
    }
}

/// The peer id of an Ed25519 public key is the key's 36-byte protobuf encoding, short enough
/// to be inlined, so it is always a supported peer id.
pub proof fn law_key_peer_id_supported(key: Seq<u8>)
    requires
        key.len() == 32,
    ensures
        ed25519_key_protobuf(key).len() == 36,
        ed25519_key_protobuf(key).len() <= MAX_INLINE_KEY_LENGTH,
        supported_multihash(peer_id_of_key(key).0, peer_id_of_key(key).1),
{
}

/// Different public keys have different peer ids.
pub proof fn law_key_peer_id_injective(key1: Seq<u8>, key2: Seq<u8>)
    requires
        peer_id_of_key(key1) == peer_id_of_key(key2),
    ensures
        key1 == key2,
{
    let e1 = ed25519_key_protobuf(key1);
    let e2 = ed25519_key_protobuf(key2);
    assert(e1.subrange(4, e1.len() as int) =~= key1);
    assert(e2.subrange(4, e2.len() as int) =~= key2);
}

} // verus!
