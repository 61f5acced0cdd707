//! Base64, signatures and sealed boxes.
//!
//! The arithmetic is done by the `base64` and `sodiumoxide` crates. Each of their
//! functions is called in one place, and the rest of the library speaks of their
//! results by name.
use base64::Engine;
use sodiumoxide::crypto::{box_, sealedbox, sign};
use vstd::prelude::*;

verus! {

/// Length of an Ed25519 signature.
pub const SIGNATURE_BYTES: usize = 64;

/// Bytes that a sealed box adds to its message.
pub const SEAL_BYTES: usize = 48;

/// The longest byte string whose base64 form still fits in memory.
pub open spec fn max_encodable() -> int {
    isize::MAX as int / 4 * 3
}

/// The bytes that a base64 text stands for, or the reason why it is malformed.
pub uninterp spec fn base64_decoding(text: Seq<char>) -> Result<Seq<u8>, Seq<char>>;

/// Whether a base64 text stands for the bytes.
pub open spec fn decodes_to(text: Seq<char>, data: Seq<u8>) -> bool {
    base64_decoding(text) is Ok && base64_decoding(text)->Ok_0 == data
}

/// The base64 text of a byte string.
pub uninterp spec fn base64_text(data: Seq<u8>) -> Seq<char>;

/// The message inside a signed message, if the signature is good under the key.
pub uninterp spec fn ed25519_opened(signed: Seq<u8>, public_key: Seq<u8>) -> Option<Seq<u8>>;

/// The Curve25519 form of an Ed25519 public key, if it has one.
pub uninterp spec fn curve25519_public(public_key: Seq<u8>) -> Option<Seq<u8>>;

/// The Curve25519 form of an Ed25519 secret key, if it has one.
pub uninterp spec fn curve25519_secret(secret_key: Seq<u8>) -> Option<Seq<u8>>;

/// The message inside a sealed box, if the key pair opens it.
pub uninterp spec fn sealed_box_opened(
    sealed: Seq<u8>,
    public_key: Seq<u8>,
    secret_key: Seq<u8>,
) -> Option<Seq<u8>>;

/// The public key that belongs to a Curve25519 secret key.
pub uninterp spec fn curve25519_public_of(secret_key: Seq<u8>) -> Seq<u8>;

/// The public key that belongs to an Ed25519 seed.
pub uninterp spec fn ed25519_public_of(seed: Seq<u8>) -> Seq<u8>;

/// Whether two Ed25519 keys belong to each other. A secret key is a seed and, behind
/// it, the public key of the seed.
pub open spec fn ed25519_key_pair(public_key: Seq<u8>, secret_key: Seq<u8>) -> bool {
    &&& secret_key.len() == 64
    &&& public_key == ed25519_public_of(secret_key.take(32))
    &&& public_key == secret_key.skip(32)
}

/// Whether the Curve25519 forms of two Ed25519 keys exist and belong to each other.
pub open spec fn box_key_pair(public_key: Seq<u8>, secret_key: Seq<u8>) -> bool {
    match (curve25519_public(public_key), curve25519_secret(secret_key)) {
        (Some(public), Some(secret)) => secret.len() == 32 && curve25519_public_of(secret)
            == public,
        _ => false,
    }
}

/// A message behind its signature.
pub uninterp spec fn ed25519_signed(message: Seq<u8>, secret_key: Seq<u8>) -> Seq<u8>;

/// Whether a text is the base64 form of a message that was signed with the key.
pub open spec fn is_signed_text(text: Seq<char>, message: Seq<u8>, secret_key: Seq<u8>) -> bool {
    &&& text.len() > 0
    &&& message.len() + SIGNATURE_BYTES <= max_encodable()
    &&& ed25519_signed(message, secret_key).len() == message.len() + SIGNATURE_BYTES
    &&& text == base64_text(ed25519_signed(message, secret_key))
}

/// Whether a byte string is a sealed box from which the holder of the key reads
/// the message.
pub open spec fn sealed_for(sealed: Seq<u8>, message: Seq<u8>, public_key: Seq<u8>) -> bool {
    &&& sealed.len() == message.len() + SEAL_BYTES
    &&& forall|secret_key: Seq<u8>|
        secret_key.len() == 32 && curve25519_public_of(secret_key) == public_key
            ==> #[trigger] sealed_box_opened(sealed, public_key, secret_key) == Some(message)
}

/// Whether a text is the base64 form of a sealed box of the message.
pub open spec fn is_sealed_text(text: Seq<char>, message: Seq<u8>, public_key: Seq<u8>) -> bool {
    exists|sealed: Seq<u8>|
        text == base64_text(sealed) && decodes_to(text, sealed) && #[trigger] sealed_for(
            sealed,
            message,
            public_key,
        )
}

/// The Ed25519 public key that a base64 text holds.
pub open spec fn signing_key(text: Seq<char>) -> Option<Seq<u8>> {
    match base64_decoding(text) {
        Ok(data) => key_of(data),
        Err(_) => None,
    }
}

/// The key to which a message is sealed for the holder of a signing key.
pub open spec fn sealing_key(text: Seq<char>) -> Option<Seq<u8>> {
    match signing_key(text) {
        Some(key) => curve25519_public(key),
        None => None,
    }
}

/// What a device reads from a sealed base64 text.
pub open spec fn device_unsealed(
    text: Seq<char>,
    public_key: Seq<u8>,
    secret_key: Seq<u8>,
) -> Option<Seq<u8>> {
    match (base64_decoding(text), curve25519_public(public_key), curve25519_secret(secret_key)) {
        (Ok(sealed), Some(public), Some(secret)) => sealed_box_opened(sealed, public, secret),
        _ => None,
    }
}

/// Calls `base64::Engine::decode` of the standard engine (standard alphabet,
/// padding required). The text alone decides the outcome, which is given the
/// name [`base64_decoding`]; an error is handed on as the text it displays. A text
/// that the engine's `encode` made gives the bytes back.
#[verifier::external_body]
fn base64_decode(text: &str) -> (r: Result<Vec<u8>, String>)
    ensures
        r is Ok <==> base64_decoding(text@) is Ok,
        r matches Ok(data) ==> base64_decoding(text@)->Ok_0 == data@,
        r matches Err(reason) ==> base64_decoding(text@)->Err_0 == reason@,
        forall|data: Seq<u8>|
            data.len() <= max_encodable() && text@ == #[trigger] base64_text(data) ==> r is Ok
                && r->Ok_0@ == data,
{
    base64::engine::general_purpose::STANDARD.decode(text).map_err(|e| e.to_string())
}

/// Calls `base64::Engine::encode` of the standard engine. The text is given the
/// name [`base64_text`]: four characters for each three bytes, the last of them
/// padded. Decoding gives the bytes back. The engine panics where the text would
/// be too long for memory.
#[verifier::external_body]
fn base64_encode(data: &[u8]) -> (r: String)
    requires
        data@.len() <= max_encodable(),
    ensures
        r@ == base64_text(data@),
        r@.len() == (data@.len() + 2) / 3 * 4,
        decodes_to(r@, data@),
{
    base64::engine::general_purpose::STANDARD.encode(data)
}

/// Calls `sodiumoxide::crypto::sign::verify`. Its outcome is given the name
/// [`ed25519_opened`]. A message that it hands out is what stands behind the
/// signature, unchanged, and it opens what `sign::sign` made with the secret key
/// that belongs to the public key.
#[verifier::external_body]
pub(crate) fn ed25519_verify(signed: &[u8], public_key: &[u8; 32]) -> (r: Option<Vec<u8>>)
    ensures
        match r {
            Some(message) => ed25519_opened(signed@, public_key@) == Some(message@),
            None => ed25519_opened(signed@, public_key@) is None,
        },
        r matches Some(message) ==> signed@.len() >= SIGNATURE_BYTES && message@ == signed@.skip(
            SIGNATURE_BYTES as int,
        ),
        forall|message: Seq<u8>, secret_key: Seq<u8>|
            ed25519_key_pair(public_key@, secret_key) && message.len() + SIGNATURE_BYTES
                <= isize::MAX && signed@ == #[trigger] ed25519_signed(message, secret_key)
                ==> r is Some && r.unwrap()@ == message,
{
    sign::verify(signed, &sign::PublicKey(*public_key)).ok()
}

/// Calls `sodiumoxide::crypto::sign::sign`, which draws no random numbers: its
/// result is given the name [`ed25519_signed`]. The message stands behind the
/// signature, unchanged, and the public key that belongs to the secret key opens
/// the whole to the message.
#[verifier::external_body]
fn ed25519_sign(message: &[u8], secret_key: &[u8; 64]) -> (r: Vec<u8>)
    requires
        message@.len() + SIGNATURE_BYTES <= isize::MAX,
    ensures
        r@ == ed25519_signed(message@, secret_key@),
        r@.len() == message@.len() + SIGNATURE_BYTES,
        r@.skip(SIGNATURE_BYTES as int) == message@,
        ed25519_public_of(secret_key@.take(32)) == secret_key@.skip(32) ==> ed25519_opened(
            r@,
            secret_key@.skip(32),
        ) == Some(message@),
{
    sign::sign(message, &sign::SecretKey(*secret_key))
}

/// Calls `sodiumoxide::crypto::sign::to_curve25519_pk`, whose outcome is given
/// the name [`curve25519_public`].
#[verifier::external_body]
fn to_curve25519_public(public_key: &[u8; 32]) -> (r: Option<[u8; 32]>)
    ensures
        match r {
            Some(key) => curve25519_public(public_key@) == Some(key@),
            None => curve25519_public(public_key@) is None,
        },
{
    sign::to_curve25519_pk(&sign::PublicKey(*public_key)).ok().map(|key| key.0)
}

/// Calls `sodiumoxide::crypto::sign::to_curve25519_sk`, whose outcome is given
/// the name [`curve25519_secret`]. It never fails, and the two forms of a key pair
/// go together: the Curve25519 form of the public key is the public key of the
/// Curve25519 form of the secret key.
#[verifier::external_body]
fn to_curve25519_secret(secret_key: &[u8; 64]) -> (r: Option<[u8; 32]>)
    ensures
        r is Some,
        curve25519_secret(secret_key@) == Some(r.unwrap()@),
        ed25519_public_of(secret_key@.take(32)) == secret_key@.skip(32) ==> curve25519_public(
            secret_key@.skip(32),
        ) == Some(curve25519_public_of(r.unwrap()@)),
{
    sign::to_curve25519_sk(&sign::SecretKey(*secret_key)).ok().map(|key| key.0)
}

/// Calls `sodiumoxide::crypto::sign::keypair_from_seed`. The public key is given the
/// name [`ed25519_public_of`], and the secret key is the seed with the public key
/// behind it.
#[verifier::external_body]
fn ed25519_keypair_from_seed(seed: &[u8; 32]) -> (r: ([u8; 32], [u8; 64]))
    ensures
        r.0@ == ed25519_public_of(seed@),
        r.1@ == seed@ + r.0@,
{
    let (public_key, secret_key) = sign::keypair_from_seed(&sign::Seed(*seed));
    (public_key.0, secret_key.0)
}

/// Calls `sodiumoxide::crypto::box_::SecretKey::public_key`, whose result is given
/// the name [`curve25519_public_of`].
#[verifier::external_body]
fn curve25519_public_key(secret_key: &[u8; 32]) -> (r: [u8; 32])
    ensures
        r@ == curve25519_public_of(secret_key@),
{
    box_::SecretKey(*secret_key).public_key().0
}

/// Calls `sodiumoxide::crypto::sealedbox::open`, whose outcome is given the name
/// [`sealed_box_opened`].
#[verifier::external_body]
fn sealed_box_open(sealed: &[u8], public_key: &[u8; 32], secret_key: &[u8; 32]) -> (r: Option<
    Vec<u8>,
>)
    ensures
        match r {
            Some(message) => sealed_box_opened(sealed@, public_key@, secret_key@) == Some(
                message@,
            ),
            None => sealed_box_opened(sealed@, public_key@, secret_key@) is None,
        },
{
    sealedbox::open(sealed, &box_::PublicKey(*public_key), &box_::SecretKey(*secret_key)).ok()
}

/// Calls `sodiumoxide::crypto::sealedbox::seal`, which makes a fresh key pair for
/// each message: two boxes of one message differ. Every box has a fixed number of
/// bytes more than the message, and the secret key that belongs to the public key
/// opens it to the message.
#[verifier::external_body]
fn sealed_box_seal(message: &[u8], public_key: &[u8; 32]) -> (r: Vec<u8>)
    requires
        message@.len() + SEAL_BYTES <= isize::MAX,
    ensures
        r@.len() == message@.len() + SEAL_BYTES,
        forall|secret_key: Seq<u8>|
            secret_key.len() == 32 && curve25519_public_of(secret_key) == public_key@
                ==> #[trigger] sealed_box_opened(r@, public_key@, secret_key) == Some(message@),
{
    sealedbox::seal(message, &box_::PublicKey(*public_key))
}

/// The bytes that a base64 text stands for.
pub fn decode64(text: &str) -> (r: Result<Vec<u8>, String>)
    ensures
        r is Ok <==> base64_decoding(text@) is Ok,
        r matches Ok(data) ==> base64_decoding(text@)->Ok_0 == data@,
        r matches Err(reason) ==> base64_decoding(text@)->Err_0 == reason@,
        forall|data: Seq<u8>|
            data.len() <= max_encodable() && text@ == #[trigger] base64_text(data) ==> r is Ok
                && r->Ok_0@ == data,
{
    base64_decode(text)
}

/// The base64 text of a byte string.
pub fn encode64(data: &[u8]) -> (r: String)
    requires
        data@.len() <= max_encodable(),
    ensures
        r@ == base64_text(data@),
        r@.len() == (data@.len() + 2) / 3 * 4,
        decodes_to(r@, data@),
{
    base64_encode(data)
}

/// The Ed25519 public key that a byte string is: there is one if the length fits.
pub open spec fn key_of(data: Seq<u8>) -> Option<Seq<u8>> {
    if data.len() == 32 {
        Some(data)
    } else {
        None
    }
}

/// Takes a byte string for an Ed25519 public key.
pub fn get_pk(data: &[u8]) -> (r: Option<[u8; 32]>)
    ensures
        match r {
            Some(key) => key_of(data@) == Some(key@),
            None => key_of(data@) is None,
        },
{
    if data.len() != 32 {
        return None;
    }
    let mut key: [u8; 32] = [0u8; 32];
    let mut i: usize = 0;
    while i < 32
        invariant
            i <= 32,
            data@.len() == 32,
            forall|j: int| 0 <= j < i ==> key@[j] == data@[j],
        decreases 32 - i,
    {
        key[i] = data[i];
        i = i + 1;
    }
    assert(key@ =~= data@);
    Some(key)
}

/// The Ed25519 public key in a base64 text.
pub fn get_rs_pk(text: &str) -> (r: Option<[u8; 32]>)
    ensures
        match r {
            Some(key) => signing_key(text@) == Some(key@),
            None => signing_key(text@) is None,
        },
{
    match base64_decode(text) {
        Ok(data) => get_pk(data.as_slice()),
        Err(_) => None,
    }
}

/// Makes the Ed25519 key pair of a seed.
pub fn key_pair_from_seed(seed: &[u8; 32]) -> (r: ([u8; 32], [u8; 64]))
    ensures
        r.0@ == ed25519_public_of(seed@),
        r.1@ == seed@ + r.0@,
        ed25519_key_pair(r.0@, r.1@),
{
    let r = ed25519_keypair_from_seed(seed);
    assert(r.1@.take(32) =~= seed@);
    assert(r.1@.skip(32) =~= r.0@);
    r
}

/// Whether two keys are the same bytes.
fn same_key(a: &[u8; 32], b: &[u8; 32]) -> (r: bool)
    ensures
        r == (a@ == b@),
{
    let mut i: usize = 0;
    while i < 32
        invariant
            i <= 32,
            forall|j: int| 0 <= j < i ==> a@[j] == b@[j],
        decreases 32 - i,
    {
        if a[i] != b[i] {
            assert(a@[i as int] != b@[i as int]);
            return false;
        }
        i = i + 1;
    }
    assert(a@ =~= b@);
    true
}

/// Takes an Ed25519 secret key apart: the seed, and the public key behind it.
fn secret_key_halves(secret_key: &[u8; 64]) -> (r: ([u8; 32], [u8; 32]))
    ensures
        r.0@ == secret_key@.take(32),
        r.1@ == secret_key@.skip(32),
{
    let mut seed: [u8; 32] = [0u8; 32];
    let mut public_key: [u8; 32] = [0u8; 32];
    let mut i: usize = 0;
    while i < 32
        invariant
            i <= 32,
            forall|j: int| 0 <= j < i ==> seed@[j] == secret_key@[j],
            forall|j: int| 0 <= j < i ==> public_key@[j] == secret_key@[j + 32],
        decreases 32 - i,
    {
        seed[i] = secret_key[i];
        public_key[i] = secret_key[i + 32];
        i = i + 1;
    }
    assert(seed@ =~= secret_key@.take(32));
    assert(public_key@ =~= secret_key@.skip(32));
    (seed, public_key)
}

/// Whether two Ed25519 keys belong to each other.
pub fn is_key_pair(public_key: &[u8; 32], secret_key: &[u8; 64]) -> (r: bool)
    ensures
        r == ed25519_key_pair(public_key@, secret_key@),
{
    let (seed, behind) = secret_key_halves(secret_key);
    let (expected, _) = ed25519_keypair_from_seed(&seed);
    same_key(public_key, &expected) && same_key(public_key, &behind)
}

/// Whether the Curve25519 forms of two Ed25519 keys exist and belong to each other,
/// so that the one opens what is sealed to the other.
pub fn is_box_key_pair(public_key: &[u8; 32], secret_key: &[u8; 64]) -> (r: bool)
    ensures
        r == box_key_pair(public_key@, secret_key@),
        ed25519_key_pair(public_key@, secret_key@) ==> r,
{
    match (to_curve25519_public(public_key), to_curve25519_secret(secret_key)) {
        (Some(public), Some(secret)) => same_key(&curve25519_public_key(&secret), &public),
        _ => false,
    }
}

/// Signs a message, in base64. The public key that belongs to the secret key opens
/// it.
pub fn sign_text(message: &[u8], secret_key: &[u8; 64]) -> (r: String)
    requires
        message@.len() + SIGNATURE_BYTES <= max_encodable(),
    ensures
        is_signed_text(r@, message@, secret_key@),
        decodes_to(r@, ed25519_signed(message@, secret_key@)),
        forall|public_key: Seq<u8>| #[trigger]
            ed25519_key_pair(public_key, secret_key@) ==> ed25519_opened(
                ed25519_signed(message@, secret_key@),
                public_key,
            ) == Some(message@),
{
    let signed = ed25519_sign(message, secret_key);
    base64_encode(signed.as_slice())
}

/// Opens a base64 text that was sealed to the device's Ed25519 public key: the
/// box is opened with the Curve25519 form of the key pair. Anything malformed gives
/// nothing; what was sealed to this key gives the message. That a box for another key
/// gives nothing rests on the cipher and is no part of the contract.
pub fn nemo_unseal_with_device_keys(
    sealed: &str,
    public_key: &[u8; 32],
    secret_key: &[u8; 64],
) -> (r: Option<Vec<u8>>)
    ensures
        match r {
            Some(message) => device_unsealed(sealed@, public_key@, secret_key@) == Some(message@),
            None => device_unsealed(sealed@, public_key@, secret_key@) is None,
        },
        ed25519_key_pair(public_key@, secret_key@) ==> forall|message: Seq<u8>| #[trigger]
            is_sealed_text(sealed@, message, curve25519_public(public_key@).unwrap())
                ==> device_unsealed(sealed@, public_key@, secret_key@) == Some(message),
{
    let data = match base64_decode(sealed) {
        Ok(data) => data,
        Err(_) => {
            return None;
        },
    };
    let public = to_curve25519_public(public_key);
    let secret = to_curve25519_secret(secret_key);
    match (public, secret) {
        (Some(public), Some(secret)) => sealed_box_open(data.as_slice(), &public, &secret),
        _ => None,
    }
}

/// The longest message that [`nemo_seal_to_mgmt_key`] can put into a text.
pub open spec fn max_sealable() -> int {
    max_encodable() - SEAL_BYTES
}

/// Whether a message is short enough to be sealed into a text.
pub fn can_be_sealed(message: &[u8]) -> (r: bool)
    ensures
        r == (message@.len() <= max_sealable()),
{
    message.len() <= (isize::MAX as usize) / 4 * 3 - SEAL_BYTES
}

/// The key to which a message for the holder of a signing key is sealed.
pub fn mgmt_sealing_key(public_key: &str) -> (r: Option<[u8; 32]>)
    ensures
        match r {
            Some(key) => sealing_key(public_key@) == Some(key@),
            None => sealing_key(public_key@) is None,
        },
{
    match get_rs_pk(public_key) {
        Some(key) => to_curve25519_public(&key),
        None => None,
    }
}

/// Seals a message to the management key, in base64. Without a usable key there
/// is no sealed text.
pub fn nemo_seal_to_mgmt_key(message: &[u8], public_key: &str) -> (r: Option<String>)
    requires
        message@.len() <= max_sealable(),
    ensures
        r is Some <==> sealing_key(public_key@) is Some,
        r matches Some(text) ==> is_sealed_text(
            text@,
            message@,
            sealing_key(public_key@).unwrap(),
        ),
        r matches Some(text) ==> text@.len() > 0,
{
    match mgmt_sealing_key(public_key) {
        Some(key) => {
            let sealed = sealed_box_seal(message, &key);
            let text = base64_encode(sealed.as_slice());
            assert(sealed_for(sealed@, message@, key@));
            Some(text)
        },
        None => None,
    }
}

/// What is sealed to the public key of a device, the device reads back.
pub proof fn law_sealed_to_device_is_read_back(
    text: Seq<char>,
    message: Seq<u8>,
    public_key: Seq<u8>,
    secret_key: Seq<u8>,
)
    requires
        box_key_pair(public_key, secret_key),
        is_sealed_text(text, message, curve25519_public(public_key).unwrap()),
    ensures
        device_unsealed(text, public_key, secret_key) == Some(message),
{
}

/// A text holds a signing key if and only if it is the base64 form of 32 bytes. The key
/// is those bytes.
pub proof fn law_signing_key_is_the_bytes(text: Seq<char>, key: Seq<u8>)
    ensures
        signing_key(text) == Some(key) <==> decodes_to(text, key) && key.len() == 32,
{
}

/// A message is sealed to the Curve25519 form of the signing key that a text holds, if
/// there are both.
pub proof fn law_sealing_key_is_the_other_form(text: Seq<char>, key: Seq<u8>)
    ensures
        decodes_to(text, key) && key.len() == 32 ==> sealing_key(text) == curve25519_public(key),
        signing_key(text) is None ==> sealing_key(text) is None,
{
}

/// A device reads a message from a text if and only if the text is the base64 form of
/// a box that the Curve25519 forms of its keys open to that message.
pub proof fn law_device_reads_what_its_keys_open(
    text: Seq<char>,
    public_key: Seq<u8>,
    secret_key: Seq<u8>,
    message: Seq<u8>,
)
    ensures
        device_unsealed(text, public_key, secret_key) == Some(message) <==> base64_decoding(
            text,
        ) is Ok && curve25519_public(public_key) is Some && curve25519_secret(secret_key) is Some
            && sealed_box_opened(
            base64_decoding(text)->Ok_0,
            curve25519_public(public_key).unwrap(),
            curve25519_secret(secret_key).unwrap(),
        ) == Some(message),
{
}

}
