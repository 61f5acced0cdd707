//! Policy responses, and the checks that a policy passes before it is read.
//!
//! With a management key a policy counts only if the key has signed it. The server
//! may seal the signed policy to the device key, which hides it from others.
use crate::crypto::{
    base64_decoding, box_key_pair, curve25519_public, decode64, decodes_to, device_unsealed,
    ed25519_key_pair, ed25519_opened, ed25519_signed, ed25519_verify, get_rs_pk, is_sealed_text,
    is_signed_text, law_sealed_to_device_is_read_back, nemo_unseal_with_device_keys, signing_key,
    SIGNATURE_BYTES,
};
use crate::error::SyncError;
use crate::policy::ManagementPolicy;
use crate::text::same_text;
use vstd::prelude::*;

verus! {

/// A policy for one client.
pub struct ClientPolicyPayload {
    pub id: String,
    /// When the server made the policy, in seconds since the epoch; zero if the
    /// server does not say.
    pub issued_ts: u64,
    pub policy: ManagementPolicy,
}

/// The server's answer to a poll.
pub struct ClientPolicyResponse {
    /// The signed policy in base64, or nothing.
    pub signed_payload: String,
    pub payload: Option<ClientPolicyPayload>,
    /// The signed policy, sealed to the device key, in base64. It stands in place
    /// of the other two.
    pub sealed_payload: Option<String>,
}

/// The Ed25519 key pair of the device.
pub struct DeviceKeys {
    pub public_key: [u8; 32],
    pub secret_key: [u8; 64],
}

/// A policy that passed the checks. What came with a signature is the signed JSON
/// text, still to be read.
pub enum VerifiedPayload {
    Unsigned(ClientPolicyPayload),
    Signed(Vec<u8>),
    Sealed(Vec<u8>),
}

/// What the device reads from a sealed text; nothing without a device key.
pub open spec fn unsealed(text: Seq<char>, device: Option<DeviceKeys>) -> Option<Seq<u8>> {
    match device {
        Some(keys) => device_unsealed(text, keys.public_key@, keys.secret_key@),
        None => None,
    }
}

/// Whether a device with a proper key pair reads from a text whatever was sealed to
/// its public key in it.
pub open spec fn reads_what_is_sealed(text: Seq<char>, device: Option<DeviceKeys>) -> bool {
    device matches Some(keys) ==> ed25519_key_pair(keys.public_key@, keys.secret_key@) ==> (forall|
        message: Seq<u8>,
    | #[trigger]
        is_sealed_text(text, message, curve25519_public(keys.public_key@).unwrap()) ==> unsealed(
            text,
            device,
        ) == Some(message))
}

/// The verdict on a sealed policy.
pub open spec fn is_sealed_verdict(
    text: Seq<char>,
    key: Seq<u8>,
    device: Option<DeviceKeys>,
    verdict: Result<VerifiedPayload, SyncError>,
) -> bool {
    match unsealed(text, device) {
        None => verdict matches Err(SyncError::UnsealFailed),
        Some(signed) => match ed25519_opened(signed, key) {
            None => verdict matches Err(SyncError::SealedSignatureMismatch),
            Some(message) => verdict matches Ok(VerifiedPayload::Sealed(bytes)) && bytes@ == message,
        },
    }
}

/// The verdict on a signed policy.
pub open spec fn is_signed_verdict(
    text: Seq<char>,
    key: Seq<u8>,
    verdict: Result<VerifiedPayload, SyncError>,
) -> bool {
    match base64_decoding(text) {
        Err(reason) => verdict matches Err(SyncError::InvalidBase64(said)) && said@ == reason,
        Ok(signed) => match ed25519_opened(signed, key) {
            None => verdict matches Err(SyncError::SignatureMismatch),
            Some(message) => verdict matches Ok(VerifiedPayload::Signed(bytes)) && bytes@ == message,
        },
    }
}

/// The verdict on a response.
pub open spec fn is_verdict(
    response: ClientPolicyResponse,
    public_key: Seq<char>,
    allow_unsigned: bool,
    device: Option<DeviceKeys>,
    verdict: Result<VerifiedPayload, SyncError>,
) -> bool {
    if public_key.len() == 0 {
        if !allow_unsigned {
            verdict matches Err(SyncError::UnsignedRefused)
        } else {
            match response.payload {
                Some(payload) => verdict matches Ok(VerifiedPayload::Unsigned(given)) && given
                    == payload,
                None => verdict matches Err(SyncError::NoUnsignedPayload),
            }
        }
    } else {
        match signing_key(public_key) {
            None => verdict matches Err(SyncError::InvalidPublicKey),
            Some(key) => match response.sealed_payload {
                Some(text) => is_sealed_verdict(text@, key, device, verdict),
                None => if response.payload is None {
                    verdict matches Err(SyncError::NoPayload)
                } else if response.signed_payload@.len() == 0 {
                    verdict matches Err(SyncError::Unsigned)
                } else {
                    is_signed_verdict(response.signed_payload@, key, verdict)
                },
            },
        }
    }
}

/// Whether a response holds a policy that the holder of the management key signed.
pub open spec fn is_signed_response(
    response: ClientPolicyResponse,
    public_key: Seq<char>,
    message: Seq<u8>,
    secret_key: Seq<u8>,
) -> bool {
    &&& public_key.len() > 0
    &&& signing_key(public_key) matches Some(key) && ed25519_key_pair(key, secret_key)
    &&& response.sealed_payload is None
    &&& response.payload is Some
    &&& is_signed_text(response.signed_payload@, message, secret_key)
}

/// Whether a response holds a policy that the holder of the management key signed
/// and that was then sealed to the device. What else it holds makes no difference.
pub open spec fn is_sealed_response(
    response: ClientPolicyResponse,
    public_key: Seq<char>,
    device: Option<DeviceKeys>,
    message: Seq<u8>,
    secret_key: Seq<u8>,
) -> bool {
    &&& public_key.len() > 0
    &&& signing_key(public_key) matches Some(key) && ed25519_key_pair(key, secret_key)
    &&& message.len() + SIGNATURE_BYTES <= isize::MAX
    &&& device matches Some(keys)
    &&& ed25519_key_pair(keys.public_key@, keys.secret_key@)
    &&& response.sealed_payload matches Some(text)
    &&& is_sealed_text(
        text@,
        ed25519_signed(message, secret_key),
        curve25519_public(keys.public_key@).unwrap(),
    )
}

/// Whether a verdict reads what the server sends: a policy signed by the holder of
/// the management key, plain or sealed to the device.
pub open spec fn reads_genuine_policy(
    response: ClientPolicyResponse,
    public_key: Seq<char>,
    device: Option<DeviceKeys>,
    verdict: Result<VerifiedPayload, SyncError>,
) -> bool {
    &&& forall|message: Seq<u8>, secret_key: Seq<u8>| #[trigger]
        is_signed_response(response, public_key, message, secret_key) ==> (verdict matches Ok(
            VerifiedPayload::Signed(bytes),
        ) && bytes@ == message)
    &&& forall|message: Seq<u8>, secret_key: Seq<u8>| #[trigger]
        is_sealed_response(response, public_key, device, message, secret_key) ==> (
        verdict matches Ok(VerifiedPayload::Sealed(bytes)) && bytes@ == message)
}

/// Whether an unsigned policy is accepted when there is no management key. This is
/// for lab tests: it takes a debug build and the option.
pub fn nemo_allow_unsigned_policy(debug_build: bool, option: &str) -> (r: bool)
    ensures
        r == (debug_build && option@ == "Y"@),
{
    debug_build && same_text(option, "Y")
}

/// Opens a text that was sealed to the device key, if there is one.
pub fn nemo_unseal_with_device_key(sealed: &str, device: &Option<DeviceKeys>) -> (r: Option<
    Vec<u8>,
>)
    ensures
        match r {
            Some(message) => unsealed(sealed@, *device) == Some(message@),
            None => unsealed(sealed@, *device) is None,
        },
        reads_what_is_sealed(sealed@, *device),
{
    match device {
        Some(keys) => nemo_unseal_with_device_keys(sealed, &keys.public_key, &keys.secret_key),
        None => None,
    }
}

/// What came of a sealed policy.
pub enum SealedOutcome {
    /// The device key does not open it.
    NotUnsealed,
    BadSignature,
    Message(Vec<u8>),
}

/// What came of a signed policy.
pub enum SignedOutcome {
    /// It is no base64, for the reason given.
    NotBase64(String),
    BadSignature,
    Message(Vec<u8>),
}

/// Opens a sealed policy and checks the signature inside.
pub fn open_sealed(text: &str, key: &[u8; 32], device: &Option<DeviceKeys>) -> (r: SealedOutcome)
    ensures
        match r {
            SealedOutcome::NotUnsealed => unsealed(text@, *device) is None,
            SealedOutcome::BadSignature => unsealed(text@, *device) is Some && ed25519_opened(
                unsealed(text@, *device).unwrap(),
                key@,
            ) is None,
            SealedOutcome::Message(message) => unsealed(text@, *device) is Some && ed25519_opened(
                unsealed(text@, *device).unwrap(),
                key@,
            ) == Some(message@),
        },
        reads_what_is_sealed(text@, *device),
        forall|message: Seq<u8>, secret_key: Seq<u8>|
            ed25519_key_pair(key@, secret_key) && message.len() + SIGNATURE_BYTES <= isize::MAX
                && unsealed(text@, *device) == Some(#[trigger] ed25519_signed(message, secret_key))
                ==> (r matches SealedOutcome::Message(bytes) && bytes@ == message),
{
    match nemo_unseal_with_device_key(text, device) {
        None => SealedOutcome::NotUnsealed,
        Some(signed) => match ed25519_verify(signed.as_slice(), key) {
            None => SealedOutcome::BadSignature,
            Some(message) => SealedOutcome::Message(message),
        },
    }
}

/// Decodes a signed policy and checks its signature.
pub fn open_signed(text: &str, key: &[u8; 32]) -> (r: SignedOutcome)
    ensures
        match r {
            SignedOutcome::NotBase64(reason) => base64_decoding(text@) is Err && base64_decoding(
                text@,
            )->Err_0 == reason@,
            SignedOutcome::BadSignature => base64_decoding(text@) is Ok && ed25519_opened(
                base64_decoding(text@)->Ok_0,
                key@,
            ) is None,
            SignedOutcome::Message(message) => base64_decoding(text@) is Ok && ed25519_opened(
                base64_decoding(text@)->Ok_0,
                key@,
            ) == Some(message@),
        },
        forall|message: Seq<u8>, secret_key: Seq<u8>|
            ed25519_key_pair(key@, secret_key) && #[trigger] is_signed_text(
                text@,
                message,
                secret_key,
            ) ==> (r matches SignedOutcome::Message(bytes) && bytes@ == message),
{
    match decode64(text) {
        Err(reason) => SignedOutcome::NotBase64(reason),
        Ok(signed) => match ed25519_verify(signed.as_slice(), key) {
            None => SignedOutcome::BadSignature,
            Some(message) => SignedOutcome::Message(message),
        },
    }
}

/// The verdict on a response without a management key.
pub fn unsigned_verdict(response: ClientPolicyResponse, allow_unsigned: bool) -> (r: Result<
    VerifiedPayload,
    SyncError,
>)
    ensures
        r == (if !allow_unsigned {
            Err::<VerifiedPayload, SyncError>(SyncError::UnsignedRefused)
        } else {
            match response.payload {
                Some(payload) => Ok(VerifiedPayload::Unsigned(payload)),
                None => Err(SyncError::NoUnsignedPayload),
            }
        }),
{
    if !allow_unsigned {
        return Err(SyncError::UnsignedRefused);
    }
    match response.payload {
        Some(payload) => Ok(VerifiedPayload::Unsigned(payload)),
        None => Err(SyncError::NoUnsignedPayload),
    }
}

/// The verdict on a sealed policy, by what came of it.
pub fn sealed_verdict(outcome: SealedOutcome) -> (r: Result<VerifiedPayload, SyncError>)
    ensures
        r == (match outcome {
            SealedOutcome::NotUnsealed => Err::<VerifiedPayload, SyncError>(
                SyncError::UnsealFailed,
            ),
            SealedOutcome::BadSignature => Err(SyncError::SealedSignatureMismatch),
            SealedOutcome::Message(message) => Ok(VerifiedPayload::Sealed(message)),
        }),
{
    match outcome {
        SealedOutcome::NotUnsealed => Err(SyncError::UnsealFailed),
        SealedOutcome::BadSignature => Err(SyncError::SealedSignatureMismatch),
        SealedOutcome::Message(message) => Ok(VerifiedPayload::Sealed(message)),
    }
}

/// The verdict on a signed policy, by what came of it.
pub fn signed_verdict(outcome: SignedOutcome) -> (r: Result<VerifiedPayload, SyncError>)
    ensures
        r == (match outcome {
            SignedOutcome::NotBase64(reason) => Err::<VerifiedPayload, SyncError>(
                SyncError::InvalidBase64(reason),
            ),
            SignedOutcome::BadSignature => Err(SyncError::SignatureMismatch),
            SignedOutcome::Message(message) => Ok(VerifiedPayload::Signed(message)),
        }),
{
    match outcome {
        SignedOutcome::NotBase64(reason) => Err(SyncError::InvalidBase64(reason)),
        SignedOutcome::BadSignature => Err(SyncError::SignatureMismatch),
        SignedOutcome::Message(message) => Ok(VerifiedPayload::Signed(message)),
    }
}

/// What is taken from a response that comes under a management key.
pub enum PolicySource<'a> {
    Sealed(&'a str),
    Signed(&'a str),
}

/// Chooses between the sealed and the signed policy of a response. A sealed one
/// goes first; a signed one counts only beside the plain policy.
pub fn policy_source<'a>(response: &'a ClientPolicyResponse) -> (r: Result<
    PolicySource<'a>,
    SyncError,
>)
    ensures
        match response.sealed_payload {
            Some(text) => r matches Ok(PolicySource::Sealed(chosen)) && chosen@ == text@,
            None => if response.payload is None {
                r matches Err(SyncError::NoPayload)
            } else if response.signed_payload@.len() == 0 {
                r matches Err(SyncError::Unsigned)
            } else {
                r matches Ok(PolicySource::Signed(chosen)) && chosen@ == response.signed_payload@
            },
        },
{
    if let Some(text) = &response.sealed_payload {
        return Ok(PolicySource::Sealed(text.as_str()));
    }
    if response.payload.is_none() {
        return Err(SyncError::NoPayload);
    }
    if response.signed_payload.as_str().is_empty() {
        return Err(SyncError::Unsigned);
    }
    Ok(PolicySource::Signed(response.signed_payload.as_str()))
}

/// Takes the policy out of a response once it has passed the checks. A sealed
/// policy is opened with the device key first and its signature checked then.
pub fn verified_payload(
    response: ClientPolicyResponse,
    public_key: &str,
    allow_unsigned: bool,
    device: &Option<DeviceKeys>,
) -> (r: Result<VerifiedPayload, SyncError>)
    ensures
        is_verdict(response, public_key@, allow_unsigned, *device, r),
        public_key@.len() > 0 && signing_key(public_key@) is Some ==> (
        response.sealed_payload matches Some(text) ==> reads_what_is_sealed(text@, *device)),
        reads_genuine_policy(response, public_key@, *device, r),
{
    if public_key.is_empty() {
        return unsigned_verdict(response, allow_unsigned);
    }
    let key = match get_rs_pk(public_key) {
        Some(key) => key,
        None => {
            return Err(SyncError::InvalidPublicKey);
        },
    };
    match policy_source(&response) {
        Err(err) => Err(err),
        Ok(PolicySource::Sealed(text)) => sealed_verdict(open_sealed(text, &key, device)),
        Ok(PolicySource::Signed(text)) => signed_verdict(open_signed(text, &key)),
    }
}

/// With a management key, what is taken from a response was signed by that key.
pub proof fn law_accepted_policy_is_signed(
    response: ClientPolicyResponse,
    public_key: Seq<char>,
    allow_unsigned: bool,
    device: Option<DeviceKeys>,
    verdict: Result<VerifiedPayload, SyncError>,
)
    requires
        public_key.len() > 0,
        is_verdict(response, public_key, allow_unsigned, device, verdict),
        verdict is Ok,
    ensures
        signing_key(public_key) is Some,
        exists|signed: Seq<u8>|
            match verdict->Ok_0 {
                VerifiedPayload::Unsigned(_) => false,
                VerifiedPayload::Signed(bytes) => #[trigger] ed25519_opened(
                    signed,
                    signing_key(public_key).unwrap(),
                ) == Some(bytes@),
                VerifiedPayload::Sealed(bytes) => ed25519_opened(
                    signed,
                    signing_key(public_key).unwrap(),
                ) == Some(bytes@),
            },
{
    let key = signing_key(public_key).unwrap();
    match response.sealed_payload {
        Some(text) => {
            let signed = unsealed(text@, device).unwrap();
            assert(ed25519_opened(signed, key) is Some);
        },
        None => {
            let signed = base64_decoding(response.signed_payload@)->Ok_0;
            assert(ed25519_opened(signed, key) is Some);
        },
    }
}

/// Without a management key nothing is accepted, unless unsigned policies are.
pub proof fn law_no_key_no_policy(
    response: ClientPolicyResponse,
    device: Option<DeviceKeys>,
    verdict: Result<VerifiedPayload, SyncError>,
)
    requires
        is_verdict(response, Seq::empty(), false, device, verdict),
    ensures
        verdict is Err,
{
}

/// A sealed response is read only by a client with a device key.
pub proof fn law_sealed_policy_needs_device_key(
    response: ClientPolicyResponse,
    public_key: Seq<char>,
    allow_unsigned: bool,
    verdict: Result<VerifiedPayload, SyncError>,
)
    requires
        public_key.len() > 0,
        response.sealed_payload is Some,
        is_verdict(response, public_key, allow_unsigned, None, verdict),
    ensures
        verdict is Err,
{
}

/// A lab client without a management key applies the plain policy of a response.
pub proof fn law_lab_client_takes_plain_policy(
    response: ClientPolicyResponse,
    payload: ClientPolicyPayload,
    device: Option<DeviceKeys>,
    verdict: Result<VerifiedPayload, SyncError>,
)
    requires
        response.payload == Some(payload),
        is_verdict(response, Seq::empty(), true, device, verdict),
    ensures
        verdict == Ok::<VerifiedPayload, SyncError>(VerifiedPayload::Unsigned(payload)),
{
}

/// A policy that the management key signed is read, if the response holds it plainly
/// too and seals nothing.
pub proof fn law_signed_policy_is_read(
    response: ClientPolicyResponse,
    public_key: Seq<char>,
    allow_unsigned: bool,
    device: Option<DeviceKeys>,
    signed: Seq<u8>,
    message: Seq<u8>,
    verdict: Result<VerifiedPayload, SyncError>,
)
    requires
        public_key.len() > 0,
        signing_key(public_key) is Some,
        ed25519_opened(signed, signing_key(public_key).unwrap()) == Some(message),
        response.sealed_payload is None,
        response.payload is Some,
        response.signed_payload@.len() > 0,
        decodes_to(response.signed_payload@, signed),
        is_verdict(response, public_key, allow_unsigned, device, verdict),
    ensures
        verdict matches Ok(VerifiedPayload::Signed(bytes)) && bytes@ == message,
{
}

/// A policy that the management key signed and that was then sealed to the device
/// is read by the device.
pub proof fn law_sealed_policy_is_read(
    response: ClientPolicyResponse,
    public_key: Seq<char>,
    allow_unsigned: bool,
    keys: DeviceKeys,
    signed: Seq<u8>,
    message: Seq<u8>,
    verdict: Result<VerifiedPayload, SyncError>,
)
    requires
        public_key.len() > 0,
        signing_key(public_key) is Some,
        ed25519_opened(signed, signing_key(public_key).unwrap()) == Some(message),
        response.sealed_payload is Some,
        box_key_pair(keys.public_key@, keys.secret_key@),
        is_sealed_text(
            response.sealed_payload.unwrap()@,
            signed,
            curve25519_public(keys.public_key@).unwrap(),
        ),
        is_verdict(response, public_key, allow_unsigned, Some(keys), verdict),
    ensures
        verdict matches Ok(VerifiedPayload::Sealed(bytes)) && bytes@ == message,
{
    law_sealed_to_device_is_read_back(
        response.sealed_payload.unwrap()@,
        signed,
        keys.public_key@,
        keys.secret_key@,
    );
}

/// Without a management key a response is refused for want of a signature, unless
/// unsigned policies are accepted: then only one without a plain policy is refused.
pub proof fn law_refusals_without_key(
    response: ClientPolicyResponse,
    allow_unsigned: bool,
    device: Option<DeviceKeys>,
    verdict: Result<VerifiedPayload, SyncError>,
)
    requires
        is_verdict(response, Seq::empty(), allow_unsigned, device, verdict),
    ensures
        !allow_unsigned ==> (verdict matches Err(SyncError::UnsignedRefused)),
        allow_unsigned && response.payload is None ==> (verdict matches Err(
            SyncError::NoUnsignedPayload,
        )),
        allow_unsigned && response.payload is Some ==> verdict is Ok,
{
}

/// Under a management key that does not decode to 32 bytes every response is refused,
/// and the key is blamed.
pub proof fn law_malformed_key_is_refused(
    response: ClientPolicyResponse,
    public_key: Seq<char>,
    allow_unsigned: bool,
    device: Option<DeviceKeys>,
    verdict: Result<VerifiedPayload, SyncError>,
)
    requires
        public_key.len() > 0,
        base64_decoding(public_key) is Err || base64_decoding(public_key)->Ok_0.len() != 32,
        is_verdict(response, public_key, allow_unsigned, device, verdict),
    ensures
        verdict matches Err(SyncError::InvalidPublicKey),
{
}

/// A sealed response is read exactly if the device opens it and the management key
/// signed what is inside; the refusal says which of the two failed. What else the
/// response holds makes no difference.
pub proof fn law_sealed_response_in_full(
    response: ClientPolicyResponse,
    public_key: Seq<char>,
    key: Seq<u8>,
    allow_unsigned: bool,
    device: Option<DeviceKeys>,
    verdict: Result<VerifiedPayload, SyncError>,
)
    requires
        public_key.len() > 0,
        decodes_to(public_key, key),
        key.len() == 32,
        response.sealed_payload is Some,
        is_verdict(response, public_key, allow_unsigned, device, verdict),
    ensures
        ({
            let text = response.sealed_payload.unwrap()@;
            let opened = match device {
                Some(keys) => device_unsealed(text, keys.public_key@, keys.secret_key@),
                None => None,
            };
            &&& opened is None ==> (verdict matches Err(SyncError::UnsealFailed))
            &&& opened is Some && ed25519_opened(opened.unwrap(), key) is None ==> (
            verdict matches Err(SyncError::SealedSignatureMismatch))
            &&& opened is Some && ed25519_opened(opened.unwrap(), key) is Some ==> (
            verdict matches Ok(VerifiedPayload::Sealed(bytes)) && Some(bytes@) == ed25519_opened(
                opened.unwrap(),
                key,
            ))
        }),
{
}

/// A response that is not sealed is read exactly if it holds the plain policy and a
/// signed one that the management key signed; the refusal says what is wrong. The
/// device key makes no difference.
pub proof fn law_plain_response_in_full(
    response: ClientPolicyResponse,
    public_key: Seq<char>,
    key: Seq<u8>,
    allow_unsigned: bool,
    device: Option<DeviceKeys>,
    verdict: Result<VerifiedPayload, SyncError>,
)
    requires
        public_key.len() > 0,
        decodes_to(public_key, key),
        key.len() == 32,
        response.sealed_payload is None,
        is_verdict(response, public_key, allow_unsigned, device, verdict),
    ensures
        ({
            let text = response.signed_payload@;
            let whole = response.payload is Some && text.len() > 0;
            let signed = base64_decoding(text);
            &&& response.payload is None ==> (verdict matches Err(SyncError::NoPayload))
            &&& response.payload is Some && text.len() == 0 ==> (verdict matches Err(
                SyncError::Unsigned,
            ))
            &&& whole && signed is Err ==> (verdict matches Err(SyncError::InvalidBase64(reason))
                && reason@ == signed->Err_0)
            &&& whole && signed is Ok && ed25519_opened(signed->Ok_0, key) is None ==> (
            verdict matches Err(SyncError::SignatureMismatch))
            &&& whole && signed is Ok && ed25519_opened(signed->Ok_0, key) is Some ==> (
            verdict matches Ok(VerifiedPayload::Signed(bytes)) && Some(bytes@) == ed25519_opened(
                signed->Ok_0,
                key,
            ))
        }),
{
}

}
