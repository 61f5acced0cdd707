//! Why a poll fails.
use crate::text::{decimal, decimal_text, joined};
use vstd::prelude::*;

verus! {

/// Why a poll fails.
pub enum SyncError {
    /// The client has no id yet.
    IdNotReady,
    /// The session token is too long to be sealed.
    TokenTooLong,
    /// The server answered with another status than success.
    HttpStatus(u16),
    /// There is no key to check a policy with, and unsigned policies are refused.
    UnsignedRefused,
    /// Unsigned policies are accepted, but the response holds none.
    NoUnsignedPayload,
    /// The management key is malformed.
    InvalidPublicKey,
    /// The sealed response cannot be opened with the device key.
    UnsealFailed,
    /// The signature inside the sealed response is bad.
    SealedSignatureMismatch,
    /// The response holds no policy.
    NoPayload,
    /// The response holds a policy without a signature.
    Unsigned,
    /// The signed policy is not base64.
    InvalidBase64(String),
    /// The signature of the policy is bad.
    SignatureMismatch,
    /// The response is not sealed, though it should be.
    SealMissing,
    /// The policy is meant for another client.
    IdMismatch,
    /// The time stamp of the policy is not acceptable.
    Rejected(String),
}

impl SyncError {
    /// What is told to the operator.
    pub open spec fn text(&self) -> Seq<char> {
        match self {
            SyncError::IdNotReady => "client id is not ready"@,
            SyncError::TokenTooLong => "session token is too long to be sealed"@,
            SyncError::HttpStatus(status) => "management server returned HTTP "@ + decimal(
                *status as nat,
            ),
            SyncError::UnsignedRefused => {
                "management public key not configured; refusing unsigned policy"@
            },
            SyncError::NoUnsignedPayload => {
                "sealed policy response but no management public key to verify it"@
            },
            SyncError::InvalidPublicKey => "invalid public key"@,
            SyncError::UnsealFailed => {
                "could not unseal management policy response to device key"@
            },
            SyncError::SealedSignatureMismatch => "sealed policy signature mismatch"@,
            SyncError::NoPayload => {
                "management response has neither a signed nor a sealed payload"@
            },
            SyncError::Unsigned => "management response is unsigned"@,
            SyncError::InvalidBase64(reason) => reason@,
            SyncError::SignatureMismatch => "signature mismatch"@,
            SyncError::SealMissing => {
                "management policy response was not sealed but this client holds a device key and requires sealing (possible downgrade attack). If this client was intentionally deprovisioned, clear option nemo-policy-seal-seen or re-pin its device key."@
            },
            SyncError::IdMismatch => "management policy id mismatch"@,
            SyncError::Rejected(reason) => "management policy rejected: "@ + reason@,
        }
    }

    /// What is told to the operator.
    pub fn message(&self) -> (r: String)
        ensures
            r@ == self.text(),
    {
        match self {
            SyncError::IdNotReady => "client id is not ready".to_owned(),
            SyncError::TokenTooLong => "session token is too long to be sealed".to_owned(),
            SyncError::HttpStatus(status) => joined(
                "management server returned HTTP ",
                decimal_text(*status as u64).as_str(),
            ),
            SyncError::UnsignedRefused => {
                "management public key not configured; refusing unsigned policy".to_owned()
            },
            SyncError::NoUnsignedPayload => {
                "sealed policy response but no management public key to verify it".to_owned()
            },
            SyncError::InvalidPublicKey => "invalid public key".to_owned(),
            SyncError::UnsealFailed => {
                "could not unseal management policy response to device key".to_owned()
            },
            SyncError::SealedSignatureMismatch => "sealed policy signature mismatch".to_owned(),
            SyncError::NoPayload => {
                "management response has neither a signed nor a sealed payload".to_owned()
            },
            SyncError::Unsigned => "management response is unsigned".to_owned(),
            SyncError::InvalidBase64(reason) => reason.clone(),
            SyncError::SignatureMismatch => "signature mismatch".to_owned(),
            SyncError::SealMissing => {
                "management policy response was not sealed but this client holds a device key and requires sealing (possible downgrade attack). If this client was intentionally deprovisioned, clear option nemo-policy-seal-seen or re-pin its device key.".to_owned()
            },
            SyncError::IdMismatch => "management policy id mismatch".to_owned(),
            SyncError::Rejected(reason) => joined("management policy rejected: ", reason.as_str()),
        }
    }
}

/// A refusal is reported with its reason, a bad status with its number and a text that
/// is no base64 with what is wrong with it.
pub proof fn law_reports_name_the_cause(status: u16, reason: String)
    ensures
        SyncError::HttpStatus(status).text() == "management server returned HTTP "@ + decimal(
            status as nat,
        ),
        SyncError::Rejected(reason).text() == "management policy rejected: "@ + reason@,
        SyncError::InvalidBase64(reason).text() == reason@,
{
}

}
