use nemo_management::crypto::{
    decode64, encode64, key_pair_from_seed, nemo_seal_to_mgmt_key, sign_text,
};
use nemo_management::error::SyncError;
use nemo_management::options::OptionMap;
use nemo_management::payload::{
    nemo_allow_unsigned_policy, nemo_unseal_with_device_key, open_signed, policy_source,
    sealed_verdict, signed_verdict, verified_payload, ClientPolicyPayload, ClientPolicyResponse,
    DeviceKeys, PolicySource, SealedOutcome, SignedOutcome, VerifiedPayload,
};
use nemo_management::policy::ManagementPolicy;
use sodiumoxide::crypto::{sealedbox, sign};

fn payload(id: &str) -> ClientPolicyPayload {
    ClientPolicyPayload {
        id: id.to_owned(),
        issued_ts: 0,
        policy: ManagementPolicy { allow_user_override: false, options: OptionMap::new() },
    }
}

fn response(signed: &str, plain: bool, sealed: Option<String>) -> ClientPolicyResponse {
    ClientPolicyResponse {
        signed_payload: signed.to_owned(),
        payload: if plain { Some(payload("plain")) } else { None },
        sealed_payload: sealed,
    }
}

fn error_of(r: Result<VerifiedPayload, SyncError>) -> String {
    match r {
        Ok(_) => "accepted".to_owned(),
        Err(err) => err.message(),
    }
}

#[test]
fn unsigned_policy_is_refused_without_key() {
    let r = verified_payload(response("", true, None), "", false, &None);
    assert_eq!(
        error_of(r),
        "management public key not configured; refusing unsigned policy"
    );
}

#[test]
fn lab_client_takes_unsigned_policy() {
    match verified_payload(response("", true, None), "", true, &None) {
        Ok(VerifiedPayload::Unsigned(p)) => assert_eq!(p.id, "plain"),
        _ => panic!("refused"),
    }
    let r = verified_payload(response("", false, Some("x".to_owned())), "", true, &None);
    assert_eq!(
        error_of(r),
        "sealed policy response but no management public key to verify it"
    );
}

#[test]
fn escape_hatch_needs_debug_build_and_option() {
    assert!(nemo_allow_unsigned_policy(true, "Y"));
    assert!(!nemo_allow_unsigned_policy(true, "N"));
    assert!(!nemo_allow_unsigned_policy(true, "y"));
    assert!(!nemo_allow_unsigned_policy(true, ""));
    assert!(!nemo_allow_unsigned_policy(false, "Y"));
}

#[test]
fn signed_policy_is_checked() {
    let (pk, sk) = sign::gen_keypair();
    let key = encode64(&pk.0);
    let signed = sign::sign(b"{\"id\":\"1\"}", &sk);
    match verified_payload(response(&encode64(&signed), true, None), &key, false, &None) {
        Ok(VerifiedPayload::Signed(bytes)) => assert_eq!(bytes, b"{\"id\":\"1\"}"),
        _ => panic!("refused"),
    }
    let mut bad = signed.clone();
    bad[70] ^= 1;
    let r = verified_payload(response(&encode64(&bad), true, None), &key, false, &None);
    assert_eq!(error_of(r), "signature mismatch");
    let r = verified_payload(response(&encode64(&signed[..63]), true, None), &key, false, &None);
    assert_eq!(error_of(r), "signature mismatch");
    let (other, _) = sign::gen_keypair();
    let r = verified_payload(
        response(&encode64(&signed), true, None),
        &encode64(&other.0),
        true,
        &None,
    );
    assert_eq!(error_of(r), "signature mismatch");
    let r = verified_payload(response("*", true, None), &key, false, &None);
    assert_eq!(error_of(r), "Invalid symbol 42, offset 0.");
    let r = verified_payload(response("", true, None), &key, true, &None);
    assert_eq!(error_of(r), "management response is unsigned");
    let r = verified_payload(response(&encode64(&signed), false, None), &key, true, &None);
    assert_eq!(
        error_of(r),
        "management response has neither a signed nor a sealed payload"
    );
    let r = verified_payload(response(&encode64(&signed), true, None), "AAAA", false, &None);
    assert_eq!(error_of(r), "invalid public key");
}

#[test]
fn sealed_policy_is_opened_then_checked() {
    sodiumoxide::init().ok();
    let (pk, sk) = sign::gen_keypair();
    let key = encode64(&pk.0);
    let (device_pk, device_sk) = sign::gen_keypair();
    let device = Some(DeviceKeys { public_key: device_pk.0, secret_key: device_sk.0 });
    let curve_pk = sign::to_curve25519_pk(&device_pk).unwrap();
    let signed = sign::sign(b"policy", &sk);
    let sealed = encode64(&sealedbox::seal(&signed, &curve_pk));

    match verified_payload(response("", false, Some(sealed.clone())), &key, false, &device) {
        Ok(VerifiedPayload::Sealed(bytes)) => assert_eq!(bytes, b"policy"),
        _ => panic!("refused"),
    }
    assert_eq!(nemo_unseal_with_device_key(&sealed, &device).unwrap(), signed);
    // Without the device key, and with garbage, nothing is opened.
    let r = verified_payload(response("", false, Some(sealed)), &key, false, &None);
    assert_eq!(error_of(r), "could not unseal management policy response to device key");
    let r = verified_payload(response("", true, Some("!".to_owned())), &key, false, &device);
    assert_eq!(error_of(r), "could not unseal management policy response to device key");
    // What is sealed has to be signed.
    let (_, forger) = sign::gen_keypair();
    let forged = encode64(&sealedbox::seal(&sign::sign(b"policy", &forger), &curve_pk));
    let r = verified_payload(response("", false, Some(forged)), &key, false, &device);
    assert_eq!(error_of(r), "sealed policy signature mismatch");
}

#[test]
fn sealed_policy_goes_before_signed_one() {
    let r = response("signed", true, Some("sealed".to_owned()));
    match policy_source(&r) {
        Ok(PolicySource::Sealed(text)) => assert_eq!(text, "sealed"),
        _ => panic!("not sealed"),
    }
    let r = response("signed", true, None);
    match policy_source(&r) {
        Ok(PolicySource::Signed(text)) => assert_eq!(text, "signed"),
        _ => panic!("not signed"),
    }
}

#[test]
fn verdicts_follow_outcomes() {
    assert!(matches!(
        sealed_verdict(SealedOutcome::Message(vec![1, 2])),
        Ok(VerifiedPayload::Sealed(_))
    ));
    assert!(matches!(
        sealed_verdict(SealedOutcome::NotUnsealed),
        Err(SyncError::UnsealFailed)
    ));
    assert!(matches!(
        signed_verdict(SignedOutcome::BadSignature),
        Err(SyncError::SignatureMismatch)
    ));
    assert!(matches!(open_signed("*", &[9u8; 32]), SignedOutcome::NotBase64(_)));
}

#[test]
fn genuine_policies_are_read() {
    sodiumoxide::init().ok();
    let (pk, sk) = key_pair_from_seed(&[1u8; 32]);
    let (device_pk, device_sk) = key_pair_from_seed(&[2u8; 32]);
    let device = Some(DeviceKeys { public_key: device_pk, secret_key: device_sk });
    let key = encode64(&pk);
    let signed = sign_text(b"{\"id\":\"1\"}", &sk);
    match verified_payload(response(&signed, true, None), &key, false, &device) {
        Ok(VerifiedPayload::Signed(bytes)) => assert_eq!(bytes, b"{\"id\":\"1\"}"),
        _ => panic!("refused"),
    }
    let raw = decode64(&signed).unwrap();
    // Whatever stands beside it, the sealed policy is read.
    for (text, plain) in [("", false), ("", true), ("*", true), (signed.as_str(), false)] {
        let sealed = nemo_seal_to_mgmt_key(&raw, &encode64(&device_pk));
        match verified_payload(response(text, plain, sealed), &key, false, &device) {
            Ok(VerifiedPayload::Sealed(bytes)) => assert_eq!(bytes, b"{\"id\":\"1\"}"),
            _ => panic!("refused"),
        }
    }
    // Another device reads nothing.
    let (other_pk, other_sk) = key_pair_from_seed(&[3u8; 32]);
    let other = Some(DeviceKeys { public_key: other_pk, secret_key: other_sk });
    let sealed = nemo_seal_to_mgmt_key(&raw, &encode64(&device_pk));
    assert!(verified_payload(response("", true, sealed), &key, false, &other).is_err());
}
