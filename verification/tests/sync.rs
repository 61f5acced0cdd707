use nemo_management::error::SyncError;
use nemo_management::options::OptionMap;
use nemo_management::payload::{ClientPolicyPayload, ClientPolicyResponse, VerifiedPayload};
use nemo_management::policy::ManagementPolicy;
use nemo_management::request::PollInputs;
use nemo_management::sync::{
    accept_policy, check_http_status, check_response, engage_policy_seal_ratchet,
    management_enabled, policy_seal_ratchet_engaged, session_is_stale, start_poll, AcceptedPolicy,
    Decision, HostView, OptionWrite, Poll, POLL_INITIAL_DELAY_SECS, POLL_INTERVAL_SECS,
};

const NOW: u64 = 1_700_000_000;

fn poll(token: &str) -> Poll {
    Poll { id: "42".to_owned(), polled_token: token.to_owned(), public_key: String::new() }
}

fn payload(id: &str, issued_ts: u64, entries: &[(&str, &str)]) -> ClientPolicyPayload {
    let mut options = OptionMap::new();
    for (name, value) in entries {
        options.insert(name, value);
    }
    ClientPolicyPayload {
        id: id.to_owned(),
        issued_ts,
        policy: ManagementPolicy { allow_user_override: false, options },
    }
}

fn host(seal_seen: &str, issued_ts: &str, has_device_key: bool) -> HostView {
    HostView {
        seal_seen: seal_seen.to_owned(),
        issued_ts: issued_ts.to_owned(),
        has_device_key,
        now: NOW,
    }
}

fn written(write: &Option<OptionWrite>) -> String {
    match write {
        Some(write) => format!("{}={}", write.name, write.value),
        None => "nothing".to_owned(),
    }
}

fn accepted(decision: Decision) -> AcceptedPolicy {
    match decision.outcome {
        Ok(accepted) => accepted,
        Err(err) => panic!("{}", err.message()),
    }
}

fn refusal(decision: &Decision) -> String {
    match &decision.outcome {
        Ok(_) => "accepted".to_owned(),
        Err(err) => err.message(),
    }
}

#[test]
fn polling_needs_switch_and_server() {
    assert!(management_enabled("Y", "https://a"));
    assert!(!management_enabled("Y", " \t "));
    assert!(!management_enabled("Y", ""));
    assert!(!management_enabled("N", "https://a"));
    assert!(!management_enabled("", "https://a"));
    assert_eq!((POLL_INITIAL_DELAY_SECS, POLL_INTERVAL_SECS), (10, 30));
}

fn inputs(id: &str) -> PollInputs {
    PollInputs {
        id: id.to_owned(),
        server: "https://a/".to_owned(),
        public_key: " key ".to_owned(),
        access_token: "tok".to_owned(),
        last_policy: "last".to_owned(),
        uuid: vec![1],
        hostname: "h".to_owned(),
        token_ts: 1,
        sign_ts: 2,
    }
}

#[test]
fn poll_needs_an_id() {
    match start_poll(inputs(""), &None) {
        Err(err) => assert_eq!(err.message(), "client id is not ready"),
        Ok(_) => panic!("started"),
    }
}

#[test]
fn poll_is_put_together() {
    let started = match start_poll(inputs("42"), &None) {
        Ok(started) => started,
        Err(err) => panic!("{}", err.message()),
    };
    assert_eq!(started.url, "https://a/nemo/api/client/policy");
    assert_eq!(started.method, "post");
    assert_eq!(
        started.body,
        "{\"id\":\"42\",\"uuid\":\"AQ==\",\"policy_version\":\"last\",\"access_token\":\"tok\",\"hostname\":\"h\"}"
    );
    assert_eq!(started.poll.id, "42");
    assert_eq!(started.poll.polled_token, "tok");
    assert_eq!(started.poll.public_key, "key");
}

#[test]
fn only_status_ok_is_read() {
    assert!(check_http_status(200).is_ok());
    match check_http_status(503) {
        Err(err) => assert_eq!(err.message(), "management server returned HTTP 503"),
        Ok(()) => panic!("read"),
    }
    assert!(check_http_status(204).is_err());
}

#[test]
fn response_is_checked_with_the_key_of_the_poll() {
    let response = ClientPolicyResponse {
        signed_payload: String::new(),
        payload: Some(payload("42", 0, &[])),
        sealed_payload: None,
    };
    match check_response(poll("t"), response, true, &None) {
        Ok(checked) => {
            assert!(!checked.was_sealed);
            assert_eq!(checked.poll.polled_token, "t");
            assert!(matches!(checked.payload, VerifiedPayload::Unsigned(_)));
        }
        Err(err) => panic!("{}", err.message()),
    }
    let response = ClientPolicyResponse {
        signed_payload: String::new(),
        payload: Some(payload("42", 0, &[])),
        sealed_payload: None,
    };
    let mut with_key = poll("t");
    with_key.public_key = "AAAA".to_owned();
    assert!(matches!(
        check_response(with_key, response, true, &None),
        Err(SyncError::InvalidPublicKey)
    ));
}

#[test]
fn seal_ratchet_engages_once() {
    assert!(policy_seal_ratchet_engaged("Y"));
    assert!(!policy_seal_ratchet_engaged(""));
    assert_eq!(written(&engage_policy_seal_ratchet("")), "nemo-policy-seal-seen=Y");
    assert_eq!(written(&engage_policy_seal_ratchet("Y")), "nothing");
}

#[test]
fn plain_answer_after_a_sealed_one_is_refused() {
    let d = accept_policy(&poll(""), true, &payload("42", NOW, &[]), &host("", "", true));
    assert_eq!(written(&d.seal_write), "nemo-policy-seal-seen=Y");
    assert_eq!(refusal(&d), "accepted");
    let d = accept_policy(&poll(""), false, &payload("42", NOW, &[]), &host("Y", "", true));
    assert_eq!(written(&d.seal_write), "nothing");
    assert_eq!(
        refusal(&d),
        "management policy response was not sealed but this client holds a device key and requires sealing (possible downgrade attack). If this client was intentionally deprovisioned, clear option nemo-policy-seal-seen or re-pin its device key."
    );
}

#[test]
fn client_without_device_key_recovers() {
    let d = accept_policy(&poll(""), false, &payload("42", NOW, &[]), &host("Y", "", false));
    assert_eq!(written(&d.seal_write), "nemo-policy-seal-seen=");
    assert_eq!(refusal(&d), "accepted");
    let d = accept_policy(&poll(""), false, &payload("42", NOW, &[]), &host("", "", true));
    assert_eq!(written(&d.seal_write), "nothing");
    assert_eq!(refusal(&d), "accepted");
}

#[test]
fn policy_for_another_client_is_refused_after_the_ratchet() {
    let d = accept_policy(&poll(""), true, &payload("43", NOW, &[]), &host("", "", true));
    assert_eq!(written(&d.seal_write), "nemo-policy-seal-seen=Y");
    assert_eq!(refusal(&d), "management policy id mismatch");
}

#[test]
fn old_policy_is_refused_and_new_stamp_kept() {
    let d = accept_policy(&poll(""), false, &payload("42", 9, &[]), &host("", " 10 ", false));
    assert_eq!(
        refusal(&d),
        "management policy rejected: policy issued_ts 9 is older than last-applied 10 (rollback/replay refused)"
    );
    let d = accept_policy(&poll(""), false, &payload("42", NOW, &[]), &host("", "10", false));
    assert_eq!(
        written(&accepted(d).stamp_write),
        "nemo-policy-issued-ts=1700000000"
    );
    let d = accept_policy(&poll(""), false, &payload("42", NOW, &[]), &host("", "1700000000", false));
    assert_eq!(written(&accepted(d).stamp_write), "nothing");
    let d = accept_policy(&poll(""), false, &payload("42", 0, &[]), &host("", "10", false));
    assert_eq!(written(&accepted(d).stamp_write), "nothing");
}

#[test]
fn login_signals_are_read() {
    let a = accepted(accept_policy(
        &poll(""),
        false,
        &payload("42", 0, &[("nemo-require-login", "Y")]),
        &host("", "", false),
    ));
    assert!(a.server_requires_login && !a.server_saw_user);
    let a = accepted(accept_policy(
        &poll(""),
        false,
        &payload("42", 0, &[("nemo-require-login", "N"), ("nemo-logged-in-user", "")]),
        &host("", "", false),
    ));
    assert!(!a.server_requires_login && a.server_saw_user);
}

#[test]
fn stale_session_is_dropped_but_a_new_login_kept() {
    let stale = AcceptedPolicy {
        stamp_write: None,
        server_saw_user: false,
        server_requires_login: true,
    };
    assert!(session_is_stale(&poll("tok"), &stale, "tok"));
    assert!(!session_is_stale(&poll("tok"), &stale, "new"));
    assert!(!session_is_stale(&poll(""), &stale, ""));
    let known = AcceptedPolicy { server_saw_user: true, ..stale };
    assert!(!session_is_stale(&poll("tok"), &known, "tok"));
    let open = AcceptedPolicy {
        stamp_write: None,
        server_saw_user: false,
        server_requires_login: false,
    };
    assert!(!session_is_stale(&poll("tok"), &open, "tok"));
}

#[test]
fn errors_have_their_words() {
    assert_eq!(
        SyncError::TokenTooLong.message(),
        "session token is too long to be sealed"
    );
    assert_eq!(SyncError::InvalidBase64("why".to_owned()).message(), "why");
    assert_eq!(
        SyncError::Rejected("why".to_owned()).message(),
        "management policy rejected: why"
    );
}
