use nemo_management::crypto::{decode64, encode64, nemo_unseal_with_device_keys};
use nemo_management::payload::DeviceKeys;
use nemo_management::request::{
    assemble_request, choose_wire_token, message_to_sign, nemo_device_sign, nemo_sign_poll,
    policy_request, policy_url, poll_headers, wire_token, PollInputs,
};
use sodiumoxide::crypto::sign;

fn inputs(token: &str, public_key: &str) -> PollInputs {
    PollInputs {
        id: "123456789".to_owned(),
        server: "https://nemo.example".to_owned(),
        public_key: public_key.to_owned(),
        access_token: token.to_owned(),
        last_policy: "{}".to_owned(),
        uuid: b"uuid".to_vec(),
        hostname: "host \"1\"".to_owned(),
        token_ts: 17,
        sign_ts: 18,
    }
}

#[test]
fn policy_url_adds_the_path() {
    assert_eq!(policy_url("https://a"), "https://a/nemo/api/client/policy");
    assert_eq!(policy_url(" https://a// \n"), "https://a/nemo/api/client/policy");
    assert_eq!(
        policy_url("https://a/nemo/api/client/policy"),
        "https://a/nemo/api/client/policy"
    );
    assert_eq!(
        policy_url("https://a/nemo/api/client/policy///"),
        "https://a/nemo/api/client/policy"
    );
    assert_eq!(policy_url(""), "/nemo/api/client/policy");
    assert_eq!(policy_url("https://a /"), "https://a /nemo/api/client/policy");
    assert_eq!(policy_url("https://\u{fc}/"), "https://\u{fc}/nemo/api/client/policy");
}

#[test]
fn policy_url_is_stable() {
    for server in ["", "/", " https://a/ ", "https://a/nemo/api/client", "x/nemo/api/client/policy/"] {
        let url = policy_url(server);
        assert!(url.ends_with("/nemo/api/client/policy"));
        assert_eq!(policy_url(&url), url);
    }
}

#[test]
fn poll_is_signed_with_the_device_key() {
    let (pk, sk) = sign::gen_keypair();
    let device = Some(DeviceKeys { public_key: pk.0, secret_key: sk.0 });
    let (public, signed) = nemo_sign_poll("42", 1_700_000_000, &device);
    assert_eq!(public, encode64(&pk.0));
    let message = sign::verify(&decode64(&signed).unwrap(), &pk).unwrap();
    assert_eq!(message, b"nemo-poll:42:1700000000");
    assert_eq!(message_to_sign("nemo-poll", "42", 1_700_000_000), "nemo-poll:42:1700000000");
    let (_, other) = nemo_device_sign("other", "42", 0, &device);
    assert_eq!(sign::verify(&decode64(&other).unwrap(), &pk).unwrap(), b"other:42:0");
}

#[test]
fn poll_without_device_key_is_not_signed() {
    assert_eq!(nemo_sign_poll("42", 7, &None), (String::new(), String::new()));
}

#[test]
fn token_is_sealed_where_possible() {
    sodiumoxide::init().ok();
    let (pk, sk) = sign::gen_keypair();
    let (plain, sealed) = match wire_token("se\"cret", 17, &encode64(&pk.0)) {
        Ok(pair) => pair,
        Err(_) => panic!("too long"),
    };
    assert_eq!(plain, "");
    assert_eq!(
        nemo_unseal_with_device_keys(&sealed, &pk.0, &sk.0).unwrap(),
        b"{\"token\":\"se\\\"cret\",\"ts\":17}"
    );
    let (plain, sealed) = match wire_token("secret", 17, "") {
        Ok(pair) => pair,
        Err(_) => panic!("too long"),
    };
    assert_eq!((plain.as_str(), sealed.as_str()), ("secret", ""));
    let (plain, sealed) = match wire_token("", 17, &encode64(&pk.0)) {
        Ok(pair) => pair,
        Err(_) => panic!("too long"),
    };
    assert_eq!((plain.as_str(), sealed.as_str()), ("", ""));
}

#[test]
fn sealed_token_replaces_plain_one() {
    assert_eq!(
        choose_wire_token("t", Some("s".to_owned())),
        (String::new(), "s".to_owned())
    );
    assert_eq!(choose_wire_token("t", None), ("t".to_owned(), String::new()));
}

#[test]
fn body_leaves_empty_texts_out() {
    let request = match policy_request(&inputs("", ""), &None) {
        Ok(request) => request,
        Err(_) => panic!("refused"),
    };
    assert_eq!(
        request.body(),
        "{\"id\":\"123456789\",\"uuid\":\"dXVpZA==\",\"policy_version\":\"{}\",\"hostname\":\"host \\\"1\\\"\"}"
    );
    let request = match policy_request(&inputs("tok", ""), &None) {
        Ok(request) => request,
        Err(_) => panic!("refused"),
    };
    assert_eq!(
        request.body(),
        "{\"id\":\"123456789\",\"uuid\":\"dXVpZA==\",\"policy_version\":\"{}\",\"access_token\":\"tok\",\"hostname\":\"host \\\"1\\\"\"}"
    );
}

#[test]
fn body_has_all_texts_that_are_set() {
    let request = assemble_request(
        &inputs("", ""),
        "U".to_owned(),
        (String::new(), "S".to_owned()),
        ("P".to_owned(), "G".to_owned()),
    );
    assert_eq!(
        request.body(),
        "{\"id\":\"123456789\",\"uuid\":\"U\",\"policy_version\":\"{}\",\"sealed_token\":\"S\",\"hostname\":\"host \\\"1\\\"\",\"device_key_pub\":\"P\",\"device_key_sig\":\"G\",\"sealed\":\"v1\"}"
    );
}

#[test]
fn sealed_token_is_alone_on_the_wire() {
    sodiumoxide::init().ok();
    let (pk, _) = sign::gen_keypair();
    let key = format!(" {} ", encode64(&pk.0));
    let request = match policy_request(&inputs("tok", &key), &None) {
        Ok(request) => request,
        Err(_) => panic!("refused"),
    };
    assert!(!request.body().contains("access_token"));
    assert!(request.body().contains("sealed_token"));
}

#[test]
fn seal_support_is_advertised_with_a_device_key() {
    let (pk, sk) = sign::gen_keypair();
    let device = Some(DeviceKeys { public_key: pk.0, secret_key: sk.0 });
    let with_key = match policy_request(&inputs("", ""), &device) {
        Ok(request) => request,
        Err(_) => panic!("refused"),
    };
    assert_eq!(with_key.sealed, "v1");
    let without_key = match policy_request(&inputs("", ""), &None) {
        Ok(request) => request,
        Err(_) => panic!("refused"),
    };
    assert_eq!(without_key.sealed, "");
    assert!(inputs("", "").check_fits());
}

#[test]
fn headers_are_json() {
    assert_eq!(
        poll_headers(),
        "{\"Accept\":\"application/json\",\"Content-Type\":\"application/json\"}"
    );
}
