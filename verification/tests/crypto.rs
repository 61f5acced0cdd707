use nemo_management::crypto::{
    can_be_sealed, decode64, encode64, get_pk, get_rs_pk, is_box_key_pair, is_key_pair,
    key_pair_from_seed, mgmt_sealing_key, nemo_seal_to_mgmt_key, nemo_unseal_with_device_keys,
    sign_text,
};
use sodiumoxide::crypto::{sealedbox, sign};

// A payload the server sealed to our device public key (Ed25519 -> Curve25519 ->
// sealedbox) is opened by our device secret key, and by no one else.
#[test]
fn device_key_seal_roundtrip() {
    sodiumoxide::init().ok();
    let (pk, sk) = sign::gen_keypair();
    // Server side: seal to the Curve25519 form of the Ed25519 public key.
    let curve_pk = sign::to_curve25519_pk(&pk).unwrap();
    let sealed = encode64(&sealedbox::seal(b"managed-password", &curve_pk));
    // Client side: our unseal helper recovers it.
    let opened = nemo_unseal_with_device_keys(&sealed, &pk.0, &sk.0).expect("unseal");
    assert_eq!(opened, b"managed-password");
    // A different device key cannot open it.
    let (pk2, sk2) = sign::gen_keypair();
    assert!(nemo_unseal_with_device_keys(&sealed, &pk2.0, &sk2.0).is_none());
    // Garbage ciphertext -> None, never a panic.
    assert!(nemo_unseal_with_device_keys("!!!not-base64!!!", &pk.0, &sk.0).is_none());
}

#[test]
fn base64_is_the_standard_alphabet_with_padding() {
    assert_eq!(encode64(b"hello world~"), "aGVsbG8gd29ybGR+");
    assert_eq!(encode64(b"a"), "YQ==");
    assert_eq!(encode64(b""), "");
    assert_eq!(decode64("YQ==").unwrap(), b"a");
    assert_eq!(decode64("aGVsbG8gd29ybGR+").unwrap(), b"hello world~");
    assert!(decode64("YQ").is_err());
    assert!(decode64("aGVsbG8gd29ybGR-").is_err());
    assert_eq!(decode64("!").unwrap_err(), "Invalid symbol 33, offset 0.");
}

#[test]
fn public_key_needs_the_right_length() {
    let key = [7u8; 32];
    assert_eq!(get_pk(&key), Some(key));
    assert_eq!(get_pk(&key[..31]), None);
    assert_eq!(get_rs_pk(&encode64(&key)), Some(key));
    assert_eq!(get_rs_pk(&encode64(&[7u8; 33])), None);
    assert_eq!(get_rs_pk("not base64"), None);
    assert_eq!(get_rs_pk(""), None);
}

#[test]
fn sealing_to_a_key_is_read_back_by_its_holder() {
    sodiumoxide::init().ok();
    let (pk, sk) = sign::gen_keypair();
    let text = encode64(&pk.0);
    assert!(can_be_sealed(b"token"));
    let sealed = nemo_seal_to_mgmt_key(b"token", &text).unwrap();
    assert_eq!(decode64(&sealed).unwrap().len(), 5 + 48);
    assert_eq!(nemo_unseal_with_device_keys(&sealed, &pk.0, &sk.0).unwrap(), b"token");
    // Every box has a key of its own.
    assert_ne!(nemo_seal_to_mgmt_key(b"token", &text).unwrap(), sealed);
}

#[test]
fn a_bad_key_seals_nothing() {
    assert!(nemo_seal_to_mgmt_key(b"token", "").is_none());
    assert!(nemo_seal_to_mgmt_key(b"token", "AAAA").is_none());
    // The zero string is a point of small order and has no Curve25519 form.
    assert!(mgmt_sealing_key(&encode64(&[0u8; 32])).is_none());
    assert!(nemo_seal_to_mgmt_key(b"token", &encode64(&[0u8; 32])).is_none());
}

fn hex(text: &str) -> Vec<u8> {
    (0..text.len() / 2).map(|i| u8::from_str_radix(&text[2 * i..2 * i + 2], 16).unwrap()).collect()
}

// The first test vector of RFC 8032.
#[test]
fn key_pair_of_a_seed_is_the_known_one() {
    let seed = hex("9d61b19deffd5a60ba844af492ec2cc44449c5697b326919703bac031cae7f60");
    let public = hex("d75a980182b10ab7d54bfed3c964073a0ee172f3daa62325af021a68f707511a");
    let (pk, sk) = key_pair_from_seed(&get_pk(&seed).unwrap());
    assert_eq!(pk.to_vec(), public);
    assert_eq!(sk[..32].to_vec(), seed);
    assert_eq!(sk[32..].to_vec(), public);
    let signature = decode64(&sign_text(b"", &sk)).unwrap();
    assert_eq!(
        signature[..32].to_vec(),
        hex("e5564300c360ac729086e2cc806e828a84877f1eb8e5d974d873e06522490155")
    );
    assert_eq!(
        signature[32..].to_vec(),
        hex("5fb8821590a33bacc61e39701cf9b46bd25bf5f0595bbe24655141438e7a100b")
    );
}

#[test]
fn key_pairs_are_told_from_other_keys() {
    let (pk, sk) = key_pair_from_seed(&[1u8; 32]);
    let (pk2, sk2) = key_pair_from_seed(&[2u8; 32]);
    assert_ne!(pk, pk2);
    assert!(is_key_pair(&pk, &sk));
    assert!(!is_key_pair(&pk, &sk2));
    assert!(!is_key_pair(&pk2, &sk));
    // The seed of one pair with the public key of another behind it.
    let mut mixed = sk;
    mixed[32..].copy_from_slice(&pk2);
    assert!(!is_key_pair(&pk, &mixed));
    assert!(!is_key_pair(&pk2, &mixed));
    let (pk3, sk3) = sign::gen_keypair();
    assert!(is_key_pair(&pk3.0, &sk3.0));
}

#[test]
fn box_forms_of_a_key_pair_go_together() {
    let (pk, sk) = key_pair_from_seed(&[1u8; 32]);
    let (pk2, sk2) = key_pair_from_seed(&[2u8; 32]);
    assert!(is_box_key_pair(&pk, &sk));
    assert!(!is_box_key_pair(&pk, &sk2));
    assert!(!is_box_key_pair(&pk2, &sk));
    // No point of the curve.
    assert!(!is_box_key_pair(&[2u8; 32], &sk));
    // The form of a secret key depends on its seed alone.
    let mut mixed = sk;
    mixed[32..].copy_from_slice(&pk2);
    assert!(is_box_key_pair(&pk, &mixed));
}

#[test]
fn signed_text_is_opened_by_the_public_key() {
    let (pk, sk) = key_pair_from_seed(&[3u8; 32]);
    let signed = decode64(&sign_text(b"policy", &sk)).unwrap();
    assert_eq!(signed.len(), 64 + 6);
    assert_eq!(sign::verify(&signed, &sign::PublicKey(pk)).unwrap(), b"policy");
    assert_eq!(signed, sign::sign(b"policy", &sign::SecretKey(sk)));
    let (pk2, _) = key_pair_from_seed(&[4u8; 32]);
    assert!(sign::verify(&signed, &sign::PublicKey(pk2)).is_err());
}

#[test]
fn what_is_sealed_to_a_seeded_pair_is_read_back() {
    sodiumoxide::init().ok();
    let (pk, sk) = key_pair_from_seed(&[5u8; 32]);
    let sealed = nemo_seal_to_mgmt_key(b"managed-password", &encode64(&pk)).unwrap();
    assert_eq!(nemo_unseal_with_device_keys(&sealed, &pk, &sk).unwrap(), b"managed-password");
}
