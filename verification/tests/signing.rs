//! Tests of the signer: the 65-byte signature layout, the network-id
//! prefixing of the signed message, and independent verification of the
//! produced signatures against the transaction digest.

use alvearium::crypto::PrivateKey;
use alvearium::enc::encode_to_vec;
use alvearium::operation::CustomJson;
use alvearium::operation::Operation;
use alvearium::time::Timestamp;
use alvearium::transaction::TxSignProperties;
use alvearium::transaction::UnsignedTransaction;

use secp256k1::ecdsa::RecoverableSignature;
use secp256k1::ecdsa::RecoveryId;
use sha2::Digest;

fn reference() -> TxSignProperties {
    TxSignProperties {
        time: Timestamp::from_unix_seconds(1_704_067_200),
        ref_block_num: 100,
        ref_block_prefix: String::from("00000000aabbccdd"),
    }
}

fn build_unsigned() -> UnsignedTransaction {
    let op = Operation::CustomJson(CustomJson {
        required_auths: vec![],
        required_posting_auths: vec![String::from("alice")],
        id: String::from("follow"),
        json: String::from("{}"),
    });
    UnsignedTransaction::new(&reference(), vec![op]).unwrap()
}

fn key_bytes() -> Vec<u8> {
    let mut bytes = vec![0u8; 32];
    bytes[31] = 1;
    bytes[0] = 0x2a;
    bytes
}

fn digest_for(chain_id: &[u8]) -> [u8; 32] {
    let encoded = encode_to_vec(build_unsigned()).unwrap();
    let mut message = chain_id.to_vec();
    message.extend_from_slice(&encoded);
    sha2::Sha256::digest(&message).into()
}

fn default_chain_id() -> [u8; 32] {
    let mut id = [0u8; 32];
    id[..4].copy_from_slice(&[0xbe, 0xea, 0xb0, 0xde]);
    id
}

/// Recovers the signing public key from one hex signature entry.
fn recover(signature_hex: &str, digest: [u8; 32]) -> secp256k1::PublicKey {
    assert_eq!(signature_hex.len(), 130);
    let sig_bytes: Vec<u8> = (0..65)
        .map(|i| u8::from_str_radix(&signature_hex[2 * i..2 * i + 2], 16).unwrap())
        .collect();
    assert!((31..=34).contains(&sig_bytes[0]));
    let recid = RecoveryId::try_from((sig_bytes[0] - 31) as i32).unwrap();
    let sig = RecoverableSignature::from_compact(&sig_bytes[1..], recid).unwrap();
    sig.recover_ecdsa(secp256k1::Message::from_digest(digest)).unwrap()
}

#[test]
fn signing_twice_yields_signatures_that_both_verify() {
    let key = PrivateKey::from_bytes(key_bytes()).unwrap();
    let expected_pk = secp256k1::PublicKey::from_secret_key(
        &secp256k1::SecretKey::from_secret_bytes(key_bytes().try_into().unwrap()).unwrap(),
    );
    let digest = digest_for(&default_chain_id());

    let first = build_unsigned().sign(&key, None);
    let second = build_unsigned().sign(&key, None);
    assert_eq!(first.signatures.len(), 1);
    assert_eq!(second.signatures.len(), 1);
    assert_eq!(recover(&first.signatures[0], digest), expected_pk);
    assert_eq!(recover(&second.signatures[0], digest), expected_pk);
}

#[test]
fn chain_id_override_changes_the_signed_message() {
    let key = PrivateKey::from_bytes(key_bytes()).unwrap();
    let expected_pk = secp256k1::PublicKey::from_secret_key(
        &secp256k1::SecretKey::from_secret_bytes(key_bytes().try_into().unwrap()).unwrap(),
    );
    let test_net = [0x42u8; 32];
    let signed = build_unsigned().sign(&key, Some(test_net));
    let digest = digest_for(&test_net);
    assert_eq!(recover(&signed.signatures[0], digest), expected_pk);

    // Against the production digest the same signature recovers some other
    // key (or none): the network id is part of the signed message.
    let production_digest = digest_for(&default_chain_id());
    let recid = RecoveryId::try_from(
        (u8::from_str_radix(&signed.signatures[0][..2], 16).unwrap() - 31) as i32,
    )
    .unwrap();
    let sig_bytes: Vec<u8> = (1..65)
        .map(|i| u8::from_str_radix(&signed.signatures[0][2 * i..2 * i + 2], 16).unwrap())
        .collect();
    let sig = RecoverableSignature::from_compact(&sig_bytes, recid).unwrap();
    match sig.recover_ecdsa(secp256k1::Message::from_digest(production_digest)) {
        Ok(pk) => assert_ne!(pk, expected_pk),
        Err(_) => {},
    }
}

#[test]
fn signing_is_deterministic_and_low_s() {
    // The RFC 6979 signer is deterministic, so equal inputs give equal
    // signature entries.
    let key = PrivateKey::from_bytes(key_bytes()).unwrap();
    let first = build_unsigned().sign(&key, None);
    let second = build_unsigned().sign(&key, None);
    assert_eq!(first.signatures[0], second.signatures[0]);

    // The s half (bytes 33..65 of the 65-byte layout) stays in lower-S form:
    // compared big-endian, it never exceeds (group order - 1) / 2.
    let sig_bytes: Vec<u8> = (0..65)
        .map(|i| u8::from_str_radix(&first.signatures[0][2 * i..2 * i + 2], 16).unwrap())
        .collect();
    let s_half = &sig_bytes[33..65];
    let half_order: [u8; 32] = [
        0x7f, 0xff, 0xff, 0xff, 0xff, 0xff, 0xff, 0xff, 0xff, 0xff, 0xff, 0xff, 0xff, 0xff, 0xff,
        0xff, 0x5d, 0x57, 0x6e, 0x73, 0x57, 0xa4, 0x50, 0x1d, 0xdf, 0xe9, 0x2f, 0x46, 0x68, 0x1b,
        0x20, 0xa0,
    ];
    assert!(s_half <= &half_order[..]);
}

#[test]
fn signature_entry_is_65_bytes_of_lowercase_hex() {
    let key = PrivateKey::from_bytes(key_bytes()).unwrap();
    let signed = build_unsigned().sign(&key, None);
    let entry = &signed.signatures[0];
    assert_eq!(entry.len(), 130);
    assert!(entry.chars().all(|c| c.is_ascii_hexdigit() && !c.is_ascii_uppercase()));
    let first_byte = u8::from_str_radix(&entry[..2], 16).unwrap();
    assert!((31..=34).contains(&first_byte));
}

#[test]
fn sha256_wrapper_matches_reference_digest() {
    // SHA-256 of the empty string, as published in the FIPS 180 test vectors.
    let digest = alvearium::crypto::sha256(&Vec::new());
    let expected: [u8; 32] = sha2::Sha256::digest([]).into();
    assert_eq!(digest, expected.to_vec());
    assert_eq!(
        alvearium::hexstr::encode_hex(&digest),
        "e3b0c44298fc1c149afbf4c8996fb92427ae41e4649b934ca495991b7852b855"
    );
}
