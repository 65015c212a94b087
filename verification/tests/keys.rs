//! Tests of key material: raw construction, the checksummed text forms in
//! both directions, and each parse failure mode.

use alvearium::crypto::KeyFormatError;
use alvearium::crypto::PrivateKey;
use alvearium::crypto::PublicKey;
use alvearium::enc::encode_to_vec;

use sha2::Digest;

fn secret_bytes() -> Vec<u8> {
    (1u8..=32).collect()
}

#[test]
fn private_key_round_trips_through_its_text_form() {
    let key = PrivateKey::from_bytes(secret_bytes()).unwrap();
    let wif = key.to_wif();
    let parsed = PrivateKey::from_wif(&wif).unwrap();
    assert_eq!(parsed.to_wif(), wif);
}

#[test]
fn private_key_text_form_layout() {
    let key = PrivateKey::from_bytes(secret_bytes()).unwrap();
    let wif = key.to_wif();
    let raw = bs58::decode(&wif).into_vec().unwrap();
    assert_eq!(raw.len(), 37);
    assert_eq!(raw[0], 0x80);
    assert_eq!(&raw[1..33], &secret_bytes()[..]);
    let check: [u8; 32] = sha2::Sha256::digest(sha2::Sha256::digest(&raw[..33])).into();
    assert_eq!(&raw[33..], &check[..4]);
}

#[test]
fn private_key_rejects_bad_text() {
    // not base58 at all
    assert!(matches!(PrivateKey::from_wif("0OIl"), Err(KeyFormatError::InvalidEncoding)));
    // valid base58, wrong payload length
    let short = bs58::encode([0x80u8, 1, 2, 3]).into_string();
    assert!(matches!(PrivateKey::from_wif(&short), Err(KeyFormatError::BadLength)));
    // wrong version byte
    let mut framed = vec![0x7f];
    framed.extend_from_slice(&secret_bytes());
    let check: [u8; 32] = sha2::Sha256::digest(sha2::Sha256::digest(&framed)).into();
    framed.extend_from_slice(&check[..4]);
    let wrong_version = bs58::encode(&framed).into_string();
    assert!(matches!(PrivateKey::from_wif(&wrong_version), Err(KeyFormatError::BadVersion)));
    // corrupted checksum
    let key = PrivateKey::from_bytes(secret_bytes()).unwrap();
    let mut raw = bs58::decode(&key.to_wif()).into_vec().unwrap();
    raw[36] ^= 0xff;
    let tampered = bs58::encode(&raw).into_string();
    assert!(matches!(PrivateKey::from_wif(&tampered), Err(KeyFormatError::BadChecksum)));
}

#[test]
fn private_key_rejects_bad_bytes() {
    assert!(matches!(PrivateKey::from_bytes(vec![1, 2, 3]), Err(KeyFormatError::BadLength)));
    // the zero scalar is not a valid key
    assert!(matches!(PrivateKey::from_bytes(vec![0u8; 32]), Err(KeyFormatError::InvalidKey)));
}

fn public_bytes() -> Vec<u8> {
    let sk = secp256k1::SecretKey::from_secret_bytes([9u8; 32]).unwrap();
    secp256k1::PublicKey::from_secret_key(&sk).serialize().to_vec()
}

#[test]
fn public_key_round_trips_through_its_text_form() {
    let key = PublicKey::from_bytes(public_bytes()).unwrap();
    let wif = key.to_wif();
    assert!(wif.starts_with("STM"));
    let parsed = PublicKey::from_wif(&wif).unwrap();
    assert_eq!(parsed.to_wif(), wif);
    assert_eq!(encode_to_vec(parsed).unwrap(), public_bytes());
}

#[test]
fn public_key_text_form_layout() {
    let key = PublicKey::from_bytes(public_bytes()).unwrap();
    let wif = key.to_wif();
    let raw = bs58::decode(&wif[3..]).into_vec().unwrap();
    assert_eq!(raw.len(), 37);
    assert_eq!(&raw[..33], &public_bytes()[..]);
    let check = ripemd::Ripemd160::digest(&raw[..33]);
    assert_eq!(&raw[33..], &check[..4]);
}

#[test]
fn public_key_rejects_bad_text() {
    assert!(matches!(PublicKey::from_wif("ABC"), Err(KeyFormatError::BadVersion)));
    assert!(matches!(PublicKey::from_wif("ST"), Err(KeyFormatError::BadVersion)));
    assert!(matches!(PublicKey::from_wif("STM0OIl"), Err(KeyFormatError::InvalidEncoding)));
    let short = format!("STM{}", bs58::encode([1u8, 2, 3]).into_string());
    assert!(matches!(PublicKey::from_wif(&short), Err(KeyFormatError::BadLength)));
    let key = PublicKey::from_bytes(public_bytes()).unwrap();
    let wif = key.to_wif();
    let mut raw = bs58::decode(&wif[3..]).into_vec().unwrap();
    raw[33] ^= 0x01;
    let tampered = format!("STM{}", bs58::encode(&raw).into_string());
    assert!(matches!(PublicKey::from_wif(&tampered), Err(KeyFormatError::BadChecksum)));
}

#[test]
fn public_key_encodes_as_33_raw_bytes() {
    let key = PublicKey::from_bytes(public_bytes()).unwrap();
    let encoded = encode_to_vec(key).unwrap();
    assert_eq!(encoded.len(), 33);
    assert_eq!(encoded, public_bytes());
    assert_eq!(
        PublicKey::from_bytes(vec![1, 2, 3]).map(|_| ()),
        Err(KeyFormatError::BadLength)
    );
}
