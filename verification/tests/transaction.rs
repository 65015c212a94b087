//! Tests of timestamp encoding, hex decoding, and the transaction builder,
//! including the end-to-end determinism of building and encoding.

use alvearium::enc::encode_to_vec;
use alvearium::enc::EncodeError;
use alvearium::operation::CustomJson;
use alvearium::operation::Operation;
use alvearium::time::Timestamp;
use alvearium::transaction::decode_hex;
use alvearium::transaction::resolve_tx_sign_properties;
use alvearium::transaction::BlockchainMode;
use alvearium::transaction::DecodeHexError;
use alvearium::transaction::Transaction;
use alvearium::transaction::TransactionCreateError;
use alvearium::transaction::TxSignProperties;
use alvearium::transaction::UnsignedTransaction;

#[test]
fn timestamp_encodes_unix_seconds_little_endian() {
    // 2024-01-01T00:00:00 UTC
    let t = Timestamp::from_unix_seconds(1_704_067_200);
    assert_eq!(encode_to_vec(t).unwrap(), vec![0x80, 0x00, 0x92, 0x65]);
    assert_eq!(encode_to_vec(Timestamp::from_unix_seconds(0)).unwrap(), vec![0, 0, 0, 0]);
    assert_eq!(
        encode_to_vec(Timestamp::from_unix_seconds(u32::MAX as i64)).unwrap(),
        vec![0xff, 0xff, 0xff, 0xff]
    );
}

#[test]
fn timestamp_out_of_range_is_a_fatal_encode_error() {
    let before_epoch = Timestamp::from_unix_seconds(-1);
    assert!(matches!(encode_to_vec(before_epoch), Err(EncodeError::Error)));
    let past_ceiling = Timestamp::from_unix_seconds(u32::MAX as i64 + 1);
    assert!(matches!(encode_to_vec(past_ceiling), Err(EncodeError::Error)));
}

#[test]
fn decode_hex_decodes_digit_pairs() {
    assert_eq!(decode_hex("00000000aabbccdd").unwrap(), vec![0, 0, 0, 0, 0xaa, 0xbb, 0xcc, 0xdd]);
    assert_eq!(decode_hex("").unwrap(), Vec::<u8>::new());
    assert_eq!(decode_hex("DEADbeef").unwrap(), vec![0xde, 0xad, 0xbe, 0xef]);
}

#[test]
fn decode_hex_rejects_odd_length_and_bad_digits() {
    assert_eq!(decode_hex("abc"), Err(DecodeHexError::OddLength));
    assert_eq!(decode_hex("zz"), Err(DecodeHexError::ParseInt));
    assert_eq!(decode_hex("a-"), Err(DecodeHexError::ParseInt));
}

fn reference() -> TxSignProperties {
    TxSignProperties {
        time: Timestamp::from_unix_seconds(1_704_067_200),
        ref_block_num: 100,
        ref_block_prefix: String::from("00000000aabbccdd"),
    }
}

fn one_custom_json() -> Vec<Operation> {
    vec![Operation::CustomJson(CustomJson {
        required_auths: vec![],
        required_posting_auths: vec![String::from("alice")],
        id: String::from("follow"),
        json: String::from("{}"),
    })]
}

#[test]
fn builder_derives_reference_binding_and_expiration() {
    let tx = UnsignedTransaction::new(&reference(), one_custom_json()).unwrap();
    assert_eq!(tx.ref_block_num, 100);
    // Bytes 4..8 of the decoded block id, read little-endian.
    assert_eq!(tx.ref_block_prefix, u32::from_le_bytes([0xaa, 0xbb, 0xcc, 0xdd]));
    assert_eq!(tx.expiration.secs, 1_704_067_200 + 600);
    assert_eq!(tx.operations.len(), 1);
    assert!(tx.extensions.is_empty());
}

#[test]
fn builder_truncates_reference_block_number_to_16_bits() {
    let mut props = reference();
    props.ref_block_num = 0x0001_0064;
    let tx = UnsignedTransaction::new(&props, vec![]).unwrap();
    assert_eq!(tx.ref_block_num, 0x64);
}

#[test]
fn builder_rejects_malformed_block_id_hex() {
    let mut props = reference();
    props.ref_block_prefix = String::from("00000000aabbccd");
    assert!(matches!(
        UnsignedTransaction::new(&props, vec![]),
        Err(TransactionCreateError::PrefixDecodeError(DecodeHexError::OddLength))
    ));
    props.ref_block_prefix = String::from("00000000aabbccdg");
    assert!(matches!(
        UnsignedTransaction::new(&props, vec![]),
        Err(TransactionCreateError::PrefixDecodeError(DecodeHexError::ParseInt))
    ));
    props.ref_block_prefix = String::from("aabbccdd");
    assert!(matches!(
        UnsignedTransaction::new(&props, vec![]),
        Err(TransactionCreateError::PrefixTooShort)
    ));
}

#[test]
fn build_then_encode_is_deterministic() {
    let first = encode_to_vec(UnsignedTransaction::new(&reference(), one_custom_json()).unwrap())
        .unwrap();
    let second = encode_to_vec(UnsignedTransaction::new(&reference(), one_custom_json()).unwrap())
        .unwrap();
    assert_eq!(first, second);

    // The full expected image, field by field.
    let mut expected: Vec<u8> = Vec::new();
    expected.extend_from_slice(&[0x64, 0x00]); // ref_block_num 100 as u16 LE
    expected.extend_from_slice(&[0xaa, 0xbb, 0xcc, 0xdd]); // ref_block_prefix LE
    expected.extend_from_slice(&[0xd8, 0x02, 0x92, 0x65]); // expiration 1704067800 LE
    expected.push(1); // one operation
    expected.push(18); // custom_json discriminant
    expected.push(0); // no required_auths
    expected.push(1); // one posting auth
    expected.extend_from_slice(&[5, b'a', b'l', b'i', b'c', b'e']);
    expected.extend_from_slice(&[6, b'f', b'o', b'l', b'l', b'o', b'w']);
    expected.extend_from_slice(&[2, b'{', b'}']);
    expected.push(0); // extensions
    assert_eq!(first, expected);
}

#[test]
fn operation_discriminants_are_pinned() {
    let ops = one_custom_json();
    let encoded = encode_to_vec(ops).unwrap();
    // count, then the custom_json discriminant as a varint
    assert_eq!(encoded[0], 1);
    assert_eq!(encoded[1], 18);

    let custom = Operation::Custom(alvearium::operation::Custom {
        required_auths: vec![],
        id: 7,
        data: String::from("x"),
    });
    assert_eq!(custom.numeric_id(), 15);
    assert_eq!(encode_to_vec(custom).unwrap()[0], 15);
}

#[test]
fn operation_string_tags_are_pinned() {
    let op = one_custom_json().pop().unwrap();
    assert_eq!(op.string_tag(), "custom_json");
    let custom = Operation::Custom(alvearium::operation::Custom {
        required_auths: vec![],
        id: 0,
        data: String::new(),
    });
    assert_eq!(custom.string_tag(), "custom");
}

#[test]
fn signed_transaction_carries_fields_over() {
    let key = alvearium::crypto::PrivateKey::from_bytes(vec![7u8; 32]).unwrap();
    let tx = UnsignedTransaction::new(&reference(), one_custom_json()).unwrap();
    let signed: Transaction = tx.sign(&key, None);
    assert_eq!(signed.ref_block_num, 100);
    assert_eq!(signed.ref_block_prefix, u32::from_le_bytes([0xaa, 0xbb, 0xcc, 0xdd]));
    assert_eq!(signed.expiration.secs, 1_704_067_800);
    assert_eq!(signed.operations.len(), 1);
    assert_eq!(signed.signatures.len(), 1);
    assert!(signed.extensions.is_empty());
}

#[test]
fn encodability_check_matches_encoding_outcome() {
    let good = UnsignedTransaction::new(&reference(), one_custom_json()).unwrap();
    assert!(good.is_encodable());

    let mut late = UnsignedTransaction::new(&reference(), one_custom_json()).unwrap();
    late.expiration = Timestamp::from_unix_seconds(u32::MAX as i64 + 1);
    assert!(!late.is_encodable());
    assert!(encode_to_vec(late).is_err());

    let overflowing = Operation::AccountCreate(alvearium::operation::AccountCreate {
        fee: alvearium::operation::Asset::new(i64::MAX, alvearium::operation::AssetSymbol::HIVE),
        creator: String::new(),
        new_account_name: String::new(),
        owner: empty_authority(),
        active: empty_authority(),
        posting: empty_authority(),
        memo_key: alvearium::crypto::PublicKey::from_bytes(vec![2u8; 33]).unwrap(),
        json_metadata: String::new(),
    });
    assert!(!overflowing.is_encodable());
    let mut tx = UnsignedTransaction::new(&reference(), vec![overflowing]).unwrap();
    assert!(!tx.is_encodable());
    tx.operations.clear();
    assert!(tx.is_encodable());
}

fn empty_authority() -> alvearium::operation::AuthorityType {
    alvearium::operation::AuthorityType {
        weight_threshold: 1,
        account_auths: vec![],
        key_auths: vec![],
    }
}

#[test]
fn time_text_forms_round_trip() {
    let t = Timestamp::from_unix_seconds(1_704_067_200);
    let text = alvearium::time::format_hive_time(&t);
    assert_eq!(text, "2024-01-01T00:00:00");
    let parsed = alvearium::time::parse_hive_time(&text).unwrap();
    assert_eq!(parsed.secs, 1_704_067_200);
    assert_eq!(
        alvearium::time::parse_hive_time("2016-03-24T16:05:58").unwrap().secs,
        1_458_835_558
    );
    assert!(alvearium::time::parse_hive_time("not a time").is_none());
    assert!(alvearium::time::parse_hive_time("2024-13-01T00:00:00").is_none());
}

#[test]
fn mode_selects_the_block_marker() {
    let time = Timestamp::from_unix_seconds(1_704_067_200);

    let reversible = resolve_tx_sign_properties(
        &BlockchainMode::Reversible,
        time,
        900,
        String::from("aa00000000000000"),
        850,
        None,
    )
    .unwrap();
    assert_eq!(reversible.ref_block_num, 900);
    assert_eq!(reversible.ref_block_prefix, "aa00000000000000");

    let irreversible = resolve_tx_sign_properties(
        &BlockchainMode::Irreversible,
        time,
        900,
        String::from("aa00000000000000"),
        850,
        Some(String::from("bb00000000000000")),
    )
    .unwrap();
    assert_eq!(irreversible.ref_block_num, 850);
    assert_eq!(irreversible.ref_block_prefix, "bb00000000000000");

    assert!(resolve_tx_sign_properties(
        &BlockchainMode::Irreversible,
        time,
        900,
        String::from("aa00000000000000"),
        850,
        None,
    )
    .is_none());
}
