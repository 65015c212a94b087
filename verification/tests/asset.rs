//! Tests of the asset model: symbol-derived precision, fixed-point
//! rescaling, the 7-byte symbol field, and the outward text form.

use alvearium::enc::encode_to_vec;
use alvearium::enc::EncodeError;
use alvearium::operation::Asset;
use alvearium::operation::AssetSymbol;
use alvearium::operation::NaiError;

#[test]
fn primary_symbol_asset_rescales_to_thousandths() {
    let encoded = encode_to_vec(Asset::new(1, AssetSymbol::HIVE)).unwrap();
    let mut expected = vec![0xe8, 0x03, 0, 0, 0, 0, 0, 0]; // 1000 as i64 LE
    expected.push(3); // precision
    expected.extend_from_slice(b"STEEM\0\0");
    assert_eq!(encoded, expected);
}

#[test]
fn vesting_symbol_asset_rescales_to_millionths() {
    let encoded = encode_to_vec(Asset::new(1, AssetSymbol::VESTS)).unwrap();
    let mut expected = vec![0x40, 0x42, 0x0f, 0, 0, 0, 0, 0]; // 1_000_000 as i64 LE
    expected.push(6); // precision
    expected.extend_from_slice(b"VESTS\0\0");
    assert_eq!(encoded, expected);
}

#[test]
fn legacy_alias_symbols_share_wire_codes() {
    let hive = encode_to_vec(Asset::new(5, AssetSymbol::HIVE)).unwrap();
    let steem = encode_to_vec(Asset::new(5, AssetSymbol::STEEM)).unwrap();
    assert_eq!(hive, steem);
    let hbd = encode_to_vec(Asset::new(5, AssetSymbol::HBD)).unwrap();
    let sbd = encode_to_vec(Asset::new(5, AssetSymbol::SBD)).unwrap();
    assert_eq!(hbd, sbd);
    assert_eq!(&hbd[9..], b"SBD\0\0\0\0");
}

#[test]
fn test_symbols_have_their_own_codes() {
    let tests = encode_to_vec(Asset::new(2, AssetSymbol::TESTS)).unwrap();
    assert_eq!(&tests[9..], b"TESTS\0\0");
    let tbd = encode_to_vec(Asset::new(2, AssetSymbol::TBD)).unwrap();
    assert_eq!(&tbd[9..], b"TBD\0\0\0\0");
}

#[test]
fn precision_is_derived_from_symbol() {
    assert_eq!(Asset::new(0, AssetSymbol::HIVE).precision(), 3);
    assert_eq!(Asset::new(0, AssetSymbol::HBD).precision(), 3);
    assert_eq!(Asset::new(0, AssetSymbol::VESTS).precision(), 6);
    assert_eq!(Asset::new(0, AssetSymbol::TESTS).precision(), 3);
}

#[test]
fn asset_text_form_spells_amount_to_precision_places() {
    assert_eq!(Asset::new(100, AssetSymbol::HIVE).to_text(), "100.000 HIVE");
    assert_eq!(Asset::new(100, AssetSymbol::VESTS).to_text(), "100.000000 VESTS");
    assert_eq!(Asset::new(0, AssetSymbol::HBD).to_text(), "0.000 HBD");
    assert_eq!(Asset::new(-7, AssetSymbol::TBD).to_text(), "-7.000 TBD");
}

#[test]
fn negative_amounts_rescale_and_encode_twos_complement() {
    let encoded = encode_to_vec(Asset::new(-1, AssetSymbol::HIVE)).unwrap();
    // -1000 as i64 LE
    assert_eq!(&encoded[..8], &[0x18, 0xfc, 0xff, 0xff, 0xff, 0xff, 0xff, 0xff]);
}

#[test]
fn rescaling_overflow_is_a_fatal_encode_error() {
    let too_large = Asset::new(i64::MAX / 1000 + 1, AssetSymbol::HIVE);
    assert!(matches!(encode_to_vec(too_large), Err(EncodeError::Error)));
    let too_small = Asset::new(i64::MIN / 1_000_000 - 1, AssetSymbol::VESTS);
    assert!(matches!(encode_to_vec(too_small), Err(EncodeError::Error)));
    // The largest representable display amounts still encode.
    assert!(encode_to_vec(Asset::new(9_223_372_036_854_775, AssetSymbol::HIVE)).is_ok());
    assert!(encode_to_vec(Asset::new(-9_223_372_036_854, AssetSymbol::VESTS)).is_ok());
}

#[test]
fn nai_table_resolves_known_ids_only() {
    assert_eq!(AssetSymbol::try_from_nai("@@00000013"), Ok(AssetSymbol::HBD));
    assert_eq!(AssetSymbol::try_from_nai("@@00000021"), Ok(AssetSymbol::STEEM));
    assert_eq!(AssetSymbol::try_from_nai("@@00000037"), Ok(AssetSymbol::VESTS));
    assert_eq!(AssetSymbol::try_from_nai("@@00000042"), Err(NaiError));
    assert_eq!(AssetSymbol::try_from_nai(""), Err(NaiError));
}

#[test]
fn display_names_match_symbols() {
    assert_eq!(AssetSymbol::HIVE.display_str(), "HIVE");
    assert_eq!(AssetSymbol::VESTS.display_str(), "VESTS");
    assert_eq!(AssetSymbol::SBD.display_str(), "SBD");
}
