use saturn::balance::u128_to_decimal;
use saturn::call::{create_core_args, FeeAsset, JsFeeAsset};
use saturn::payload::hex_with_prefix;
use saturn::scale::{compact_u32_encoded, era_immortal_encoded, tip_zero_encoded, u32_be_bytes, u64_be_bytes};

#[test]
fn hex_rendering_exact() {
    assert_eq!(hex_with_prefix(&vec![0xDE, 0xAD, 0x01]), "0xdead01");
    assert_eq!(hex_with_prefix(&Vec::new()), "0x");
}

#[test]
fn big_endian_bytes_exact() {
    assert_eq!(u32_be_bytes(100), vec![0, 0, 0, 100]);
    assert_eq!(u32_be_bytes(0x01020304), vec![1, 2, 3, 4]);
    assert_eq!(u64_be_bytes(5), vec![0, 0, 0, 0, 0, 0, 0, 5]);
    assert_eq!(u64_be_bytes(u64::MAX), vec![0xFF; 8]);
}

#[test]
fn compact_encoding_single_byte_mode() {
    assert_eq!(compact_u32_encoded(0), vec![0x00]);
    assert_eq!(compact_u32_encoded(1), vec![0x04]);
    assert_eq!(compact_u32_encoded(63), vec![0xFC]);
}

#[test]
fn compact_encoding_two_byte_mode() {
    assert_eq!(compact_u32_encoded(64), vec![0x01, 0x01]);
    assert_eq!(compact_u32_encoded(16383), vec![0xFD, 0xFF]);
}

#[test]
fn compact_encoding_four_byte_mode() {
    assert_eq!(compact_u32_encoded(16384), vec![0x02, 0x00, 0x01, 0x00]);
    assert_eq!(compact_u32_encoded(0x3FFFFFFF), vec![0xFE, 0xFF, 0xFF, 0xFF]);
}

#[test]
fn compact_encoding_big_number_mode() {
    assert_eq!(compact_u32_encoded(0x40000000), vec![0x03, 0x00, 0x00, 0x00, 0x40]);
    assert_eq!(compact_u32_encoded(u32::MAX), vec![0x03, 0xFF, 0xFF, 0xFF, 0xFF]);
}

#[test]
fn era_and_tip_markers() {
    assert_eq!(era_immortal_encoded(), vec![0x00]);
    assert_eq!(tip_zero_encoded(), vec![0x00]);
}

#[test]
fn balance_decimal_rendering() {
    assert_eq!(u128_to_decimal(0), "0");
    assert_eq!(u128_to_decimal(7), "7");
    assert_eq!(u128_to_decimal(12345), "12345");
    assert_eq!(u128_to_decimal(1000000000000), "1000000000000");
    assert_eq!(u128_to_decimal(u128::MAX), "340282366920938463463374607431768211455");
}

#[test]
fn core_call_args_encode_metadata() {
    let args = create_core_args("abc", 500000000, 1000000000, JsFeeAsset::TNKR);
    assert_eq!(args.metadata_encoded, vec![0x0C, b'a', b'b', b'c']);
    assert_eq!(args.minimum_support, 500000000);
    assert_eq!(args.required_approval, 1000000000);
    assert_eq!(args.fee_asset, FeeAsset::TNKR);
}

#[test]
fn core_call_args_clamp_proportions() {
    let args = create_core_args("", 2000000000, 1000000001, JsFeeAsset::KSM);
    assert_eq!(args.metadata_encoded, vec![0x00]);
    assert_eq!(args.minimum_support, 1000000000);
    assert_eq!(args.required_approval, 1000000000);
    assert_eq!(args.fee_asset, FeeAsset::KSM);
}

#[test]
fn fee_asset_mapping() {
    assert_eq!(FeeAsset::from(JsFeeAsset::TNKR), FeeAsset::TNKR);
    assert_eq!(FeeAsset::from(JsFeeAsset::KSM), FeeAsset::KSM);
}
