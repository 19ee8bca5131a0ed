use cartezcash::error::DecodeError;
use cartezcash::units::{
    to_external_value, to_native_address, to_native_amount, NativeAmount, Network,
    MAX_NATIVE_AMOUNT, UNIT_RATIO,
};

fn be(value: u128) -> [u8; 32] {
    let mut bytes = [0u8; 32];
    bytes[16..].copy_from_slice(&value.to_be_bytes());
    bytes
}

#[test]
fn constants_are_those_of_the_two_units() {
    assert_eq!(UNIT_RATIO, 10_000_000_000);
    assert_eq!(MAX_NATIVE_AMOUNT, 21_000_000 * 100_000_000);
}

#[test]
fn native_amount_is_the_quotient_rounded_down() {
    for (value, zatoshis) in [
        (0u128, 0u64),
        (1, 0),
        (9_999_999_999, 0),
        (10_000_000_000, 1),
        (10_000_000_001, 1),
        (19_999_999_999, 1),
        (20_000_000_000, 2),
        (1_000_000_000_000_000_000, 100_000_000),
        (22_000_000_000_000_000_000, 2_200_000_000),
        (123_456_789_012_345_678_901, 12_345_678_901),
    ] {
        let amount = to_native_amount(&be(value)).unwrap();
        assert_eq!(amount.zatoshis(), zatoshis, "value {}", value);
    }
}

#[test]
fn native_amount_ends_at_the_largest_amount() {
    let ratio = UNIT_RATIO as u128;
    let max = MAX_NATIVE_AMOUNT as u128;
    assert_eq!(to_native_amount(&be(max * ratio)).unwrap().zatoshis(), MAX_NATIVE_AMOUNT);
    assert_eq!(
        to_native_amount(&be(max * ratio + ratio - 1)).unwrap().zatoshis(),
        MAX_NATIVE_AMOUNT
    );
    assert_eq!(to_native_amount(&be(max * ratio + ratio)), Err(DecodeError::AmountOutOfRange));
    assert_eq!(to_native_amount(&be(u128::MAX)), Err(DecodeError::AmountOutOfRange));
}

#[test]
fn native_amount_of_a_value_beyond_128_bits_is_out_of_range() {
    let mut value = [0u8; 32];
    value[0] = 1;
    assert_eq!(to_native_amount(&value), Err(DecodeError::AmountOutOfRange));
    value = [0u8; 32];
    value[15] = 1;
    assert_eq!(to_native_amount(&value), Err(DecodeError::AmountOutOfRange));
    // 2^64 * 10^10 has a quotient of which the lowest 64 bits are zero
    let value = be((1u128 << 64) * 10_000_000_000);
    assert_eq!(to_native_amount(&value), Err(DecodeError::AmountOutOfRange));
    assert_eq!(to_native_amount(&[0xff; 32]), Err(DecodeError::AmountOutOfRange));
}

#[test]
fn native_amount_reads_the_most_significant_byte_first() {
    let mut value = [0u8; 32];
    value[31] = 0x00;
    value[30] = 0xe4;
    value[29] = 0x0b;
    value[28] = 0x54;
    value[27] = 0x02;
    // 0x02540be400 = 10_000_000_000
    assert_eq!(to_native_amount(&value).unwrap().zatoshis(), 1);
}

#[test]
fn amounts_are_made_within_the_range_only() {
    assert_eq!(NativeAmount::new(0).unwrap().zatoshis(), 0);
    assert_eq!(NativeAmount::new(MAX_NATIVE_AMOUNT).unwrap().zatoshis(), MAX_NATIVE_AMOUNT);
    assert_eq!(NativeAmount::new(MAX_NATIVE_AMOUNT + 1), None);
    assert_eq!(NativeAmount::new(u64::MAX), None);
}

#[test]
fn native_address_wraps_the_hash_on_the_main_network() {
    let hash = [7u8; 20];
    let address = to_native_address(hash);
    assert_eq!(address.network, Network::Mainnet);
    assert_eq!(address.pub_key_hash, hash);
}

#[test]
fn external_value_is_the_amount_times_the_ratio() {
    let one = NativeAmount::new(1).unwrap();
    assert_eq!(to_external_value(one), be(10_000_000_000));
    let coin = NativeAmount::new(100_000_000).unwrap();
    assert_eq!(to_external_value(coin), be(1_000_000_000_000_000_000));
    let zero = NativeAmount::new(0).unwrap();
    assert_eq!(to_external_value(zero), [0u8; 32]);
    let max = NativeAmount::new(MAX_NATIVE_AMOUNT).unwrap();
    assert_eq!(to_external_value(max), be(21_000_000_000_000_000_000_000_000));
}

#[test]
fn external_value_converts_back() {
    for zatoshis in [0, 1, 2, 99, 100_000_000, 12_345_678_901, MAX_NATIVE_AMOUNT] {
        let amount = NativeAmount::new(zatoshis).unwrap();
        assert_eq!(to_native_amount(&to_external_value(amount)), Ok(amount));
    }
}
