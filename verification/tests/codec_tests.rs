use oracle_contracts::{parse_u128, parse_u64, u128_to_dec};

#[test]
fn format_exact_values() {
    assert_eq!("0", u128_to_dec(0));
    assert_eq!("5", u128_to_dec(5));
    assert_eq!("10", u128_to_dec(10));
    assert_eq!("100000", u128_to_dec(100000));
    assert_eq!(
        "340282366920938463463374607431768211455",
        u128_to_dec(u128::MAX)
    );
}

#[test]
fn parse_round_trip() {
    for n in [0u128, 1, 9, 10, 99, 100000, 1571797419, u128::MAX] {
        assert_eq!(Some(n), parse_u128(&u128_to_dec(n)));
    }
}

#[test]
fn parse_accepts_leading_zeros() {
    assert_eq!(Some(7), parse_u128("007"));
    assert_eq!(Some(0), parse_u64("000"));
}

#[test]
fn parse_rejects_non_numerals() {
    assert_eq!(None, parse_u128(""));
    assert_eq!(None, parse_u128("abc"));
    assert_eq!(None, parse_u128("12x3"));
    assert_eq!(None, parse_u128("-5"));
    assert_eq!(None, parse_u128("+5"));
    assert_eq!(None, parse_u128(" 5"));
}

#[test]
fn parse_rejects_overflow() {
    assert_eq!(
        Some(u128::MAX),
        parse_u128("340282366920938463463374607431768211455")
    );
    assert_eq!(None, parse_u128("340282366920938463463374607431768211456"));
    assert_eq!(Some(u64::MAX), parse_u64("18446744073709551615"));
    assert_eq!(None, parse_u64("18446744073709551616"));
}
