use arbiscan::amount::{amount_to_u128, u128_to_amount, u64_to_amount};

#[test]
fn amount_of_a_number() {
    assert_eq!(u128_to_amount(0), [0u8; 32]);
    let mut want = [0u8; 32];
    want[31] = 1;
    assert_eq!(u128_to_amount(1), want);
    let mut want = [0u8; 32];
    want[16..].copy_from_slice(&1_500_000_000_000_000_000u128.to_be_bytes());
    assert_eq!(u128_to_amount(1_500_000_000_000_000_000), want);
    let mut want = [0u8; 32];
    want[16..].copy_from_slice(&[0xff; 16]);
    assert_eq!(u128_to_amount(u128::MAX), want);
    let mut want = [0u8; 32];
    want[24..].copy_from_slice(&0x0102030405060708u64.to_be_bytes());
    assert_eq!(u64_to_amount(0x0102030405060708), want);
}

#[test]
fn number_of_an_amount() {
    for x in [0u128, 1, 255, 256, 65535, 1 << 64, u128::MAX - 1, u128::MAX, 1_500_000_000_000_000_000] {
        assert_eq!(amount_to_u128(&u128_to_amount(x)), Some(x));
    }
}

#[test]
fn amounts_above_128_bits_are_no_number() {
    for i in 0..16 {
        let mut a = [0u8; 32];
        a[i] = 1;
        assert_eq!(amount_to_u128(&a), None, "{i}");
    }
    let mut a = [0xffu8; 32];
    assert_eq!(amount_to_u128(&a), None);
    a[..16].copy_from_slice(&[0u8; 16]);
    assert_eq!(amount_to_u128(&a), Some(u128::MAX));
}
