use starpass::decimal::{append, i128_to_decimal, u64_to_decimal};

#[test]
fn test_u64_to_decimal_zero() {
    let mut buf = [0u8; 20];
    let s = u64_to_decimal(0, &mut buf);
    assert_eq!(s, b"0");
}

#[test]
fn test_u64_to_decimal_values() {
    let mut buf = [0u8; 20];
    assert_eq!(u64_to_decimal(1, &mut buf), b"1");
    assert_eq!(u64_to_decimal(42, &mut buf), b"42");
    assert_eq!(u64_to_decimal(1_000_000, &mut buf), b"1000000");
    assert_eq!(u64_to_decimal(u64::MAX, &mut buf), b"18446744073709551615");
}

#[test]
fn test_i128_to_decimal_values() {
    let mut buf = [0u8; 40];
    assert_eq!(i128_to_decimal(0, &mut buf), b"0");
    assert_eq!(i128_to_decimal(975_000, &mut buf), b"975000");
    assert_eq!(i128_to_decimal(-1, &mut buf), b"-1");
    assert_eq!(i128_to_decimal(-975_000, &mut buf), b"-975000");
    assert_eq!(
        i128_to_decimal(i128::MAX, &mut buf),
        b"170141183460469231731687303715884105727"
    );
    assert_eq!(
        i128_to_decimal(i128::MIN, &mut buf),
        b"-170141183460469231731687303715884105728"
    );
}

#[test]
fn decimal_text_stands_at_the_front_of_its_buffer() {
    let mut buf = [b'x'; 20];
    assert_eq!(u64_to_decimal(907, &mut buf), b"907");
    assert_eq!(&buf[..5], b"907xx");

    let mut wide = [b'x'; 40];
    assert_eq!(i128_to_decimal(-40, &mut wide), b"-40");
    assert_eq!(&wide[..5], b"-40xx");
}

#[test]
fn decimal_text_has_its_greatest_lengths() {
    let mut buf = [0u8; 20];
    assert_eq!(u64_to_decimal(u64::MAX, &mut buf).len(), 20);
    let mut wide = [0u8; 40];
    assert_eq!(i128_to_decimal(i128::MIN, &mut wide).len(), 40);
}

#[test]
fn append_writes_at_the_cursor_and_moves_it() {
    let mut buf = [b'.'; 8];
    let mut cursor = 0usize;
    append(&mut buf, &mut cursor, b"ab");
    append(&mut buf, &mut cursor, b"");
    append(&mut buf, &mut cursor, b"cde");
    assert_eq!(cursor, 5);
    assert_eq!(&buf, b"abcde...");
    append(&mut buf, &mut cursor, b"fgh");
    assert_eq!(cursor, 8);
    assert_eq!(&buf, b"abcdefgh");
}
