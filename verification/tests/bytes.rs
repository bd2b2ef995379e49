use podping::bytes::{append_bytes, append_decimal, bytes_eq, str_eq};

#[test]
fn decimal_digits() {
    for n in [0u64, 7, 10, 99, 100, 1700000000, u64::MAX] {
        let mut out = vec![b'x'];
        append_decimal(&mut out, n);
        assert_eq!(out, format!("x{}", n).into_bytes());
    }
}

#[test]
fn equality_and_append() {
    assert!(bytes_eq(b"abc", b"abc"));
    assert!(!bytes_eq(b"abc", b"abd"));
    assert!(!bytes_eq(b"abc", b"ab"));
    assert!(str_eq("🧮", "🧮"));
    assert!(!str_eq("ping", "pong"));
    let mut v = vec![1u8];
    append_bytes(&mut v, &[2, 3]);
    assert_eq!(v, vec![1, 2, 3]);
}
