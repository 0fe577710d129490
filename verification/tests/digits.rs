use dot_jaeger::digits::format_usize;

#[test]
fn single_digits() {
    for n in 0..10 {
        assert_eq!(format_usize(n), n.to_string());
    }
}

#[test]
fn round_numbers_keep_their_zeros() {
    assert_eq!(format_usize(10), "10");
    assert_eq!(format_usize(100), "100");
    assert_eq!(format_usize(1000000), "1000000");
}

#[test]
fn arbitrary_value() {
    assert_eq!(format_usize(1616860000123456), "1616860000123456");
}

#[test]
fn largest_value() {
    assert_eq!(format_usize(usize::MAX), "18446744073709551615");
}
