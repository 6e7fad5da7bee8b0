use spx_transcoder::text::{caused_by, decimal_text};

#[test]
fn decimals_are_plain_numerals() {
    for n in [0u64, 7, 9, 10, 42, 99, 100, 1234567890, u64::MAX] {
        assert_eq!(decimal_text(n), format!("{}", n));
    }
}

#[test]
fn decimals_read_back() {
    for n in [0u64, 1, 10, 305, 65536, u64::MAX] {
        assert_eq!(decimal_text(n).parse::<u64>().unwrap(), n);
    }
}

#[test]
fn causes_follow_a_colon() {
    assert_eq!(caused_by("outer", "inner"), "outer: inner");
    assert_eq!(caused_by("", ""), ": ");
}
