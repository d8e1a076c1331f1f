use byte_range::decimal::push_decimal;
use byte_range::{ByteRange, BYTES};
use std::ops::Bound;

/// Reads a text of the three forms back into a range.
fn read_back(text: &str) -> Option<ByteRange> {
    let offsets = text.strip_prefix("bytes=")?;
    let (first, second) = offsets.split_once('-')?;
    if first.is_empty() {
        return Some(ByteRange::Suffix(second.parse().ok()?));
    }
    let start = first.parse().ok()?;
    let end = if second.is_empty() { None } else { Some(second.parse().ok()?) };
    Some(ByteRange::Range { start, end })
}

fn decimal_text(n: usize) -> String {
    let mut text = String::new();
    push_decimal(&mut text, n);
    text
}

#[test]
fn unit_is_bytes() {
    assert_eq!(BYTES, "bytes");
}

#[test]
fn text_of_a_range_with_end() {
    assert_eq!(ByteRange::Range { start: 50, end: Some(149) }.to_string(), "bytes=50-149");
    assert_eq!(ByteRange::Range { start: 0, end: Some(0) }.to_string(), "bytes=0-0");
}

#[test]
fn text_of_a_range_without_end() {
    assert_eq!(ByteRange::Range { start: 50, end: None }.to_string(), "bytes=50-");
    assert_eq!(ByteRange::Range { start: 0, end: None }.to_string(), "bytes=0-");
}

#[test]
fn text_of_a_suffix() {
    assert_eq!(ByteRange::Suffix(500).to_string(), "bytes=-500");
    assert_eq!(ByteRange::Suffix(0).to_string(), "bytes=-0");
}

#[test]
fn text_of_a_range_with_start_behind_end() {
    assert_eq!(ByteRange::Range { start: 100, end: Some(50) }.to_string(), "bytes=100-50");
}

#[test]
fn text_of_the_largest_offsets() {
    assert_eq!(
        ByteRange::Range { start: usize::MAX, end: Some(usize::MAX) }.to_string(),
        format!("bytes={}-{}", usize::MAX, usize::MAX)
    );
    assert_eq!(ByteRange::Suffix(usize::MAX).to_string(), format!("bytes=-{}", usize::MAX));
}

#[test]
fn text_of_intervals_with_end() {
    for a in [0usize, 1, 9, 10, 11, 99, 100, 101, 4096, 1_000_000] {
        for len in [0usize, 1, 9, 10, 90, 1023] {
            let b = a + len;
            let expected = format!("bytes={a}-{b}");
            let half_open = ByteRange::from_bounds(Bound::Included(a), Bound::Excluded(b + 1));
            let inclusive = ByteRange::from_bounds(Bound::Included(a), Bound::Included(b));
            assert_eq!(half_open.to_string(), expected);
            assert_eq!(inclusive.to_string(), expected);
        }
    }
}

#[test]
fn text_of_intervals_without_end() {
    for a in [0usize, 1, 9, 10, 11, 99, 100, 101, 4096, 1_000_000, usize::MAX] {
        let range = ByteRange::from_bounds(Bound::Included(a), Bound::Unbounded);
        assert_eq!(range.to_string(), format!("bytes={a}-"));
    }
}

#[test]
fn decimal_of_single_digits() {
    let digits = ["0", "1", "2", "3", "4", "5", "6", "7", "8", "9"];
    for (n, digit) in digits.iter().enumerate() {
        assert_eq!(decimal_text(n), *digit);
    }
}

#[test]
fn decimal_has_most_significant_digit_first() {
    assert_eq!(decimal_text(10), "10");
    assert_eq!(decimal_text(12), "12");
    assert_eq!(decimal_text(21), "21");
    assert_eq!(decimal_text(1203), "1203");
    assert_eq!(decimal_text(9_876_543_210), "9876543210");
}

#[test]
fn decimal_keeps_inner_and_trailing_zeros() {
    assert_eq!(decimal_text(100), "100");
    assert_eq!(decimal_text(1001), "1001");
    assert_eq!(decimal_text(1_000_000), "1000000");
}

#[test]
fn decimal_of_the_largest_number() {
    assert_eq!(decimal_text(usize::MAX), usize::MAX.to_string());
    assert_eq!(decimal_text(u32::MAX as usize), "4294967295");
}

#[test]
fn decimal_agrees_with_the_standard_formatting() {
    let mut n: usize = 0;
    for _ in 0..2000 {
        assert_eq!(decimal_text(n), n.to_string());
        assert_eq!(decimal_text(usize::MAX - n), (usize::MAX - n).to_string());
        n = n.wrapping_mul(31).wrapping_add(7) % 1_000_003 + n / 3;
    }
    let mut power: usize = 1;
    loop {
        assert_eq!(decimal_text(power), power.to_string());
        assert_eq!(decimal_text(power - 1), (power - 1).to_string());
        assert_eq!(decimal_text(power + 1), (power + 1).to_string());
        match power.checked_mul(10) {
            Some(next) => power = next,
            None => break,
        }
    }
}

#[test]
fn decimal_is_appended_behind_what_is_there() {
    let mut text = String::from("offset ");
    push_decimal(&mut text, 42);
    assert_eq!(text, "offset 42");
    push_decimal(&mut text, 0);
    assert_eq!(text, "offset 420");
}

#[test]
fn text_reads_back_to_the_same_range() {
    let numbers = [0usize, 1, 9, 10, 50, 149, 500, 65535, usize::MAX];
    for a in numbers {
        let suffix = ByteRange::Suffix(a);
        assert_eq!(read_back(&suffix.to_string()), Some(suffix));
        let open = ByteRange::Range { start: a, end: None };
        assert_eq!(read_back(&open.to_string()), Some(open));
        for b in numbers {
            let closed = ByteRange::Range { start: a, end: Some(b) };
            assert_eq!(read_back(&closed.to_string()), Some(closed));
        }
    }
}

#[test]
fn different_ranges_have_different_texts() {
    let mut ranges = Vec::new();
    for a in [0usize, 1, 5, 15, 51, 115] {
        ranges.push(ByteRange::Suffix(a));
        ranges.push(ByteRange::Range { start: a, end: None });
        for b in [0usize, 1, 5, 15, 51, 115] {
            ranges.push(ByteRange::Range { start: a, end: Some(b) });
        }
    }
    for (i, first) in ranges.iter().enumerate() {
        for (j, second) in ranges.iter().enumerate() {
            assert_eq!(first.to_string() == second.to_string(), i == j);
        }
    }
}
