//! Laws that relate the construction of a byte range, its length, its text
//! and its position.

use crate::bounds::{bounds_fit, first_offset, last_offset};
use crate::decimal::{decimal, is_digit, lemma_decimal_digits, lemma_decimal_injective};
use crate::range::{unit_prefix, ByteRange, BYTES};
use std::io::SeekFrom;
use std::ops::Bound;
use vstd::prelude::*;

verus! {

/// The inclusive interval from `a` through `b` gives the range from `a`
/// through `b`, and so does the half-open interval from `a` to `b + 1`,
/// where `b + 1` is a `usize`. The text of that range is `bytes=a-b`.
pub proof fn lemma_interval_with_end(a: usize, b: usize)
    ensures
        bounds_fit(Bound::Included(a), Bound::Included(b)),
        ByteRange::of_bounds(Bound::Included(a), Bound::Included(b)) == (ByteRange::Range {
            start: a,
            end: Some(b),
        }),
        b < usize::MAX ==> bounds_fit(Bound::Included(a), Bound::Excluded((b + 1) as usize)),
        b < usize::MAX ==> ByteRange::of_bounds(
            Bound::Included(a),
            Bound::Excluded((b + 1) as usize),
        ) == (ByteRange::Range { start: a, end: Some(b) }),
        (ByteRange::Range { start: a, end: Some(b) }).rendered() == unit_prefix() + decimal(
            a as nat,
        ) + seq!['-'] + decimal(b as nat),
{
}

/// The interval that starts at `a` and is open above gives the range from
/// `a` through the last byte, whose text is `bytes=a-`.
pub proof fn lemma_interval_without_end(a: usize)
    ensures
        bounds_fit(Bound::Included(a), Bound::Unbounded),
        ByteRange::of_bounds(Bound::Included(a), Bound::Unbounded) == (ByteRange::Range {
            start: a,
            end: None,
        }),
        (ByteRange::Range { start: a, end: None }).rendered() == unit_prefix() + decimal(a as nat)
            + seq!['-'],
{
}

/// The text of a suffix is `bytes=-count`.
pub proof fn lemma_suffix_text(count: usize)
    ensures
        ByteRange::Suffix(count).rendered() == unit_prefix() + seq!['-'] + decimal(count as nat),
{
}

/// Every text starts with the unit and an equals sign.
pub proof fn lemma_unit_prefix(range: ByteRange)
    ensures
        unit_prefix() == BYTES@.push('='),
        unit_prefix().is_prefix_of(range.rendered()),
{
    reveal_strlit("bytes");
    assert(unit_prefix() =~= BYTES@.push('='));
}

/// A range with an end has the same length whatever the total length is:
/// the distance from its start to its end, or none where it starts behind
/// its end.
pub proof fn lemma_len_with_end(start: usize, end: usize, total_length: Option<usize>)
    ensures
        start <= end ==> (ByteRange::Range { start, end: Some(end) }).expected_len(total_length)
            == Some((end - start) as usize),
        start > end ==> (ByteRange::Range { start, end: Some(end) }).expected_len(total_length)
            is None,
{
}

/// A range without an end is measured against the total length: it has the
/// distance from its start to the total length, and no length where the
/// total length is unknown or lies before its start.
pub proof fn lemma_len_without_end(start: usize, total_length: Option<usize>)
    ensures
        (ByteRange::Range { start, end: None }).expected_len(total_length) == match total_length {
            Some(total) if start <= total => Some((total - start) as usize),
            _ => None,
        },
{
}

/// A suffix has its count as its length, whether the total length is known
/// or not, and also where the count is larger than the total length.
pub proof fn lemma_len_of_suffix(count: usize, total_length: Option<usize>)
    ensures
        ByteRange::Suffix(count).expected_len(total_length) == Some(count),
{
}

/// A range that is built from bounds with a last offset, and with a first
/// offset that does not lie behind it, has the distance from the first to
/// the last as its length, whatever the total length is.
pub proof fn lemma_len_of_interval(
    start: Bound<usize>,
    end: Bound<usize>,
    total_length: Option<usize>,
)
    requires
        bounds_fit(start, end),
        last_offset(end) matches Some(last) && first_offset(start) <= last,
    ensures
        ByteRange::of_bounds(start, end).expected_len(total_length) == Some(
            (last_offset(end).unwrap() - first_offset(start)) as usize,
        ),
{
}

/// A range with a start always has a position, the one at `start` bytes from
/// the beginning, whatever its end is. A suffix has a position where its
/// count fits an `i64`, the one at `count` bytes before the end, and none
/// otherwise.
pub proof fn lemma_seek_positions(start: usize, end: Option<usize>, count: usize)
    ensures
        (ByteRange::Range { start, end }).seek_position() == Some(SeekFrom::Start(start as u64)),
        count <= i64::MAX ==> ByteRange::Suffix(count).seek_position() == Some(
            SeekFrom::End((-(count as int)) as i64),
        ),
        count > i64::MAX ==> ByteRange::Suffix(count).seek_position() is None
            && ByteRange::Suffix(count).seek_result() is Err,
{
}

/// Two texts of digits, each followed by a dash and a rest, are the same
/// text only if the digits are the same and the rests are the same.
proof fn lemma_split_at_dash(
    digits1: Seq<char>,
    rest1: Seq<char>,
    digits2: Seq<char>,
    rest2: Seq<char>,
)
    requires
        forall|i: int| 0 <= i < digits1.len() ==> is_digit(#[trigger] digits1[i]),
        forall|i: int| 0 <= i < digits2.len() ==> is_digit(#[trigger] digits2[i]),
        digits1 + seq!['-'] + rest1 == digits2 + seq!['-'] + rest2,
    ensures
        digits1 == digits2,
        rest1 == rest2,
{
    let text1 = digits1 + seq!['-'] + rest1;
    let text2 = digits2 + seq!['-'] + rest2;
    if digits1.len() < digits2.len() {
        assert(text1[digits1.len() as int] == '-');
        assert(text2[digits1.len() as int] == digits2[digits1.len() as int]);
    }
    if digits2.len() < digits1.len() {
        assert(text2[digits2.len() as int] == '-');
        assert(text1[digits2.len() as int] == digits1[digits2.len() as int]);
    }
    let split = digits1.len() as int;
    assert(digits1 =~= text1.take(split));
    assert(digits2 =~= text2.take(split));
    assert(rest1 =~= text1.skip(split + 1));
    assert(rest2 =~= text2.skip(split + 1));
}

/// The digits before the dash in the text of a range with a start.
spec fn start_digits(range: ByteRange) -> Seq<char> {
    decimal(range->start as nat)
}

/// What follows the dash in the text of a range with a start.
spec fn end_digits(range: ByteRange) -> Seq<char> {
    match range->end {
        Some(end) => decimal(end as nat),
        None => Seq::empty(),
    }
}

/// Two ranges with the same text are the same range: the text keeps all
/// that the range holds, so that a reader of the text can give the range
/// back.
pub proof fn lemma_text_determines_range(a: ByteRange, b: ByteRange)
    requires
        a.rendered() == b.rendered(),
    ensures
        a == b,
{
    let prefix = unit_prefix();
    assert(a.rendered_offsets() =~= a.rendered().skip(prefix.len() as int));
    assert(b.rendered_offsets() =~= b.rendered().skip(prefix.len() as int));
    let text = a.rendered_offsets();
    assert(text == b.rendered_offsets());
    match (a, b) {
        (ByteRange::Suffix(m), ByteRange::Suffix(n)) => {
            assert(decimal(m as nat) =~= text.skip(1));
            assert(decimal(n as nat) =~= text.skip(1));
            lemma_decimal_injective(m as nat, n as nat);
        },
        (ByteRange::Suffix(_), ByteRange::Range { start, .. }) => {
            lemma_decimal_digits(start as nat);
            assert(text[0] == decimal(start as nat)[0]);
        },
        (ByteRange::Range { start, .. }, ByteRange::Suffix(_)) => {
            lemma_decimal_digits(start as nat);
            assert(text[0] == decimal(start as nat)[0]);
        },
        (ByteRange::Range { start: s1, end: e1 }, ByteRange::Range { start: s2, end: e2 }) => {
            lemma_decimal_digits(s1 as nat);
            lemma_decimal_digits(s2 as nat);
            assert(text =~= start_digits(a) + seq!['-'] + end_digits(a));
            assert(text =~= start_digits(b) + seq!['-'] + end_digits(b));
            lemma_split_at_dash(start_digits(a), end_digits(a), start_digits(b), end_digits(b));
            lemma_decimal_injective(s1 as nat, s2 as nat);
            if let Some(end) = e1 {
                lemma_decimal_digits(end as nat);
            }
            if let Some(end) = e2 {
                lemma_decimal_digits(end as nat);
            }
            if let (Some(end1), Some(end2)) = (e1, e2) {
                lemma_decimal_injective(end1 as nat, end2 as nat);
            }
        },
    }
}

} // verus!
