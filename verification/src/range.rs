//! The byte range itself: its two forms, the number of bytes it selects, its
//! text, and the position at which a reader starts.

use crate::bounds::{bounds_fit, first_offset, last_offset};
use crate::decimal::{decimal, push_decimal};
use std::io::SeekFrom;
use std::num::TryFromIntError;
use std::ops::Bound;
use vstd::prelude::*;

verus! {

/// Makes `std::io::SeekFrom` known to the verifier, with its three variants
/// `Start`, `End` and `Current` as the standard library defines them.
#[verifier::external_type_specification]
pub struct ExSeekFrom(SeekFrom);

/// The unit in which every range counts.
pub const BYTES: &'static str = "bytes";

/// A single range of a range request.
///
/// Nothing ties `start` to `end`: a range whose start lies behind its end
/// can be written down, and has no length.
#[derive(Debug, Copy, Clone, PartialEq, Eq, Hash, Structural)]
pub enum ByteRange {
    /// The bytes from offset `start` through offset `end`, both counted from
    /// zero and both inclusive, or through the last byte where `end` is
    /// `None`.
    Range { start: usize, end: Option<usize> },
    /// The last bytes of the resource, as many as the number says.
    Suffix(usize),
}

/// The text with which every range starts: the unit and an equals sign.
pub open spec fn unit_prefix() -> Seq<char> {
    seq!['b', 'y', 't', 'e', 's', '=']
}

impl ByteRange {
    /// The range that a pair of bounds describes. It is never a suffix.
    pub open spec fn of_bounds(start: Bound<usize>, end: Bound<usize>) -> ByteRange {
        ByteRange::Range {
            start: first_offset(start) as usize,
            end: match last_offset(end) {
                Some(last) => Some(last as usize),
                None => None,
            },
        }
    }

    /// Builds the range that the bounds `start` and `end` describe.
    ///
    /// The bounds must fit: an exclusive end at zero and an exclusive start
    /// at the largest `usize` describe no offset. `try_from_bounds` takes
    /// any bounds.
    pub fn from_bounds(start: Bound<usize>, end: Bound<usize>) -> (range: ByteRange)
        requires
            bounds_fit(start, end),
        ensures
            range == ByteRange::of_bounds(start, end),
            range matches ByteRange::Range { start: first, end: last } && first == first_offset(
                start,
            ) && match last {
                Some(last) => last_offset(end) == Some(last as int),
                None => last_offset(end) is None,
            },
    {
        let first = match start {
            Bound::Included(i) => i,
            Bound::Excluded(i) => i + 1,
            Bound::Unbounded => 0,
        };
        let last = match end {
            Bound::Included(i) => Some(i),
            Bound::Excluded(i) => Some(i - 1),
            Bound::Unbounded => None,
        };
        ByteRange::Range { start: first, end: last }
    }

    /// Builds the range that the bounds `start` and `end` describe, or
    /// `None` where they do not fit.
    pub fn try_from_bounds(start: Bound<usize>, end: Bound<usize>) -> (range: Option<ByteRange>)
        ensures
            bounds_fit(start, end) ==> range == Some(ByteRange::of_bounds(start, end)),
            !bounds_fit(start, end) ==> range is None,
    {
        let start_fits = match start {
            Bound::Excluded(i) => i < usize::MAX,
            _ => true,
        };
        let end_fits = match end {
            Bound::Excluded(i) => i > 0,
            _ => true,
        };
        if start_fits && end_fits {
            Some(ByteRange::from_bounds(start, end))
        } else {
            None
        }
    }

    /// The length that `expected_len` returns.
    ///
    /// A suffix has its count as its length, whatever the total length is.
    /// Any other range is measured from its start to its limit, which is its
    /// own end where it has one and the total length otherwise: the length
    /// is the limit less the start. It has no length where it has no limit
    /// or starts behind it.
    pub open spec fn spec_expected_len(&self, total_length: Option<usize>) -> Option<usize> {
        match *self {
            ByteRange::Suffix(count) => Some(count),
            ByteRange::Range { start, end } => {
                let limit = if end is Some { end } else { total_length };
                match limit {
                    Some(limit) if start <= limit => Some((limit - start) as usize),
                    _ => None,
                }
            },
        }
    }

    /// The number of bytes that the range selects, given the total length of
    /// the resource where it is known. `None` says that the number cannot be
    /// told, or that the range starts behind its end.
    #[verifier::when_used_as_spec(spec_expected_len)]
    pub fn expected_len(&self, total_length: Option<usize>) -> (len: Option<usize>)
        ensures
            len == self.spec_expected_len(total_length),
    {
        match self {
            ByteRange::Range { start, end } => {
                let limit = match end {
                    Some(end) => *end,
                    None => match total_length {
                        Some(total) => total,
                        None => return None,
                    },
                };
                limit.checked_sub(*start)
            },
            ByteRange::Suffix(count) => Some(*count),
        }
    }

    /// What follows the unit prefix in the text of the range.
    pub open spec fn rendered_offsets(self) -> Seq<char> {
        match self {
            ByteRange::Range { start, end: Some(end) } => decimal(start as nat) + seq!['-']
                + decimal(end as nat),
            ByteRange::Range { start, end: None } => decimal(start as nat) + seq!['-'],
            ByteRange::Suffix(count) => seq!['-'] + decimal(count as nat),
        }
    }

    /// The text of the range: `bytes=<start>-<end>`, `bytes=<start>-` or
    /// `bytes=-<count>`, each number in decimal notation.
    pub open spec fn rendered(self) -> Seq<char> {
        unit_prefix() + self.rendered_offsets()
    }

    /// Writes the range as the value of a range header.
    pub fn to_string(&self) -> (text: String)
        ensures
            text@ == self.rendered(),
    {
        let mut text = String::from_str(BYTES);
        text.append("=");
        proof {
            reveal_strlit("bytes");
            reveal_strlit("=");
            reveal_strlit("-");
        }
        match self {
            ByteRange::Range { start, end } => {
                push_decimal(&mut text, *start);
                text.append("-");
                if let Some(end) = end {
                    push_decimal(&mut text, *end);
                }
            },
            ByteRange::Suffix(count) => {
                text.append("-");
                push_decimal(&mut text, *count);
            },
        }
        assert(text@ =~= self.rendered());
        text
    }

    /// The position at which a reader of the range starts, where the offset
    /// fits the position's integer: `start` bytes from the beginning, or
    /// `count` bytes before the end. The end of a range is no part of it.
    pub open spec fn seek_position(self) -> Option<SeekFrom> {
        match self {
            ByteRange::Range { start, .. } => if start <= u64::MAX {
                Some(SeekFrom::Start(start as u64))
            } else {
                None
            },
            ByteRange::Suffix(count) => if count <= i64::MAX {
                Some(SeekFrom::End((-(count as int)) as i64))
            } else {
                None
            },
        }
    }

    /// What the conversion to a position returns: the position, or, where the
    /// offset does not fit, the error of an integer conversion. That error
    /// holds no data, so there is one value of it.
    pub open spec fn seek_result(self) -> Result<SeekFrom, TryFromIntError> {
        match self.seek_position() {
            Some(position) => Ok(position),
            None => Err(arbitrary()),
        }
    }

    /// Converts the range to the position at which a reader starts. The
    /// conversion fails where the offset does not fit the integer of the
    /// position, and only there.
    pub fn to_seek_from(&self) -> (position: Result<SeekFrom, TryFromIntError>)
        ensures
            position == self.seek_result(),
            position is Ok <==> self.seek_position() is Some,
    {
        match self {
            ByteRange::Range { start, end: _ } => match u64::try_from(*start) {
                Ok(offset) => Ok(SeekFrom::Start(offset)),
                Err(error) => Err(error),
            },
            ByteRange::Suffix(count) => match i64::try_from(*count) {
                Ok(offset) => Ok(SeekFrom::End(-offset)),
                Err(error) => Err(error),
            },
        }
    }
}

impl<'a> TryInto<SeekFrom> for &'a ByteRange {
    type Error = TryFromIntError;

    /// Converts the range to the position at which a reader starts, as
    /// `to_seek_from` does.
    fn try_into(self) -> Result<SeekFrom, TryFromIntError> {
        self.to_seek_from()
    }
}

impl<'a> vstd::std_specs::convert::TryIntoSpecImpl<SeekFrom> for &'a ByteRange {
    open spec fn obeys_try_into_spec() -> bool {
        true
    }

    open spec fn try_into_spec(self) -> Result<SeekFrom, TryFromIntError> {
        self.seek_result()
    }
}

} // verus!
