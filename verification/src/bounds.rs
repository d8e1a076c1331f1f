//! The two ends of an interval of offsets, given as bounds that are
//! inclusive, exclusive or open.

use std::ops::Bound;
use vstd::prelude::*;

verus! {

/// Makes `std::ops::Bound` known to the verifier, with its three variants
/// `Included`, `Excluded` and `Unbounded` as the standard library defines
/// them.
#[verifier::external_type_specification]
pub struct ExBound<T>(Bound<T>);

/// The first offset that lies inside an interval with the start bound
/// `start`. It is one above the largest `usize` for an exclusive bound at
/// that number.
pub open spec fn first_offset(start: Bound<usize>) -> int {
    match start {
        Bound::Included(i) => i as int,
        Bound::Excluded(i) => i + 1,
        Bound::Unbounded => 0,
    }
}

/// The last offset that lies inside an interval with the end bound `end`,
/// or `None` where the interval is open at that end. It is `-1` for an
/// exclusive bound at zero, before which no offset lies.
pub open spec fn last_offset(end: Bound<usize>) -> Option<int> {
    match end {
        Bound::Included(i) => Some(i as int),
        Bound::Excluded(i) => Some(i - 1),
        Bound::Unbounded => None,
    }
}

/// Whether both ends of the interval can be written as offsets: the first
/// offset is no larger than the largest `usize`, and the last offset, where
/// there is one, is not negative.
pub open spec fn bounds_fit(start: Bound<usize>, end: Bound<usize>) -> bool {
    &&& first_offset(start) <= usize::MAX
    &&& last_offset(end) matches Some(last) ==> last >= 0
}

} // verus!
