//! Points in time with the UTC offset they were observed in.

use vstd::prelude::*;

verus! {

/// A point in time: microseconds since the Unix epoch, and the offset from UTC, in
/// seconds, of the clock that it was read in. Two values are equal when they name the
/// same instant, whatever their offsets.
#[derive(Debug, Clone, Copy)]
pub struct DateTime {
    pub unix_micros: i64,
    pub utc_offset_seconds: i32,
}

impl PartialEq for DateTime {
    fn eq(&self, other: &Self) -> (same: bool) {
        self.unix_micros == other.unix_micros
    }
}

impl Eq for DateTime {}

impl vstd::std_specs::cmp::PartialEqSpecImpl for DateTime {
    open spec fn obeys_eq_spec() -> bool {
        true
    }

    open spec fn eq_spec(&self, other: &DateTime) -> bool {
        self.unix_micros == other.unix_micros
    }
}

/// Whether two optional times are both absent or both present at one instant.
pub open spec fn same_optional_instant(a: Option<DateTime>, b: Option<DateTime>) -> bool {
    match (a, b) {
        (None, None) => true,
        (Some(x), Some(y)) => x.unix_micros == y.unix_micros,
        _ => false,
    }
}

/// Reads the clock through `chrono::Local::now`, keeping the instant in microseconds
/// (`timestamp_micros`) and the local offset (`offset().local_minus_utc()`).
/// Claimed: the offset lies strictly between minus and plus one day, the range that
/// chrono's `FixedOffset` holds. Which instant comes back depends on the clock and is
/// not claimed.
#[verifier::external_body]
pub(crate) fn now_local() -> (now: DateTime)
    ensures
        -86_400 < now.utc_offset_seconds < 86_400,
{
    let now = chrono::Local::now();
    DateTime { unix_micros: now.timestamp_micros(), utc_offset_seconds: now.offset().local_minus_utc() }
}

impl DateTime {
    /// Whether `a` and `b` are both absent or both present at one instant.
    pub fn same_optional(a: &Option<DateTime>, b: &Option<DateTime>) -> (same: bool)
        ensures
            same == same_optional_instant(*a, *b),
    {
        match (a, b) {
            (None, None) => true,
            (Some(x), Some(y)) => x == y,
            _ => false,
        }
    }
}

} // verus!
