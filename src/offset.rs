use vstd::prelude::*;

verus! {

/// Whether each component lies in the range an offset accepts: hours within
/// `-25..=25`, minutes and seconds within `-59..=59`.
pub open spec fn offset_in_range(h: i8, m: i8, s: i8) -> bool {
    -25 <= h <= 25 && -59 <= m <= 59 && -59 <= s <= 59
}

/// The offset, in seconds east of UTC, that `(h, m, s)` stands for: each
/// component counts with its own sign.
pub open spec fn hms_seconds(h: i8, m: i8, s: i8) -> int {
    3600 * h + 60 * m + s
}

/// The offset in force for a configured `(h, m, s)`: UTC when the combination is
/// out of range.
pub open spec fn effective_offset(h: i8, m: i8, s: i8) -> int {
    if offset_in_range(h, m, s) {
        hms_seconds(h, m, s)
    } else {
        0
    }
}

/// Relies on `time::UtcOffset::from_hms`, which succeeds exactly when each
/// component is within its range; only that success is used.
#[verifier::external_body]
fn offset_components_valid(h: i8, m: i8, s: i8) -> (r: bool)
    ensures
        r == offset_in_range(h, m, s),
{
    time::UtcOffset::from_hms(h, m, s).is_ok()
}

/// The offset in seconds east of UTC for `(h, m, s)`, falling back to UTC (zero)
/// when the combination cannot form an offset.
pub fn offset_or_utc(h: i8, m: i8, s: i8) -> (r: i32)
    ensures
        r == effective_offset(h, m, s),
{
    if offset_components_valid(h, m, s) {
        3600 * (h as i32) + 60 * (m as i32) + (s as i32)
    } else {
        0
    }
}

} // verus!
