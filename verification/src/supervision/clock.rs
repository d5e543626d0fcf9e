use vstd::prelude::*;

verus! {

/// A span of `millis` milliseconds as a supervisor's clock reads it: spans
/// beyond the largest `u64` read as that largest value.
pub fn saturating_millis(millis: u128) -> (r: u64)
    ensures
        millis <= u64::MAX ==> r == millis,
        millis > u64::MAX ==> r == u64::MAX,
{
    if millis > u64::MAX as u128 {
        u64::MAX
    } else {
        millis as u64
    }
}

} // verus!
