//! Pacing of emulated M-cycles against wall-clock time.

use vstd::prelude::*;

verus! {

/// Length of one M-cycle in nanoseconds (4.194304 MHz / 4).
pub const M_CYCLE_NANOS: u64 = 954;

/// How many M-cycles have come due when `elapsed` nanoseconds have passed
/// and `accrued` of them are already accounted for.
pub fn cycles_due(elapsed: u64, accrued: u64) -> (n: u64)
    requires
        accrued <= elapsed,
    ensures
        n == (elapsed - accrued) / (M_CYCLE_NANOS as int),
{
    (elapsed - accrued) / M_CYCLE_NANOS
}

/// The time accounted for after `n` more M-cycles have run, or `None` when
/// it would not fit in 64 bits.
pub fn advance(accrued: u64, n: u64) -> (r: Option<u64>)
    ensures
        accrued + n * M_CYCLE_NANOS <= u64::MAX ==> r == Some((accrued + n * M_CYCLE_NANOS) as u64),
        accrued + n * M_CYCLE_NANOS > u64::MAX ==> r.is_none(),
{
    match n.checked_mul(M_CYCLE_NANOS) {
        Some(d) => accrued.checked_add(d),
        None => None,
    }
}

} // verus!
