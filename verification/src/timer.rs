//! The timer that the status line comes from.

use vstd::prelude::*;

verus! {

/// The timer's token.
pub const INFO_TIMER: usize = 0;

/// How many milliseconds pass between two status lines.
pub const INFO_PERIOD_MS: u64 = 5000;

/// How many seconds the rates of a status line are taken over.
pub const INFO_PERIOD_SECONDS: u64 = 5;

/// The timer to register: its token and its period in milliseconds, which is the
/// time that the rates are taken over.
pub fn initialize() -> (r: (usize, u64))
    ensures
        r == (INFO_TIMER, INFO_PERIOD_MS),
        r.1 == 1000 * INFO_PERIOD_SECONDS,
{
    (INFO_TIMER, INFO_PERIOD_MS)
}

/// Whether a status line is due when a timer runs out.
pub open spec fn is_due(timer: usize) -> bool {
    timer == INFO_TIMER
}

/// Whether a status line is due when a timer runs out.
pub fn timeout(timer: usize) -> (r: bool)
    ensures
        r == (timer == INFO_TIMER),
        r == is_due(timer),
{
    INFO_TIMER == timer
}

} // verus!
