//! The lifecycle of an agreement.

use vstd::prelude::*;

verus! {

/// Number of seconds in one day.
pub const SECONDS_PER_DAY: i64 = 86400;

/// Where an agreement stands. It only ever moves from `Created` to
/// `Processing` to `Completed`.
#[derive(Clone, Copy, Debug, PartialEq, Eq, Structural)]
pub enum OrderStatus {
    Created,
    Processing,
    Completed,
}

impl OrderStatus {
    /// The position of the status in the lifecycle.
    pub open spec fn rank(self) -> int {
        match self {
            OrderStatus::Created => 0,
            OrderStatus::Processing => 1,
            OrderStatus::Completed => 2,
        }
    }
}

/// The instant at which a period of `days` days that starts at `start` runs
/// out.
pub open spec fn due_time(start: int, days: int) -> int {
    start + days * SECONDS_PER_DAY
}

} // verus!
