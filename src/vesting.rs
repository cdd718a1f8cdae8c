use vstd::prelude::*;

use crate::error::PresaleError;

verus! {

/// Number of vesting periods.
pub const PERIOD_COUNT: u8 = 4;

/// Length of one vesting period in seconds (30 days).
pub const SECONDS_PER_PERIOD: i64 = 2_592_000;

/// Time at which `period` unlocks: the listing time plus `period` times 30 days.
pub open spec fn period_unlock_time(listing_timestamp: int, period: int) -> int {
    listing_timestamp + period * SECONDS_PER_PERIOD
}

/// The share of `total` released by `period`: 40% (truncated) for period 0,
/// 20% (truncated) for periods 1 to 3, nothing for any other period.
pub open spec fn period_share(total: int, period: int) -> int {
    if period == 0 {
        total * 40 / 100
    } else if 1 <= period <= 3 {
        total * 20 / 100
    } else {
        0
    }
}

/// Sum of the shares of the four periods.
pub open spec fn shares_sum(total: int) -> int {
    period_share(total, 0) + period_share(total, 1) + period_share(total, 2) + period_share(
        total,
        3,
    )
}

/// Time at which `period` unlocks for a schedule listed at `listing_timestamp`.
/// Computed in a wider type, so that no input overflows.
pub fn calculate_period_timestamp(listing_timestamp: i64, period: u8) -> (r: i128)
    ensures
        r == period_unlock_time(listing_timestamp as int, period as int),
{
    let seconds: i128 = SECONDS_PER_PERIOD as i128;
    let offset: i128 = period as i128 * seconds;
    listing_timestamp as i128 + offset
}

/// Amount that `period` releases out of `total_tokens`.
pub fn calculate_period_amount(total_tokens: u64, period: u8) -> (r: u64)
    ensures
        r == period_share(total_tokens as int, period as int),
{
    let t = total_tokens as u128;
    if period == 0 {
        proof {
            assert(t * 40 / 100 <= t) by (nonlinear_arith);
        }
        (t * 40 / 100) as u64
    } else if period <= 3 {
        proof {
            assert(t * 20 / 100 <= t) by (nonlinear_arith);
        }
        (t * 20 / 100) as u64
    } else {
        0
    }
}

/// Release plan of one buyer's allocation.
#[derive(Clone, Copy, Debug, PartialEq, Eq)]
pub struct VestingSchedule {
    /// Allocation subject to vesting.
    pub total_tokens: u64,
    /// Listing time copied from the sale when the schedule was created.
    pub listing_timestamp: i64,
    /// Amount released by each period.
    pub claimed_amounts: [u64; 4],
    /// Whether each period has been released.
    pub claimed_flags: [bool; 4],
}

/// Why a claim of `period` at time `now` is refused, checked in order;
/// `None` when it goes through.
pub open spec fn claim_error(s: VestingSchedule, period: int, now: int) -> Option<PresaleError> {
    if period >= 4 {
        Some(PresaleError::InvalidPeriod)
    } else if now < s.listing_timestamp {
        Some(PresaleError::TokensNotListed)
    } else if now < period_unlock_time(s.listing_timestamp as int, period) {
        Some(PresaleError::PeriodNotUnlocked)
    } else if s.claimed_flags@[period] {
        Some(PresaleError::AlreadyClaimed)
    } else {
        None
    }
}

impl VestingSchedule {
    /// A schedule of `total_tokens` listed at `listing_timestamp`, nothing released.
    pub open spec fn is_fresh(&self, total_tokens: int, listing_timestamp: int) -> bool {
        &&& self.total_tokens == total_tokens
        &&& self.listing_timestamp == listing_timestamp
        &&& self.claimed_amounts@ == seq![0u64, 0u64, 0u64, 0u64]
        &&& self.claimed_flags@ == seq![false, false, false, false]
    }

    /// `after` is `self` with `period` released for `amount`.
    pub open spec fn released(&self, after: VestingSchedule, period: int, amount: int) -> bool {
        &&& after.total_tokens == self.total_tokens
        &&& after.listing_timestamp == self.listing_timestamp
        &&& after.claimed_flags@ == self.claimed_flags@.update(period, true)
        &&& after.claimed_amounts@ == self.claimed_amounts@.update(period, amount as u64)
    }

    /// A schedule of `total_tokens` listed at `listing_timestamp`, nothing released.
    pub fn new(total_tokens: u64, listing_timestamp: i64) -> (r: VestingSchedule)
        ensures
            r.is_fresh(total_tokens as int, listing_timestamp as int),
    {
        let r = VestingSchedule {
            total_tokens,
            listing_timestamp,
            claimed_amounts: [0u64, 0u64, 0u64, 0u64],
            claimed_flags: [false, false, false, false],
        };
        proof {
            assert(r.claimed_amounts@ =~= seq![0u64, 0u64, 0u64, 0u64]);
            assert(r.claimed_flags@ =~= seq![false, false, false, false]);
        }
        r
    }

    /// Releases `period` at time `now`: on success marks it claimed, records
    /// and returns its share of the current total; on failure changes nothing.
    pub fn claim(&mut self, period: u8, now: i64) -> (r: Result<u64, PresaleError>)
        ensures
            match r {
                Ok(amount) => {
                    &&& claim_error(*old(self), period as int, now as int) is None
                    &&& amount == period_share(old(self).total_tokens as int, period as int)
                    &&& old(self).released(*final(self), period as int, amount as int)
                },
                Err(e) => {
                    &&& claim_error(*old(self), period as int, now as int) == Some(e)
                    &&& *final(self) == *old(self)
                },
            },
    {
        if period >= PERIOD_COUNT {
            return Err(PresaleError::InvalidPeriod);
        }
        if now < self.listing_timestamp {
            return Err(PresaleError::TokensNotListed);
        }
        let unlock = calculate_period_timestamp(self.listing_timestamp, period);
        if (now as i128) < unlock {
            return Err(PresaleError::PeriodNotUnlocked);
        }
        let p = period as usize;
        if self.claimed_flags[p] {
            return Err(PresaleError::AlreadyClaimed);
        }
        let amount = calculate_period_amount(self.total_tokens, period);
        self.claimed_flags[p] = true;
        self.claimed_amounts[p] = amount;
        Ok(amount)
    }
}

} // verus!
