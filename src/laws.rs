use vstd::prelude::*;

use crate::error::PresaleError;
use crate::key::Pubkey;
use crate::ledger::{lemma_sum_allocated_update, sum_allocated};
use crate::sale::{allocation, purchase_applied, purchase_error, Currency, PresaleConfig, UserPurchase};
use crate::vesting::{claim_error, period_share, period_unlock_time, shares_sum, VestingSchedule};

verus! {

/// A purchase into one of several records keeps the sale's total equal to
/// the sum of the records' allocations.
pub proof fn purchase_keeps_total_sold(
    config_before: PresaleConfig,
    config_after: PresaleConfig,
    accounts: Seq<UserPurchase>,
    i: int,
    after: UserPurchase,
    user: Pubkey,
    currency: Currency,
    amount: int,
)
    requires
        0 <= i < accounts.len(),
        config_before.total_sold == sum_allocated(accounts),
        purchase_applied(config_before, accounts[i], after, user, currency, amount),
        config_after.total_sold == config_before.total_sold + allocation(
            config_before,
            currency,
            amount,
        ),
    ensures
        config_after.total_sold == sum_allocated(accounts.update(i, after)),
{
    lemma_sum_allocated_update(accounts, i, after);
}

/// Once a period has been claimed, claiming it again at the same or a later
/// time is refused as already claimed.
pub proof fn claim_succeeds_at_most_once(
    before: VestingSchedule,
    after: VestingSchedule,
    period: int,
    now: int,
    later: int,
    amount: int,
)
    requires
        0 <= period,
        claim_error(before, period, now) is None,
        before.released(after, period, amount),
        now <= later,
    ensures
        claim_error(after, period, later) == Some(PresaleError::AlreadyClaimed),
{
    assert(before.claimed_flags@.len() == 4);
    assert(after.claimed_flags@[period]);
}

/// After listing, a valid period is refused as not unlocked exactly while
/// `now` is before its unlock time, and goes through from that time on
/// unless it was already claimed.
pub proof fn claim_waits_for_unlock(s: VestingSchedule, period: int, now: int)
    requires
        0 <= period < 4,
        now >= s.listing_timestamp,
    ensures
        (claim_error(s, period, now) == Some(PresaleError::PeriodNotUnlocked)) <==> now
            < period_unlock_time(s.listing_timestamp as int, period),
        now >= period_unlock_time(s.listing_timestamp as int, period) && !s.claimed_flags@[period]
            ==> claim_error(s, period, now) is None,
{
}

/// A period outside 0 to 3 is refused, whatever the schedule and the time.
pub proof fn claim_of_unknown_period_refused(s: VestingSchedule, period: int, now: int)
    requires
        period >= 4,
    ensures
        claim_error(s, period, now) == Some(PresaleError::InvalidPeriod),
{
}

/// The four periods release the whole total exactly when it is a multiple
/// of five; otherwise truncation leaves a remainder unreleased.
pub proof fn shares_cover_total_iff_multiple_of_five(total: nat)
    ensures
        (shares_sum(total as int) == total) <==> (total % 5 == 0),
        shares_sum(total as int) <= total,
{
    let k = total / 5;
    let r = total % 5;
    assert(total == 5 * k + r);
    assert((total * 40) / 100 == 2 * k + (2 * r) / 5) by (nonlinear_arith)
        requires
            total == 5 * k + r,
            0 <= r < 5,
            k >= 0,
    ;
    assert((total * 20) / 100 == k) by (nonlinear_arith)
        requires
            total == 5 * k + r,
            0 <= r < 5,
            k >= 0,
    ;
    assert(period_share(total as int, 0) == 2 * k + (2 * r) / 5);
    assert(period_share(total as int, 1) == k);
    assert(period_share(total as int, 2) == k);
    assert(period_share(total as int, 3) == k);
}

/// On an active sale, a purchase of nothing is refused as an invalid amount.
pub proof fn zero_purchase_refused(config: PresaleConfig, account: UserPurchase, currency: Currency)
    requires
        config.is_active,
    ensures
        purchase_error(config, account, currency, 0) == Some(PresaleError::InvalidAmount),
{
}

} // verus!
