use vstd::prelude::*;

use crate::error::PresaleError;
use crate::key::{same_key, Pubkey};
use crate::sale::{
    allocation, purchase, purchase_applied, purchase_error, purchase_error_for, ClaimEvent,
    Currency, PresaleConfig, PurchaseEvent, UserPurchase,
};
use crate::laws::purchase_keeps_total_sold;
use crate::vesting::{claim_error, period_share};

verus! {

/// Sum of the allocations of `accounts`.
pub open spec fn sum_allocated(accounts: Seq<UserPurchase>) -> int
    decreases accounts.len(),
{
    if accounts.len() == 0 {
        0
    } else {
        sum_allocated(accounts.drop_last()) + accounts.last().total_tokens_purchased
    }
}

/// Position of `user`'s record in `accounts`, if there is one.
pub open spec fn position_of(accounts: Seq<UserPurchase>, user: Seq<u8>) -> Option<int> {
    if exists|i: int| 0 <= i < accounts.len() && (#[trigger] accounts[i]).user@ == user {
        Some(choose|i: int| 0 <= i < accounts.len() && (#[trigger] accounts[i]).user@ == user)
    } else {
        None
    }
}

/// `after` is the record that `user`'s first purchase, of `amount` of
/// `currency`, opens.
pub open spec fn opened_by_purchase(
    config: PresaleConfig,
    after: UserPurchase,
    user: Pubkey,
    currency: Currency,
    amount: int,
) -> bool {
    let a = allocation(config, currency, amount);
    &&& after.user == user
    &&& after.bump == 0
    &&& after.total_tokens_purchased == a
    &&& after.total_sol_spent == if currency == Currency::Sol {
        amount
    } else {
        0
    }
    &&& after.total_usdc_spent == if currency == Currency::Usdc {
        amount
    } else {
        0
    }
    &&& after.purchase_count == 1
    &&& after.vesting_schedule.is_fresh(a, config.listing_timestamp as int)
}

/// Replacing one record changes the sum by the difference of their allocations.
pub proof fn lemma_sum_allocated_update(accounts: Seq<UserPurchase>, i: int, x: UserPurchase)
    requires
        0 <= i < accounts.len(),
    ensures
        sum_allocated(accounts.update(i, x)) == sum_allocated(accounts)
            - accounts[i].total_tokens_purchased + x.total_tokens_purchased,
    decreases accounts.len(),
{
    let u = accounts.update(i, x);
    if i == accounts.len() - 1 {
        assert(u.drop_last() =~= accounts.drop_last());
    } else {
        lemma_sum_allocated_update(accounts.drop_last(), i, x);
        assert(u.drop_last() =~= accounts.drop_last().update(i, x));
    }
}

/// Adding a record adds its allocation to the sum.
pub proof fn lemma_sum_allocated_push(accounts: Seq<UserPurchase>, x: UserPurchase)
    ensures
        sum_allocated(accounts.push(x)) == sum_allocated(accounts) + x.total_tokens_purchased,
{
    assert(accounts.push(x).drop_last() =~= accounts);
}

/// `after` is `before` with the record at `i` having released `period`.
pub open spec fn claim_applied(
    before: Seq<UserPurchase>,
    after: Seq<UserPurchase>,
    i: int,
    period: int,
) -> bool {
    let s = before[i].vesting_schedule;
    &&& 0 <= i < before.len()
    &&& after == before.update(i, after[i])
    &&& after[i] == (UserPurchase { vesting_schedule: after[i].vesting_schedule, ..before[i] })
    &&& s.released(after[i].vesting_schedule, period, period_share(s.total_tokens as int, period))
}

/// The whole sale: its configuration and every buyer's record.
pub struct PresaleLedger {
    pub config: PresaleConfig,
    pub accounts: Vec<UserPurchase>,
}

impl PresaleLedger {
    /// The sale's total equals the sum of the buyers' allocations, each
    /// record agrees with its schedule, and no buyer has two records.
    pub open spec fn wf(&self) -> bool {
        &&& self.config.total_sold == sum_allocated(self.accounts@)
        &&& forall|i: int| 0 <= i < self.accounts@.len() ==> (#[trigger] self.accounts@[i]).wf()
        &&& forall|i: int, j: int|
            0 <= i < j < self.accounts@.len() ==> (#[trigger] self.accounts@[i]).user@ != (
            #[trigger] self.accounts@[j]).user@
    }

    /// Why a purchase by `user` of `amount` of `currency` is refused; `None`
    /// when it goes through.
    pub open spec fn purchase_error(&self, user: Seq<u8>, currency: Currency, amount: int) -> Option<
        PresaleError,
    > {
        match position_of(self.accounts@, user) {
            Some(i) => purchase_error(self.config, self.accounts@[i], currency, amount),
            None => purchase_error_for(self.config, 0, 0, 0, currency, amount),
        }
    }

    /// Why a claim by `user` of `period` at `now` is refused; `None` when it
    /// goes through.
    pub open spec fn claim_error(&self, user: Seq<u8>, period: int, now: int) -> Option<
        PresaleError,
    > {
        if period >= 4 {
            Some(PresaleError::InvalidPeriod)
        } else {
            match position_of(self.accounts@, user) {
                Some(i) => claim_error(self.accounts@[i].vesting_schedule, period, now),
                None => Some(PresaleError::UnknownBuyer),
            }
        }
    }

    /// A new, active sale with no buyers.
    pub fn new(
        authority: Pubkey,
        vibes_mint: Pubkey,
        listing_timestamp: i64,
        sol_to_vibes_rate: u64,
        usdc_to_vibes_rate: u64,
    ) -> (r: PresaleLedger)
        ensures
            r.wf(),
            r.accounts@.len() == 0,
            r.config == (PresaleConfig {
                authority,
                vibes_mint,
                listing_timestamp,
                sol_to_vibes_rate,
                usdc_to_vibes_rate,
                total_sold: 0,
                is_active: true,
                bump: 0,
            }),
    {
        PresaleLedger {
            config: PresaleConfig::new(
                authority,
                vibes_mint,
                listing_timestamp,
                sol_to_vibes_rate,
                usdc_to_vibes_rate,
                0,
            ),
            accounts: Vec::new(),
        }
    }

    /// Position of `user`'s record.
    pub fn find_account(&self, user: &Pubkey) -> (r: Option<usize>)
        requires
            self.wf(),
        ensures
            r matches Some(i) ==> position_of(self.accounts@, user@) == Some(i as int),
            r is None ==> position_of(self.accounts@, user@) is None,
    {
        let mut i: usize = 0;
        while i < self.accounts.len()
            invariant
                self.wf(),
                0 <= i <= self.accounts@.len(),
                forall|j: int| 0 <= j < i ==> (#[trigger] self.accounts@[j]).user@ != user@,
            decreases self.accounts@.len() - i,
        {
            if same_key(&self.accounts[i].user, user) {
                proof {
                    let k = choose|k: int|
                        0 <= k < self.accounts@.len() && (#[trigger] self.accounts@[k]).user@
                            == user@;
                    if k != i as int {
                        if k < i {
                        } else {
                            assert(self.accounts@[i as int].user@ != self.accounts@[k].user@);
                        }
                    }
                }
                return Some(i);
            }
            i = i + 1;
        }
        None
    }

    /// The record of `user`, once bought.
    pub fn account_of(&self, user: &Pubkey) -> (r: Option<UserPurchase>)
        requires
            self.wf(),
        ensures
            match position_of(self.accounts@, user@) {
                Some(i) => r == Some(self.accounts@[i]),
                None => r is None,
            },
    {
        match self.find_account(user) {
            Some(i) => Some(self.accounts[i]),
            None => None,
        }
    }
    /// Records a purchase by `user` of `amount` of `currency` at
    /// `timestamp`, opening the buyer's record on the first one. On failure
    /// nothing changes.
    pub fn purchase(&mut self, user: Pubkey, currency: Currency, amount: u64, timestamp: i64) -> (r:
        Result<PurchaseEvent, PresaleError>)
        requires
            old(self).wf(),
        ensures
            final(self).wf(),
            match r {
                Ok(event) => {
                    let a = allocation(old(self).config, currency, amount as int);
                    &&& old(self).purchase_error(user@, currency, amount as int) is None
                    &&& final(self).config == (PresaleConfig {
                        total_sold: (old(self).config.total_sold + a) as u64,
                        ..old(self).config
                    })
                    &&& match position_of(old(self).accounts@, user@) {
                        Some(i) => {
                            &&& final(self).accounts@ == old(self).accounts@.update(
                                i,
                                final(self).accounts@[i],
                            )
                            &&& purchase_applied(
                                old(self).config,
                                old(self).accounts@[i],
                                final(self).accounts@[i],
                                user,
                                currency,
                                amount as int,
                            )
                        },
                        None => {
                            &&& final(self).accounts@.len() == old(self).accounts@.len() + 1
                            &&& final(self).accounts@.drop_last() == old(self).accounts@
                            &&& opened_by_purchase(
                                old(self).config,
                                final(self).accounts@.last(),
                                user,
                                currency,
                                amount as int,
                            )
                        },
                    }
                    &&& event == (PurchaseEvent {
                        user,
                        sol_amount: if currency == Currency::Sol {
                            amount
                        } else {
                            0
                        },
                        vibes_amount: a as u64,
                        timestamp,
                    })
                },
                Err(e) => {
                    &&& old(self).purchase_error(user@, currency, amount as int) == Some(e)
                    &&& final(self).config == old(self).config
                    &&& final(self).accounts@ == old(self).accounts@
                },
            },
    {
        match self.find_account(&user) {
            Some(i) => {
                let mut account = self.accounts[i];
                let ghost before = self.accounts@;
                let ghost config0 = self.config;
                let r = purchase(&mut self.config, &mut account, user, currency, amount, timestamp);
                if r.is_ok() {
                    proof {
                        purchase_keeps_total_sold(
                            config0,
                            self.config,
                            before,
                            i as int,
                            account,
                            user,
                            currency,
                            amount as int,
                        );
                    }
                    self.accounts.set(i, account);
                    proof {
                        assert forall|j: int, k: int|
                            0 <= j < k < self.accounts@.len() implies (#[trigger] self.accounts@[j]).user@
                            != (#[trigger] self.accounts@[k]).user@ by {
                            assert(before[j].user@ != before[k].user@);
                        }
                    }
                }
                r
            },
            None => {
                let mut account = UserPurchase::new(user, 0);
                let ghost before = self.accounts@;
                let r = purchase(&mut self.config, &mut account, user, currency, amount, timestamp);
                if r.is_ok() {
                    proof {
                        lemma_sum_allocated_push(before, account);
                    }
                    self.accounts.push(account);
                    proof {
                        assert(self.accounts@.drop_last() =~= before);
                        assert forall|j: int, k: int|
                            0 <= j < k < self.accounts@.len() implies (#[trigger] self.accounts@[j]).user@
                            != (#[trigger] self.accounts@[k]).user@ by {
                            if k == before.len() {
                                assert(before[j].user@ != user@);
                            } else {
                                assert(before[j].user@ != before[k].user@);
                            }
                        }
                    }
                }
                r
            },
        }
    }

    /// Releases vesting `period` of `user`'s schedule at time `now`, and
    /// returns the event to publish. On failure nothing changes.
    pub fn claim(&mut self, user: &Pubkey, period: u8, now: i64) -> (r: Result<ClaimEvent, PresaleError>)
        requires
            old(self).wf(),
        ensures
            final(self).wf(),
            final(self).config == old(self).config,
            match r {
                Ok(event) => {
                    &&& old(self).claim_error(user@, period as int, now as int) is None
                    &&& match position_of(old(self).accounts@, user@) {
                        Some(i) => {
                            &&& claim_applied(
                                old(self).accounts@,
                                final(self).accounts@,
                                i,
                                period as int,
                            )
                            &&& event == (ClaimEvent {
                                user: *user,
                                period,
                                amount: final(self).accounts@[i].vesting_schedule.claimed_amounts@[period as int],
                                timestamp: now,
                            })
                        },
                        None => false,
                    }
                },
                Err(e) => {
                    &&& old(self).claim_error(user@, period as int, now as int) == Some(e)
                    &&& final(self).accounts@ == old(self).accounts@
                },
            },
    {
        if period >= 4 {
            return Err(PresaleError::InvalidPeriod);
        }
        match self.find_account(user) {
            Some(i) => {
                let mut account = self.accounts[i];
                let ghost before = self.accounts@;
                match account.vesting_schedule.claim(period, now) {
                    Ok(amount) => {
                        self.accounts.set(i, account);
                        proof {
                            lemma_sum_allocated_update(before, i as int, account);
                            assert forall|j: int, k: int|
                                0 <= j < k < self.accounts@.len() implies (#[trigger] self.accounts@[j]).user@
                                != (#[trigger] self.accounts@[k]).user@ by {
                                assert(before[j].user@ != before[k].user@);
                            }
                        }
                        Ok(ClaimEvent { user: *user, period, amount, timestamp: now })
                    },
                    Err(e) => Err(e),
                }
            },
            None => Err(PresaleError::UnknownBuyer),
        }
    }

    /// Replaces both conversion rates; only the sale's authority may.
    pub fn update_rates(&mut self, caller: &Pubkey, new_sol_rate: u64, new_usdc_rate: u64) -> (r:
        Result<(), PresaleError>)
        requires
            old(self).wf(),
        ensures
            final(self).wf(),
            final(self).accounts@ == old(self).accounts@,
            r is Ok <==> caller@ == old(self).config.authority@,
            r is Err ==> r == Err::<(), PresaleError>(PresaleError::Unauthorized) && final(self).config
                == old(self).config,
            r is Ok ==> final(self).config == (PresaleConfig {
                sol_to_vibes_rate: new_sol_rate,
                usdc_to_vibes_rate: new_usdc_rate,
                ..old(self).config
            }),
    {
        self.config.set_rates(caller, new_sol_rate, new_usdc_rate)
    }

    /// Pauses a running sale or resumes a paused one; only the sale's authority may.
    pub fn toggle_presale(&mut self, caller: &Pubkey) -> (r: Result<(), PresaleError>)
        requires
            old(self).wf(),
        ensures
            final(self).wf(),
            final(self).accounts@ == old(self).accounts@,
            r is Ok <==> caller@ == old(self).config.authority@,
            r is Err ==> r == Err::<(), PresaleError>(PresaleError::Unauthorized) && final(self).config
                == old(self).config,
            r is Ok ==> final(self).config == (PresaleConfig {
                is_active: !old(self).config.is_active,
                ..old(self).config
            }),
    {
        self.config.toggle_active(caller)
    }
}

} // verus!
