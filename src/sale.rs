use vstd::prelude::*;

use crate::error::PresaleError;
use crate::key::{same_key, Pubkey};
use crate::vesting::VestingSchedule;

verus! {

/// A payment currency.
#[derive(Clone, Copy, Debug, PartialEq, Eq, Structural)]
pub enum Currency {
    Sol,
    Usdc,
}

/// The sale's configuration and running total, one per deployment.
#[derive(Clone, Copy, Debug, PartialEq, Eq)]
pub struct PresaleConfig {
    /// The identity allowed to change rates and pause the sale.
    pub authority: Pubkey,
    /// The token being sold.
    pub vibes_mint: Pubkey,
    /// Time at which vesting period 0 unlocks.
    pub listing_timestamp: i64,
    /// VIBES units per SOL unit.
    pub sol_to_vibes_rate: u64,
    /// VIBES units per USDC unit.
    pub usdc_to_vibes_rate: u64,
    /// VIBES units allocated to all buyers together.
    pub total_sold: u64,
    /// Whether purchases are accepted.
    pub is_active: bool,
    pub bump: u8,
}

/// One buyer's purchase record, created on the first purchase.
#[derive(Clone, Copy, Debug, PartialEq, Eq)]
pub struct UserPurchase {
    pub user: Pubkey,
    /// VIBES units bought in both currencies together.
    pub total_tokens_purchased: u64,
    pub total_sol_spent: u64,
    pub total_usdc_spent: u64,
    pub purchase_count: u32,
    pub vesting_schedule: VestingSchedule,
    pub bump: u8,
}

/// Published after each purchase.
#[derive(Clone, Copy, Debug, PartialEq, Eq)]
pub struct PurchaseEvent {
    pub user: Pubkey,
    /// SOL paid; zero for a purchase in USDC.
    pub sol_amount: u64,
    pub vibes_amount: u64,
    pub timestamp: i64,
}

/// Published after each claim.
#[derive(Clone, Copy, Debug, PartialEq, Eq)]
pub struct ClaimEvent {
    pub user: Pubkey,
    pub period: u8,
    pub amount: u64,
    pub timestamp: i64,
}

impl PresaleConfig {
    /// The rate at which `currency` converts into VIBES.
    pub open spec fn rate(&self, currency: Currency) -> int {
        match currency {
            Currency::Sol => self.sol_to_vibes_rate as int,
            Currency::Usdc => self.usdc_to_vibes_rate as int,
        }
    }

    /// A new, active sale with nothing sold.
    pub fn new(
        authority: Pubkey,
        vibes_mint: Pubkey,
        listing_timestamp: i64,
        sol_to_vibes_rate: u64,
        usdc_to_vibes_rate: u64,
        bump: u8,
    ) -> (r: PresaleConfig)
        ensures
            r == (PresaleConfig {
                authority,
                vibes_mint,
                listing_timestamp,
                sol_to_vibes_rate,
                usdc_to_vibes_rate,
                total_sold: 0,
                is_active: true,
                bump,
            }),
    {
        PresaleConfig {
            authority,
            vibes_mint,
            listing_timestamp,
            sol_to_vibes_rate,
            usdc_to_vibes_rate,
            total_sold: 0,
            is_active: true,
            bump,
        }
    }

    /// Replaces both rates, when `caller` is the authority.
    pub fn set_rates(&mut self, caller: &Pubkey, new_sol_rate: u64, new_usdc_rate: u64) -> (r:
        Result<(), PresaleError>)
        ensures
            r is Ok <==> caller@ == old(self).authority@,
            r is Err ==> r == Err::<(), PresaleError>(PresaleError::Unauthorized) && *final(self)
                == *old(self),
            r is Ok ==> *final(self) == (PresaleConfig {
                sol_to_vibes_rate: new_sol_rate,
                usdc_to_vibes_rate: new_usdc_rate,
                ..*old(self)
            }),
    {
        if !same_key(caller, &self.authority) {
            return Err(PresaleError::Unauthorized);
        }
        self.sol_to_vibes_rate = new_sol_rate;
        self.usdc_to_vibes_rate = new_usdc_rate;
        Ok(())
    }

    /// Pauses or resumes purchases, when `caller` is the authority.
    pub fn toggle_active(&mut self, caller: &Pubkey) -> (r: Result<(), PresaleError>)
        ensures
            r is Ok <==> caller@ == old(self).authority@,
            r is Err ==> r == Err::<(), PresaleError>(PresaleError::Unauthorized) && *final(self)
                == *old(self),
            r is Ok ==> *final(self) == (PresaleConfig { is_active: !old(self).is_active, ..*old(self) }),
    {
        if !same_key(caller, &self.authority) {
            return Err(PresaleError::Unauthorized);
        }
        self.is_active = !self.is_active;
        Ok(())
    }
}

impl UserPurchase {
    /// The record's allocation and its schedule's total agree.
    pub open spec fn wf(&self) -> bool {
        self.total_tokens_purchased == self.vesting_schedule.total_tokens
    }

    /// An empty record for `user`: nothing bought, nothing vesting.
    pub fn new(user: Pubkey, bump: u8) -> (r: UserPurchase)
        ensures
            r.wf(),
            r.user == user,
            r.bump == bump,
            r.total_tokens_purchased == 0,
            r.total_sol_spent == 0,
            r.total_usdc_spent == 0,
            r.purchase_count == 0,
            r.vesting_schedule.is_fresh(0, 0),
    {
        UserPurchase {
            user,
            total_tokens_purchased: 0,
            total_sol_spent: 0,
            total_usdc_spent: 0,
            purchase_count: 0,
            vesting_schedule: VestingSchedule::new(0, 0),
            bump,
        }
    }
}

/// VIBES units that `amount` of `currency` buys.
pub open spec fn allocation(config: PresaleConfig, currency: Currency, amount: int) -> int {
    amount * config.rate(currency)
}

/// What `account` has spent so far in `currency`.
pub open spec fn spent_in(account: UserPurchase, currency: Currency) -> int {
    match currency {
        Currency::Sol => account.total_sol_spent as int,
        Currency::Usdc => account.total_usdc_spent as int,
    }
}

/// Why a purchase of `amount` of `currency` is refused, checked in order, for
/// a buyer who so far was allocated `allocated`, spent `spent` in that
/// currency and made `count` purchases; `None` when it goes through.
pub open spec fn purchase_error_for(
    config: PresaleConfig,
    allocated: int,
    spent: int,
    count: int,
    currency: Currency,
    amount: int,
) -> Option<PresaleError> {
    let a = allocation(config, currency, amount);
    if !config.is_active {
        Some(PresaleError::PresaleNotActive)
    } else if amount <= 0 {
        Some(PresaleError::InvalidAmount)
    } else if a > u64::MAX || config.total_sold + a > u64::MAX || allocated + a > u64::MAX || spent
        + amount > u64::MAX || count + 1 > u32::MAX {
        Some(PresaleError::CalculationOverflow)
    } else {
        None
    }
}

/// Why a purchase of `amount` of `currency` into `account` is refused;
/// `None` when it goes through.
pub open spec fn purchase_error(
    config: PresaleConfig,
    account: UserPurchase,
    currency: Currency,
    amount: int,
) -> Option<PresaleError> {
    purchase_error_for(
        config,
        account.total_tokens_purchased as int,
        spent_in(account, currency),
        account.purchase_count as int,
        currency,
        amount,
    )
}

/// `after` is `before` once `user` has bought `amount` of `currency` under `config`.
pub open spec fn purchase_applied(
    config: PresaleConfig,
    before: UserPurchase,
    after: UserPurchase,
    user: Pubkey,
    currency: Currency,
    amount: int,
) -> bool {
    let a = allocation(config, currency, amount);
    &&& after.user == user
    &&& after.bump == before.bump
    &&& after.total_tokens_purchased == before.total_tokens_purchased + a
    &&& after.total_sol_spent == before.total_sol_spent + if currency == Currency::Sol {
        amount
    } else {
        0
    }
    &&& after.total_usdc_spent == before.total_usdc_spent + if currency == Currency::Usdc {
        amount
    } else {
        0
    }
    &&& after.purchase_count == before.purchase_count + 1
    &&& if before.vesting_schedule.total_tokens == 0 {
        after.vesting_schedule.is_fresh(a, config.listing_timestamp as int)
    } else {
        after.vesting_schedule == VestingSchedule {
            total_tokens: (before.vesting_schedule.total_tokens + a) as u64,
            ..before.vesting_schedule
        }
    }
}

/// Records a purchase by `user` of `amount` of `currency` at `timestamp`:
/// converts it at the configured rate, adds it to the buyer's record and
/// schedule and to the sale's total, and returns the event to publish.
/// On failure neither `config` nor `account` changes.
pub fn purchase(
    config: &mut PresaleConfig,
    account: &mut UserPurchase,
    user: Pubkey,
    currency: Currency,
    amount: u64,
    timestamp: i64,
) -> (r: Result<PurchaseEvent, PresaleError>)
    requires
        old(account).wf(),
    ensures
        final(account).wf(),
        match r {
            Ok(event) => {
                let a = allocation(*old(config), currency, amount as int);
                &&& purchase_error(*old(config), *old(account), currency, amount as int) is None
                &&& *final(config) == (PresaleConfig {
                    total_sold: (old(config).total_sold + a) as u64,
                    ..*old(config)
                })
                &&& purchase_applied(*old(config), *old(account), *final(account), user, currency, amount as int)
                &&& event == (PurchaseEvent {
                    user,
                    sol_amount: if currency == Currency::Sol { amount } else { 0 },
                    vibes_amount: a as u64,
                    timestamp,
                })
            },
            Err(e) => {
                &&& purchase_error(*old(config), *old(account), currency, amount as int) == Some(e)
                &&& *final(config) == *old(config)
                &&& *final(account) == *old(account)
            },
        },
{
    if !config.is_active {
        return Err(PresaleError::PresaleNotActive);
    }
    if amount == 0 {
        return Err(PresaleError::InvalidAmount);
    }
    let rate = match currency {
        Currency::Sol => config.sol_to_vibes_rate,
        Currency::Usdc => config.usdc_to_vibes_rate,
    };
    let vibes_amount = match amount.checked_mul(rate) {
        Some(v) => v,
        None => return Err(PresaleError::CalculationOverflow),
    };
    let total_sold = match config.total_sold.checked_add(vibes_amount) {
        Some(v) => v,
        None => return Err(PresaleError::CalculationOverflow),
    };
    let total_tokens = match account.total_tokens_purchased.checked_add(vibes_amount) {
        Some(v) => v,
        None => return Err(PresaleError::CalculationOverflow),
    };
    let spent_before = match currency {
        Currency::Sol => account.total_sol_spent,
        Currency::Usdc => account.total_usdc_spent,
    };
    let spent = match spent_before.checked_add(amount) {
        Some(v) => v,
        None => return Err(PresaleError::CalculationOverflow),
    };
    let count = match account.purchase_count.checked_add(1) {
        Some(v) => v,
        None => return Err(PresaleError::CalculationOverflow),
    };

    account.user = user;
    account.total_tokens_purchased = total_tokens;
    match currency {
        Currency::Sol => account.total_sol_spent = spent,
        Currency::Usdc => account.total_usdc_spent = spent,
    }
    account.purchase_count = count;
    if account.vesting_schedule.total_tokens == 0 {
        account.vesting_schedule = VestingSchedule::new(vibes_amount, config.listing_timestamp);
    } else {
        account.vesting_schedule.total_tokens = total_tokens;
    }
    config.total_sold = total_sold;

    Ok(PurchaseEvent {
        user,
        sol_amount: match currency {
            Currency::Sol => amount,
            Currency::Usdc => 0,
        },
        vibes_amount,
        timestamp,
    })
}

} // verus!
