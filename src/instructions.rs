use vstd::prelude::*;

use crate::error::PresaleError;
use crate::key::Pubkey;
use crate::sale::{
    allocation, purchase, purchase_applied, purchase_error, ClaimEvent, Currency, PresaleConfig,
    PurchaseEvent, UserPurchase,
};
use crate::vesting::{claim_error, period_share};

verus! {

/// What creating the sale reads: its signer and the token sold.
#[derive(Clone, Copy, Debug, PartialEq, Eq)]
pub struct InitializePresale {
    pub authority: Pubkey,
    pub vibes_mint: Pubkey,
    pub bump: u8,
}

/// The records a purchase in SOL reads and writes.
#[derive(Clone, Copy, Debug, PartialEq, Eq)]
pub struct PurchaseWithSol {
    pub presale_config: PresaleConfig,
    pub user_purchase: UserPurchase,
    /// The buyer, who signs the purchase.
    pub user: Pubkey,
    /// Bump of the buyer's record.
    pub user_purchase_bump: u8,
}

/// The records a purchase in USDC reads and writes.
#[derive(Clone, Copy, Debug, PartialEq, Eq)]
pub struct PurchaseWithUsdc {
    pub presale_config: PresaleConfig,
    pub user_purchase: UserPurchase,
    /// The buyer, who signs the purchase.
    pub user: Pubkey,
    /// Bump of the buyer's record.
    pub user_purchase_bump: u8,
}

/// The records a claim reads and writes.
#[derive(Clone, Copy, Debug, PartialEq, Eq)]
pub struct ClaimVestedTokens {
    pub presale_config: PresaleConfig,
    pub user_purchase: UserPurchase,
    /// The buyer, who signs the claim.
    pub user: Pubkey,
}

/// The record a rate change writes, and who asks for it.
#[derive(Clone, Copy, Debug, PartialEq, Eq)]
pub struct UpdateRates {
    pub presale_config: PresaleConfig,
    /// The signer of the request.
    pub authority: Pubkey,
}

/// The record a pause or resume writes, and who asks for it.
#[derive(Clone, Copy, Debug, PartialEq, Eq)]
pub struct TogglePresale {
    pub presale_config: PresaleConfig,
    /// The signer of the request.
    pub authority: Pubkey,
}

/// Creates the sale: active, nothing sold, administered by the signer.
pub fn initialize_presale(
    ctx: &InitializePresale,
    listing_timestamp: i64,
    sol_to_vibes_rate: u64,
    usdc_to_vibes_rate: u64,
) -> (r: PresaleConfig)
    ensures
        r == (PresaleConfig {
            authority: ctx.authority,
            vibes_mint: ctx.vibes_mint,
            listing_timestamp,
            sol_to_vibes_rate,
            usdc_to_vibes_rate,
            total_sold: 0,
            is_active: true,
            bump: ctx.bump,
        }),
{
    PresaleConfig::new(
        ctx.authority,
        ctx.vibes_mint,
        listing_timestamp,
        sol_to_vibes_rate,
        usdc_to_vibes_rate,
        ctx.bump,
    )
}

/// Records a purchase of `sol_amount` SOL at `timestamp`. The host moves the
/// SOL from the buyer to the sale's vault once this returns `Ok`, and keeps
/// none of the changes if that transfer fails.
pub fn purchase_with_sol(ctx: &mut PurchaseWithSol, sol_amount: u64, timestamp: i64) -> (r: Result<
    PurchaseEvent,
    PresaleError,
>)
    requires
        old(ctx).user_purchase.wf(),
    ensures
        final(ctx).user_purchase.wf(),
        final(ctx).user == old(ctx).user,
        final(ctx).user_purchase_bump == old(ctx).user_purchase_bump,
        match r {
            Ok(event) => {
                let a = allocation(old(ctx).presale_config, Currency::Sol, sol_amount as int);
                &&& purchase_error(
                    old(ctx).presale_config,
                    old(ctx).user_purchase,
                    Currency::Sol,
                    sol_amount as int,
                ) is None
                &&& final(ctx).presale_config == (PresaleConfig {
                    total_sold: (old(ctx).presale_config.total_sold + a) as u64,
                    ..old(ctx).presale_config
                })
                &&& purchase_applied(
                    old(ctx).presale_config,
                    UserPurchase { bump: old(ctx).user_purchase_bump, ..old(ctx).user_purchase },
                    final(ctx).user_purchase,
                    old(ctx).user,
                    Currency::Sol,
                    sol_amount as int,
                )
                &&& event == (PurchaseEvent {
                    user: old(ctx).user,
                    sol_amount,
                    vibes_amount: a as u64,
                    timestamp,
                })
            },
            Err(e) => {
                &&& purchase_error(
                    old(ctx).presale_config,
                    old(ctx).user_purchase,
                    Currency::Sol,
                    sol_amount as int,
                ) == Some(e)
                &&& *final(ctx) == *old(ctx)
            },
        },
{
    let mut account = ctx.user_purchase;
    let r = purchase(
        &mut ctx.presale_config,
        &mut account,
        ctx.user,
        Currency::Sol,
        sol_amount,
        timestamp,
    );
    if r.is_ok() {
        account.bump = ctx.user_purchase_bump;
        ctx.user_purchase = account;
    }
    r
}

/// Records a purchase of `usdc_amount` USDC at `timestamp`. The host moves
/// the USDC from the buyer's token account to the sale's vault once this
/// returns `Ok`, and keeps none of the changes if that transfer fails.
pub fn purchase_with_usdc(ctx: &mut PurchaseWithUsdc, usdc_amount: u64, timestamp: i64) -> (r:
    Result<PurchaseEvent, PresaleError>)
    requires
        old(ctx).user_purchase.wf(),
    ensures
        final(ctx).user_purchase.wf(),
        final(ctx).user == old(ctx).user,
        final(ctx).user_purchase_bump == old(ctx).user_purchase_bump,
        match r {
            Ok(event) => {
                let a = allocation(old(ctx).presale_config, Currency::Usdc, usdc_amount as int);
                &&& purchase_error(
                    old(ctx).presale_config,
                    old(ctx).user_purchase,
                    Currency::Usdc,
                    usdc_amount as int,
                ) is None
                &&& final(ctx).presale_config == (PresaleConfig {
                    total_sold: (old(ctx).presale_config.total_sold + a) as u64,
                    ..old(ctx).presale_config
                })
                &&& purchase_applied(
                    old(ctx).presale_config,
                    UserPurchase { bump: old(ctx).user_purchase_bump, ..old(ctx).user_purchase },
                    final(ctx).user_purchase,
                    old(ctx).user,
                    Currency::Usdc,
                    usdc_amount as int,
                )
                &&& event == (PurchaseEvent {
                    user: old(ctx).user,
                    sol_amount: 0,
                    vibes_amount: a as u64,
                    timestamp,
                })
            },
            Err(e) => {
                &&& purchase_error(
                    old(ctx).presale_config,
                    old(ctx).user_purchase,
                    Currency::Usdc,
                    usdc_amount as int,
                ) == Some(e)
                &&& *final(ctx) == *old(ctx)
            },
        },
{
    let mut account = ctx.user_purchase;
    let r = purchase(
        &mut ctx.presale_config,
        &mut account,
        ctx.user,
        Currency::Usdc,
        usdc_amount,
        timestamp,
    );
    if r.is_ok() {
        account.bump = ctx.user_purchase_bump;
        ctx.user_purchase = account;
    }
    r
}

/// Releases vesting `period` of the buyer's schedule at time `now`. The host
/// moves the returned amount from the sale's vault to the buyer, signed by
/// the sale itself, once this returns `Ok`.
pub fn claim_vested_tokens(ctx: &mut ClaimVestedTokens, period: u8, now: i64) -> (r: Result<
    ClaimEvent,
    PresaleError,
>)
    requires
        old(ctx).user_purchase.wf(),
    ensures
        final(ctx).user_purchase.wf(),
        final(ctx).presale_config == old(ctx).presale_config,
        final(ctx).user == old(ctx).user,
        match r {
            Ok(event) => {
                let s = old(ctx).user_purchase.vesting_schedule;
                let amount = period_share(s.total_tokens as int, period as int);
                &&& claim_error(s, period as int, now as int) is None
                &&& s.released(final(ctx).user_purchase.vesting_schedule, period as int, amount)
                &&& final(ctx).user_purchase == (UserPurchase {
                    vesting_schedule: final(ctx).user_purchase.vesting_schedule,
                    ..old(ctx).user_purchase
                })
                &&& event == (ClaimEvent {
                    user: old(ctx).user,
                    period,
                    amount: amount as u64,
                    timestamp: now,
                })
            },
            Err(e) => {
                &&& claim_error(old(ctx).user_purchase.vesting_schedule, period as int, now as int)
                    == Some(e)
                &&& *final(ctx) == *old(ctx)
            },
        },
{
    match ctx.user_purchase.vesting_schedule.claim(period, now) {
        Ok(amount) => Ok(ClaimEvent { user: ctx.user, period, amount, timestamp: now }),
        Err(e) => Err(e),
    }
}

/// Replaces both conversion rates; only the sale's authority may.
pub fn update_rates(ctx: &mut UpdateRates, new_sol_rate: u64, new_usdc_rate: u64) -> (r: Result<
    (),
    PresaleError,
>)
    ensures
        final(ctx).authority == old(ctx).authority,
        r is Ok <==> old(ctx).authority@ == old(ctx).presale_config.authority@,
        r is Err ==> r == Err::<(), PresaleError>(PresaleError::Unauthorized) && *final(ctx)
            == *old(ctx),
        r is Ok ==> final(ctx).presale_config == (PresaleConfig {
            sol_to_vibes_rate: new_sol_rate,
            usdc_to_vibes_rate: new_usdc_rate,
            ..old(ctx).presale_config
        }),
{
    let caller = ctx.authority;
    ctx.presale_config.set_rates(&caller, new_sol_rate, new_usdc_rate)
}

/// Pauses a running sale or resumes a paused one; only the sale's authority may.
pub fn toggle_presale(ctx: &mut TogglePresale) -> (r: Result<(), PresaleError>)
    ensures
        final(ctx).authority == old(ctx).authority,
        r is Ok <==> old(ctx).authority@ == old(ctx).presale_config.authority@,
        r is Err ==> r == Err::<(), PresaleError>(PresaleError::Unauthorized) && *final(ctx)
            == *old(ctx),
        r is Ok ==> final(ctx).presale_config == (PresaleConfig {
            is_active: !old(ctx).presale_config.is_active,
            ..old(ctx).presale_config
        }),
{
    let caller = ctx.authority;
    ctx.presale_config.toggle_active(&caller)
}

} // verus!
