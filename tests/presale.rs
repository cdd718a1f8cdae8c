use vibes_presale::error::PresaleError;
use vibes_presale::instructions::{
    claim_vested_tokens, initialize_presale, purchase_with_sol, purchase_with_usdc,
    toggle_presale, update_rates, ClaimVestedTokens, InitializePresale, PurchaseWithSol,
    PurchaseWithUsdc, TogglePresale, UpdateRates,
};
use vibes_presale::key::{same_key, Pubkey};
use vibes_presale::ledger::PresaleLedger;
use vibes_presale::sale::{Currency, UserPurchase};
use vibes_presale::vesting::{calculate_period_amount, calculate_period_timestamp, VestingSchedule};

const DAY: i64 = 24 * 60 * 60;
const LISTING: i64 = 1_700_000_000;

fn key(b: u8) -> Pubkey {
    Pubkey::new_from_array([b; 32])
}

fn ledger(sol_rate: u64, usdc_rate: u64) -> PresaleLedger {
    PresaleLedger::new(key(1), key(2), LISTING, sol_rate, usdc_rate)
}

fn total_of(l: &PresaleLedger) -> u64 {
    l.accounts.iter().map(|a| a.total_tokens_purchased).sum()
}

#[test]
fn period_share_of_ten_thousand() {
    assert_eq!(calculate_period_amount(10000, 0), 4000);
    assert_eq!(calculate_period_amount(10000, 1), 2000);
    assert_eq!(calculate_period_amount(10000, 2), 2000);
    assert_eq!(calculate_period_amount(10000, 3), 2000);
    assert_eq!(calculate_period_amount(10000, 4), 0);
}

#[test]
fn period_share_truncates() {
    assert_eq!(calculate_period_amount(103, 0), 41);
    let rest: u64 = (1..4).map(|p| calculate_period_amount(103, p)).sum();
    assert_eq!(rest, 60);
    assert_eq!(41 + rest, 101);
    let whole: u64 = (0..4).map(|p| calculate_period_amount(105, p)).sum();
    assert_eq!(whole, 105);
}

#[test]
fn period_share_of_largest_total() {
    assert_eq!(calculate_period_amount(u64::MAX, 0), ((u64::MAX as u128) * 40 / 100) as u64);
    assert_eq!(calculate_period_amount(u64::MAX, 3), ((u64::MAX as u128) * 20 / 100) as u64);
}

#[test]
fn period_unlock_times() {
    assert_eq!(calculate_period_timestamp(LISTING, 0), LISTING as i128);
    assert_eq!(calculate_period_timestamp(LISTING, 2), LISTING as i128 + 60 * DAY as i128);
    assert_eq!(
        calculate_period_timestamp(i64::MAX, 3),
        i64::MAX as i128 + 90 * DAY as i128
    );
}

#[test]
fn keys_compare_by_bytes() {
    assert!(same_key(&key(3), &key(3)));
    assert!(!same_key(&key(3), &key(4)));
    let mut b = [3u8; 32];
    b[31] = 9;
    assert!(!same_key(&key(3), &Pubkey::new_from_array(b)));
}

#[test]
fn second_purchase_grows_unclaimed_periods() {
    let mut l = ledger(5, 3);
    let buyer = key(7);
    let ev = l.purchase(buyer, Currency::Sol, 1000, LISTING - 10).unwrap();
    assert_eq!(ev.vibes_amount, 5000);
    assert_eq!(ev.sol_amount, 1000);
    let c = l.claim(&buyer, 0, LISTING).unwrap();
    assert_eq!(c.amount, 2000);
    let ev = l.purchase(buyer, Currency::Usdc, 2000, LISTING + 1).unwrap();
    assert_eq!(ev.vibes_amount, 6000);
    assert_eq!(ev.sol_amount, 0);
    let a = l.account_of(&buyer).unwrap();
    assert_eq!(a.total_tokens_purchased, 11000);
    assert_eq!(a.vesting_schedule.total_tokens, 11000);
    assert_eq!(a.vesting_schedule.claimed_amounts, [2000, 0, 0, 0]);
    assert_eq!(a.vesting_schedule.claimed_flags, [true, false, false, false]);
    assert_eq!(a.total_sol_spent, 1000);
    assert_eq!(a.total_usdc_spent, 2000);
    assert_eq!(a.purchase_count, 2);
    let c = l.claim(&buyer, 1, LISTING + 30 * DAY).unwrap();
    assert_eq!(c.amount, 2200);
}

#[test]
fn total_sold_is_sum_over_buyers() {
    let mut l = ledger(5, 3);
    l.purchase(key(7), Currency::Sol, 1000, 0).unwrap();
    l.purchase(key(8), Currency::Usdc, 10, 0).unwrap();
    l.purchase(key(7), Currency::Usdc, 1, 0).unwrap();
    assert_eq!(l.accounts.len(), 2);
    assert_eq!(l.config.total_sold, 5033);
    assert_eq!(l.config.total_sold, total_of(&l));
    for a in &l.accounts {
        assert_eq!(a.total_tokens_purchased, a.vesting_schedule.total_tokens);
    }
}

#[test]
fn zero_purchase_is_invalid_and_changes_nothing() {
    let mut l = ledger(5, 3);
    l.purchase(key(7), Currency::Sol, 10, 0).unwrap();
    let config = l.config;
    let accounts = l.accounts.clone();
    assert_eq!(l.purchase(key(7), Currency::Sol, 0, 0), Err(PresaleError::InvalidAmount));
    assert_eq!(l.purchase(key(9), Currency::Usdc, 0, 0), Err(PresaleError::InvalidAmount));
    assert_eq!(l.config, config);
    assert_eq!(l.accounts, accounts);
}

#[test]
fn overflowing_purchase_is_refused() {
    let mut l = ledger(u64::MAX, 3);
    assert_eq!(l.purchase(key(7), Currency::Sol, 2, 0), Err(PresaleError::CalculationOverflow));
    l.purchase(key(7), Currency::Sol, 1, 0).unwrap();
    assert_eq!(l.purchase(key(8), Currency::Usdc, 1, 0), Err(PresaleError::CalculationOverflow));
    assert_eq!(l.config.total_sold, u64::MAX);
    assert_eq!(l.accounts.len(), 1);
}

#[test]
fn paused_sale_refuses_purchases_but_not_claims() {
    let mut l = ledger(5, 3);
    l.purchase(key(7), Currency::Sol, 100, 0).unwrap();
    l.toggle_presale(&key(1)).unwrap();
    assert!(!l.config.is_active);
    assert_eq!(l.purchase(key(7), Currency::Sol, 100, 0), Err(PresaleError::PresaleNotActive));
    assert_eq!(l.purchase(key(7), Currency::Sol, 0, 0), Err(PresaleError::PresaleNotActive));
    assert_eq!(l.claim(&key(7), 0, LISTING).unwrap().amount, 200);
    l.toggle_presale(&key(1)).unwrap();
    assert!(l.config.is_active);
}

#[test]
fn rates_change_only_by_authority() {
    let mut l = ledger(5, 3);
    assert_eq!(l.update_rates(&key(9), 50, 30), Err(PresaleError::Unauthorized));
    assert_eq!(l.config.sol_to_vibes_rate, 5);
    assert_eq!(l.config.usdc_to_vibes_rate, 3);
    assert_eq!(l.toggle_presale(&key(9)), Err(PresaleError::Unauthorized));
    assert!(l.config.is_active);
    l.update_rates(&key(1), 50, 30).unwrap();
    assert_eq!(l.purchase(key(7), Currency::Usdc, 2, 0).unwrap().vibes_amount, 60);
}

#[test]
fn claim_checks_in_order() {
    let mut l = ledger(5, 3);
    let buyer = key(7);
    assert_eq!(l.claim(&buyer, 4, LISTING), Err(PresaleError::InvalidPeriod));
    assert_eq!(l.claim(&buyer, 0, LISTING), Err(PresaleError::UnknownBuyer));
    l.purchase(buyer, Currency::Sol, 100, 0).unwrap();
    assert_eq!(l.claim(&buyer, 4, LISTING + 1000 * DAY), Err(PresaleError::InvalidPeriod));
    assert_eq!(l.claim(&buyer, 255, LISTING), Err(PresaleError::InvalidPeriod));
    assert_eq!(l.claim(&buyer, 0, LISTING - 1), Err(PresaleError::TokensNotListed));
    assert_eq!(l.claim(&buyer, 2, LISTING - 1), Err(PresaleError::TokensNotListed));
    assert_eq!(l.claim(&buyer, 2, LISTING + 60 * DAY - 1), Err(PresaleError::PeriodNotUnlocked));
    assert_eq!(l.claim(&buyer, 2, LISTING + 60 * DAY).unwrap().amount, 100);
    assert_eq!(l.claim(&buyer, 2, LISTING + 60 * DAY), Err(PresaleError::AlreadyClaimed));
    assert_eq!(l.claim(&buyer, 2, LISTING + 900 * DAY), Err(PresaleError::AlreadyClaimed));
}

#[test]
fn schedule_keeps_its_listing_time() {
    let mut l = ledger(5, 3);
    l.purchase(key(7), Currency::Sol, 100, 0).unwrap();
    l.config.listing_timestamp = LISTING + 10 * DAY;
    l.purchase(key(7), Currency::Sol, 100, 0).unwrap();
    assert_eq!(l.account_of(&key(7)).unwrap().vesting_schedule.listing_timestamp, LISTING);
    assert_eq!(l.claim(&key(7), 0, LISTING).unwrap().amount, 400);
}

#[test]
fn schedule_claim_direct() {
    let mut s = VestingSchedule::new(1000, 100);
    assert_eq!(s.claim(0, 99), Err(PresaleError::TokensNotListed));
    assert_eq!(s.claim(3, 100 + 90 * DAY), Ok(200));
    assert_eq!(s.claimed_amounts, [0, 0, 0, 200]);
    assert_eq!(s.claim(3, 100 + 91 * DAY), Err(PresaleError::AlreadyClaimed));
}

#[test]
fn instruction_flow() {
    let init = InitializePresale { authority: key(1), vibes_mint: key(2), bump: 254 };
    let config = initialize_presale(&init, LISTING, 5, 3);
    assert!(config.is_active);
    assert_eq!(config.total_sold, 0);
    assert_eq!(config.bump, 254);

    let mut ctx = PurchaseWithSol {
        presale_config: config,
        user_purchase: UserPurchase::new(key(0), 0),
        user: key(7),
        user_purchase_bump: 253,
    };
    let ev = purchase_with_sol(&mut ctx, 1000, 42).unwrap();
    assert_eq!(ev.vibes_amount, 5000);
    assert_eq!(ev.timestamp, 42);
    assert_eq!(ctx.user_purchase.user, key(7));
    assert_eq!(ctx.user_purchase.bump, 253);
    assert_eq!(ctx.presale_config.total_sold, 5000);
    let before = ctx;
    assert_eq!(purchase_with_sol(&mut ctx, 0, 42), Err(PresaleError::InvalidAmount));
    assert_eq!(ctx, before);

    let mut uctx = PurchaseWithUsdc {
        presale_config: ctx.presale_config,
        user_purchase: ctx.user_purchase,
        user: key(7),
        user_purchase_bump: 253,
    };
    let ev = purchase_with_usdc(&mut uctx, 2000, 43).unwrap();
    assert_eq!(ev.sol_amount, 0);
    assert_eq!(ev.vibes_amount, 6000);
    assert_eq!(uctx.user_purchase.total_tokens_purchased, 11000);
    assert_eq!(uctx.presale_config.total_sold, 11000);

    let mut cctx = ClaimVestedTokens {
        presale_config: uctx.presale_config,
        user_purchase: uctx.user_purchase,
        user: key(7),
    };
    assert_eq!(claim_vested_tokens(&mut cctx, 4, LISTING), Err(PresaleError::InvalidPeriod));
    let ev = claim_vested_tokens(&mut cctx, 0, LISTING).unwrap();
    assert_eq!(ev.amount, 4400);
    assert_eq!(ev.period, 0);
    assert_eq!(claim_vested_tokens(&mut cctx, 0, LISTING), Err(PresaleError::AlreadyClaimed));

    let mut rctx = UpdateRates { presale_config: cctx.presale_config, authority: key(9) };
    assert_eq!(update_rates(&mut rctx, 1, 1), Err(PresaleError::Unauthorized));
    assert_eq!(rctx.presale_config.sol_to_vibes_rate, 5);
    rctx.authority = key(1);
    update_rates(&mut rctx, 1, 2).unwrap();
    assert_eq!(rctx.presale_config.usdc_to_vibes_rate, 2);

    let mut tctx = TogglePresale { presale_config: rctx.presale_config, authority: key(9) };
    assert_eq!(toggle_presale(&mut tctx), Err(PresaleError::Unauthorized));
    tctx.authority = key(1);
    toggle_presale(&mut tctx).unwrap();
    assert!(!tctx.presale_config.is_active);
}
