use stellar_lend::lending::borrow::{
    borrow, borrow_with_rate, calculate_interest, check_admin, deposit, get_close_factor_bps,
    get_current_stable_rate_bps, get_debt_position, get_interest_index, get_liquidation_incentive_bps,
    get_liquidation_threshold_bps, get_user_collateral, get_user_debt, get_user_debt_with_rate,
    initialize_borrow_settings, interest_would_trap, repay, repay_with_rate, set_admin,
    set_close_factor_bps, set_liquidation_incentive_bps, set_liquidation_threshold_bps,
    set_oracle, set_stablecoin_config, set_variable_borrow_rate_bps, sweep_dust, switch_rate_type,
    track_dust, validate_collateral_ratio, BorrowError, BorrowSettings, DebtPosition, PegQuote,
    RateType, StableRateState, StablecoinConfig, UserBorrowRecord, get_oracle, get_admin,
    set_interest_index, get_stablecoin_config, update_stable_rate_state_if_needed,
    borrow_precheck, needs_oracle_price, repay_precheck, repay_would_trap, switch_precheck,
    repay_rate_type, VARIABLE_RATE_BPS, borrow_guarded, deposit_guarded, repay_guarded,
    switch_rate_type_guarded, sweep_dust_guarded,
};
use stellar_lend::lending::reentrancy::{ReentrancyGuard, ReentrancyKey};
use stellar_lend::locks::LockTable;

const YEAR: u64 = 31_536_000;

fn settings() -> BorrowSettings {
    BorrowSettings {
        admin: Some("GADMIN".to_string()),
        total_debt: None,
        debt_ceiling: None,
        min_borrow_amount: None,
        oracle: None,
        liquidation_threshold_bps: None,
        close_factor_bps: None,
        liquidation_incentive_bps: None,
        interest_index: None,
        stable_rate_state: None,
        stable_rate_premium_bps: None,
        stable_rate_recalc_interval_secs: None,
        rate_switch_fee_bps: None,
    }
}

fn record() -> UserBorrowRecord {
    UserBorrowRecord { legacy_debt: None, variable_debt: None, stable_debt: None, collateral: None, dust: None }
}

fn s(x: &str) -> String {
    x.to_string()
}

fn position(borrowed: i128, rate_type: RateType, last_update: u64) -> DebtPosition {
    DebtPosition {
        borrowed_amount: borrowed,
        interest_accrued: 0,
        last_update,
        asset: s("CUSDC"),
        rate_type,
        stable_rate_bps: 0,
    }
}

#[test]
fn interest_is_simple_interest_rounded_down() {
    let mut st = settings();
    // variable-rate debt accrues at the fixed 5% APY: 1_000_000 for one year
    assert_eq!(VARIABLE_RATE_BPS, 500);
    let q = calculate_interest(&mut st, &position(1_000_000, RateType::Variable, 0), YEAR, None);
    assert_eq!(q.result, Ok(50_000));
    assert_eq!(q.peg_event, None);
    // half a year, rounded down: 1_000_001 * 500 * 15768000 / 315360000000 = 25000.025
    let q = calculate_interest(&mut st, &position(1_000_001, RateType::Variable, 0), YEAR / 2, None);
    assert_eq!(q.result, Ok(25_000));
    // no principal, no interest
    let q = calculate_interest(&mut st, &position(0, RateType::Variable, 0), YEAR, None);
    assert_eq!(q.result, Ok(0));
    // 10 * 5% = 0.5, rounded down
    let q = calculate_interest(&mut st, &position(10, RateType::Variable, 0), YEAR, None);
    assert_eq!(q.result, Ok(0));
    // a stable position accrues at its own rate: 1_000_000 at 7% for one year
    let mut p = position(1_000_000, RateType::Stable, 0);
    p.stable_rate_bps = 700;
    let q = calculate_interest(&mut st, &p, YEAR, None);
    assert_eq!(q.result, Ok(70_000));
    // a last update in the future accrues nothing
    let q = calculate_interest(&mut st, &position(1_000_000, RateType::Variable, 100), 50, None);
    assert_eq!(q.result, Ok(0));
}

#[test]
fn interest_beyond_i128_is_an_overflow_error() {
    let mut st = settings();
    let p = position(i128::MAX, RateType::Variable, 0);
    assert!(!interest_would_trap(&st, &p, u64::MAX, None));
    let q = calculate_interest(&mut st, &p, u64::MAX, None);
    assert_eq!(q.result, Err(BorrowError::Overflow));
    // a negative principal gives negative interest, rounded toward zero
    let q = calculate_interest(&mut st, &position(-1_000_001, RateType::Variable, 0), YEAR / 2, None);
    assert_eq!(q.result, Ok(-25_000));
}

#[test]
fn products_outside_256_bits_are_detected() {
    let st = settings();
    let mut p = position(i128::MAX, RateType::Stable, 0);
    p.stable_rate_bps = i128::MAX;
    assert!(interest_would_trap(&st, &p, u64::MAX, None));
    assert!(!interest_would_trap(&st, &p, 1, None));
    // at the fixed variable rate the product stays within 256 bits
    assert!(!interest_would_trap(&st, &position(i128::MAX, RateType::Variable, 0), u64::MAX, None));
}

#[test]
fn stability_fee_applies_below_the_peg() {
    let mut st = settings();
    let config = StablecoinConfig {
        target_price: 100_000_000,
        peg_threshold_bps: 100,
        stability_fee_bps: 200,
        emergency_threshold_bps: 1000,
    };
    // price 2% below target: deviation 200 bps > 100 bps threshold
    let peg = Some(PegQuote { config, price: 98_000_000 });
    let q = calculate_interest(&mut st, &position(1_000_000, RateType::Variable, 0), YEAR, peg);
    assert_eq!(q.result, Ok(70_000));
    let ev = q.peg_event.unwrap();
    assert_eq!(ev.deviation_bps, 200);
    assert_eq!(ev.stability_fee_bps, 200);
    // within the threshold: no fee, no event
    let peg = Some(PegQuote { config, price: 99_500_000 });
    let q = calculate_interest(&mut st, &position(1_000_000, RateType::Variable, 0), YEAR, peg);
    assert_eq!(q.result, Ok(50_000));
    assert_eq!(q.peg_event, None);
}

#[test]
fn stable_rate_is_smoothed_average_plus_premium() {
    let mut st = settings();
    // no state yet: the average starts at the fixed variable rate (500) as of now
    assert_eq!(get_current_stable_rate_bps(&mut st, 1000), Ok(600));
    assert_eq!(st.stable_rate_state, None);
    st.stable_rate_state = Some(StableRateState { avg_rate_bps: 400, last_update: 0 });
    // interval (6h) not elapsed: unchanged
    assert_eq!(get_current_stable_rate_bps(&mut st, 100), Ok(500));
    // elapsed: (400 * 9 + 500) / 10 = 410, plus 100 premium
    assert_eq!(get_current_stable_rate_bps(&mut st, 21_600), Ok(510));
    assert_eq!(st.stable_rate_state, Some(StableRateState { avg_rate_bps: 410, last_update: 21_600 }));
    let state = update_stable_rate_state_if_needed(&mut st, 21_600);
    assert_eq!(state.avg_rate_bps, 410);
}

#[test]
fn collateral_ratio_is_150_percent() {
    assert_eq!(validate_collateral_ratio(1500, 1000), Ok(()));
    assert_eq!(validate_collateral_ratio(1499, 1000), Err(BorrowError::InsufficientCollateral));
    assert_eq!(validate_collateral_ratio(1, i128::MAX), Err(BorrowError::Overflow));
    // exact 150%: one unit of collateral never covers one unit of debt
    assert_eq!(validate_collateral_ratio(1, 1), Err(BorrowError::InsufficientCollateral));
    assert_eq!(validate_collateral_ratio(2, 1), Ok(()));
    assert_eq!(validate_collateral_ratio(2, 2), Err(BorrowError::InsufficientCollateral));
    assert_eq!(validate_collateral_ratio(3, 2), Ok(()));
    assert_eq!(validate_collateral_ratio(1500, 1001), Err(BorrowError::InsufficientCollateral));
    assert_eq!(validate_collateral_ratio(1502, 1001), Ok(()));
}

#[test]
fn borrow_records_debt_and_collateral() {
    let mut st = settings();
    let mut rec = record();
    let user = s("GUSER");
    let receipt = borrow(&mut st, &mut rec, &user, &s("CUSDC"), 10_000, &s("CXLM"), 15_000, false, 100, None).unwrap();
    assert_eq!(receipt.new_total_debt, 10_000);
    assert_eq!(receipt.debt_ceiling, i128::MAX);
    assert_eq!(st.total_debt, Some(10_000));
    let v = rec.variable_debt.as_ref().unwrap();
    assert_eq!(v.borrowed_amount, 10_000);
    assert_eq!(v.last_update, 100);
    assert_eq!(v.asset, "CUSDC");
    let c = get_user_collateral(&rec, &user);
    assert_eq!(c.amount, 15_000);
    assert_eq!(c.asset, "CXLM");
    // the legacy entry mirrors the variable position
    assert_eq!(rec.legacy_debt.as_ref().unwrap().borrowed_amount, 10_000);
}

#[test]
fn borrow_refusals_in_order() {
    let mut st = settings();
    let mut rec = record();
    let user = s("GUSER");
    let b = |st: &mut BorrowSettings, rec: &mut UserBorrowRecord, amount: i128, coll: i128, paused: bool| {
        borrow(st, rec, &user, &s("CUSDC"), amount, &s("CXLM"), coll, paused, 0, None)
    };
    assert_eq!(b(&mut st, &mut rec, 0, 0, true).err(), Some(BorrowError::ProtocolPaused));
    assert_eq!(b(&mut st, &mut rec, 0, 100, false).err(), Some(BorrowError::InvalidAmount));
    assert_eq!(b(&mut st, &mut rec, 100, 0, false).err(), Some(BorrowError::InvalidAmount));
    assert_eq!(b(&mut st, &mut rec, 999, 5000, false).err(), Some(BorrowError::BelowMinimumBorrow));
    assert_eq!(b(&mut st, &mut rec, 1000, 1499, false).err(), Some(BorrowError::InsufficientCollateral));
    st.debt_ceiling = Some(1500);
    assert!(b(&mut st, &mut rec, 1000, 1500, false).is_ok());
    assert_eq!(b(&mut st, &mut rec, 1000, 1500, false).err(), Some(BorrowError::DebtCeilingReached));
    // a refused borrow changes nothing
    assert_eq!(st.total_debt, Some(1000));
    assert_eq!(rec.variable_debt.as_ref().unwrap().borrowed_amount, 1000);
}

#[test]
fn repay_pays_interest_then_principal() {
    let mut st = settings();
    let mut rec = record();
    let user = s("GUSER");
    let usdc = s("CUSDC");
    borrow(&mut st, &mut rec, &user, &usdc, 1_000_000, &s("CXLM"), 1_500_000, false, 0, None).unwrap();
    // one year later 50_000 interest is due; pay 60_000
    repay(&mut st, &mut rec, &user, &usdc, 60_000, YEAR, None).unwrap();
    let v = rec.variable_debt.as_ref().unwrap();
    assert_eq!(v.interest_accrued, 0);
    assert_eq!(v.borrowed_amount, 990_000);
    assert_eq!(st.total_debt, Some(990_000));
    // pay less than the interest: principal untouched
    repay(&mut st, &mut rec, &user, &usdc, 10, 2 * YEAR, None).unwrap();
    let v = rec.variable_debt.as_ref().unwrap();
    assert_eq!(v.interest_accrued, 49_500 - 10);
    assert_eq!(v.borrowed_amount, 990_000);
    // more than owed
    assert_eq!(
        repay(&mut st, &mut rec, &user, &usdc, 2_000_000, 2 * YEAR, None),
        Err(BorrowError::RepayAmountTooHigh)
    );
    assert_eq!(repay(&mut st, &mut rec, &user, &usdc, 0, 2 * YEAR, None), Err(BorrowError::InvalidAmount));
    assert_eq!(
        repay(&mut st, &mut rec, &user, &s("COTHER"), 5, 2 * YEAR, None),
        Err(BorrowError::AssetNotSupported)
    );
}

#[test]
fn repay_without_debt_is_invalid() {
    let mut st = settings();
    let mut rec = record();
    assert_eq!(
        repay_with_rate(&mut st, &mut rec, &s("GUSER"), &s("CUSDC"), 5, RateType::Stable, 0, None),
        Err(BorrowError::InvalidAmount)
    );
}

#[test]
fn switch_moves_debt_and_charges_fee() {
    let mut st = settings();
    let mut rec = record();
    let user = s("GUSER");
    let usdc = s("CUSDC");
    borrow(&mut st, &mut rec, &user, &usdc, 1_000_000, &s("CXLM"), 1_500_000, false, 0, None).unwrap();
    switch_rate_type(&mut st, &mut rec, &user, &usdc, RateType::Stable, YEAR, None).unwrap();
    let stable = rec.stable_debt.as_ref().unwrap();
    assert_eq!(stable.borrowed_amount, 1_000_000);
    // 50_000 interest plus a 0.10% fee of 1_000
    assert_eq!(stable.interest_accrued, 51_000);
    assert_eq!(stable.rate_type, RateType::Stable);
    // the current stable rate: the variable rate plus the 1% premium
    assert_eq!(stable.stable_rate_bps, 600);
    let variable = rec.variable_debt.as_ref().unwrap();
    assert_eq!(variable.borrowed_amount, 0);
    assert_eq!(variable.interest_accrued, 0);
    // the legacy entry now mirrors the stable position
    assert_eq!(rec.legacy_debt.as_ref().unwrap().rate_type, RateType::Stable);
    // switching again to stable: nothing variable to move
    assert_eq!(
        switch_rate_type(&mut st, &mut rec, &user, &usdc, RateType::Stable, YEAR, None),
        Err(BorrowError::InvalidAmount)
    );
    // the plain view reports the stable position with its pending interest
    let (view, _) = get_user_debt(&mut st, &rec, &user, 2 * YEAR, None);
    assert_eq!(view.interest_accrued, 51_000 + 60_000);
    let (view, _) = get_user_debt_with_rate(&mut st, &rec, &user, RateType::Variable, 2 * YEAR, None);
    assert_eq!(view.borrowed_amount, 0);
}

#[test]
fn stable_borrow_takes_current_stable_rate() {
    let mut st = settings();
    let mut rec = record();
    let user = s("GUSER");
    borrow_with_rate(&mut st, &mut rec, &user, &s("CUSDC"), 2000, &s("CXLM"), 3000, RateType::Stable, false, 0, None).unwrap();
    // the fixed variable rate plus the 1% premium
    assert_eq!(rec.stable_debt.as_ref().unwrap().stable_rate_bps, 600);
    assert!(rec.variable_debt.is_none());
    assert_eq!(rec.legacy_debt.as_ref().unwrap().borrowed_amount, 2000);
}

#[test]
fn collateral_deposit_keeps_one_asset() {
    let mut rec = record();
    let user = s("GUSER");
    deposit(&mut rec, &user, &s("CXLM"), 500).unwrap();
    deposit(&mut rec, &user, &s("CXLM"), 250).unwrap();
    assert_eq!(get_user_collateral(&rec, &user).amount, 750);
    assert_eq!(deposit(&mut rec, &user, &s("CBTC"), 1), Err(BorrowError::AssetNotSupported));
    assert_eq!(deposit(&mut rec, &user, &s("CXLM"), 0), Err(BorrowError::InvalidAmount));
    assert_eq!(deposit(&mut rec, &user, &s("CXLM"), i128::MAX), Err(BorrowError::Overflow));
}

#[test]
fn legacy_entry_is_read_when_no_variable_entry() {
    let mut rec = record();
    rec.legacy_debt = Some(DebtPosition {
        borrowed_amount: 77,
        interest_accrued: 3,
        last_update: 5,
        asset: s("COLD"),
        rate_type: RateType::Stable,
        stable_rate_bps: 900,
    });
    let p = get_debt_position(&rec, &s("GUSER"), None, RateType::Variable, 10);
    assert_eq!(p.borrowed_amount, 77);
    assert_eq!(p.rate_type, RateType::Variable);
    assert_eq!(p.stable_rate_bps, 0);
    let q = get_debt_position(&rec, &s("GUSER"), None, RateType::Stable, 10);
    assert_eq!(q.borrowed_amount, 0);
    assert_eq!(q.asset, "GUSER");
    assert_eq!(q.last_update, 10);
}

#[test]
fn dust_sweep_and_tracking() {
    let mut st = settings();
    let mut rec = record();
    let user = s("GUSER");
    assert_eq!(sweep_dust(&mut st, &mut rec, &user, &s("CUSDC"), 0), Err(BorrowError::NoDustToSweep));
    track_dust(&mut rec, 5);
    assert_eq!(rec.dust, None);
    borrow(&mut st, &mut rec, &user, &s("CUSDC"), 1000, &s("CXLM"), 1500, false, 0, None).unwrap();
    rec.dust = Some(3);
    assert_eq!(sweep_dust(&mut st, &mut rec, &user, &s("CUSDC"), 0), Ok(3));
    assert_eq!(rec.variable_debt.as_ref().unwrap().borrowed_amount, 997);
    assert_eq!(st.total_debt, Some(997));
    assert_eq!(rec.dust, None);
}

#[test]
fn admin_parameters() {
    let mut st = settings();
    let admin = s("GADMIN");
    let other = s("GOTHER");
    assert_eq!(check_admin(&st, &other), Err(BorrowError::Unauthorized));
    assert_eq!(get_liquidation_threshold_bps(&st), 8000);
    assert_eq!(get_close_factor_bps(&st), 5000);
    assert_eq!(get_liquidation_incentive_bps(&st), 1000);
    assert_eq!(get_interest_index(&st), 1_000_000_000);
    assert_eq!(set_liquidation_threshold_bps(&mut st, &other, 7000), Err(BorrowError::Unauthorized));
    assert_eq!(set_liquidation_threshold_bps(&mut st, &admin, 0), Err(BorrowError::InvalidAmount));
    assert_eq!(set_liquidation_threshold_bps(&mut st, &admin, 7000), Ok(()));
    assert_eq!(get_liquidation_threshold_bps(&st), 7000);
    assert_eq!(set_close_factor_bps(&mut st, &admin, 10_001), Err(BorrowError::InvalidAmount));
    assert_eq!(set_close_factor_bps(&mut st, &admin, 4000), Ok(()));
    assert_eq!(get_close_factor_bps(&st), 4000);
    assert_eq!(set_liquidation_incentive_bps(&mut st, &admin, 0), Ok(()));
    assert_eq!(get_liquidation_incentive_bps(&st), 0);
    assert_eq!(set_variable_borrow_rate_bps(&st, &admin, 10_001), Err(BorrowError::InvalidAmount));
    assert_eq!(set_variable_borrow_rate_bps(&st, &admin, 750), Ok(750));
    assert_eq!(set_oracle(&mut st, &other, &s("CORACLE")), Err(BorrowError::Unauthorized));
    assert_eq!(set_oracle(&mut st, &admin, &s("CORACLE")), Ok(()));
    assert_eq!(get_oracle(&st), Some(s("CORACLE")));
    set_interest_index(&mut st, 42);
    assert_eq!(get_interest_index(&st), 42);
    let mut slot = None;
    let config = StablecoinConfig { target_price: 1, peg_threshold_bps: 2, stability_fee_bps: 3, emergency_threshold_bps: 4 };
    assert_eq!(set_stablecoin_config(&st, &other, &mut slot, config), Err(BorrowError::Unauthorized));
    assert_eq!(set_stablecoin_config(&st, &admin, &mut slot, config), Ok(()));
    assert_eq!(get_stablecoin_config(&slot), Some(config));
    set_admin(&mut st, &other);
    assert_eq!(get_admin(&st), Some(other));
    assert_eq!(BorrowError::InsufficientReserves.code(), 14);
}

#[test]
fn initialization_sets_defaults_where_missing() {
    let mut st = settings();
    st.rate_switch_fee_bps = Some(25);
    initialize_borrow_settings(&mut st, 1_000_000, 100).unwrap();
    assert_eq!(st.debt_ceiling, Some(1_000_000));
    assert_eq!(st.min_borrow_amount, Some(100));
    assert_eq!(st.stable_rate_premium_bps, Some(100));
    assert_eq!(st.stable_rate_recalc_interval_secs, Some(21_600));
    assert_eq!(st.rate_switch_fee_bps, Some(25));
}

#[test]
fn host_decisions() {
    let mut st = settings();
    assert_eq!(borrow_precheck(&st, 1000, 1500, false), Ok(1000));
    assert_eq!(borrow_precheck(&st, 1000, 1500, true), Err(BorrowError::ProtocolPaused));
    let p = position(1000, RateType::Variable, 0);
    assert_eq!(repay_precheck(&p, &s("CUSDC"), 5), Ok(()));
    assert_eq!(repay_precheck(&p, &s("CBTC"), 5), Err(BorrowError::AssetNotSupported));
    // the oracle is asked only with a configuration, an oracle and some principal
    assert!(!needs_oracle_price(&st, &p, 10, true));
    st.oracle = Some(s("CORACLE"));
    assert!(needs_oracle_price(&st, &p, 10, true));
    assert!(!needs_oracle_price(&st, &p, 10, false));
    assert!(!needs_oracle_price(&st, &position(0, RateType::Variable, 0), 10, true));
    let mut rec = record();
    let user = s("GUSER");
    assert_eq!(switch_precheck(&rec, &user, &s("CUSDC"), RateType::Stable, 0), Err(BorrowError::InvalidAmount));
    borrow(&mut st, &mut rec, &user, &s("CUSDC"), 1000, &s("CXLM"), 1500, false, 0, None).unwrap();
    assert_eq!(switch_precheck(&rec, &user, &s("CUSDC"), RateType::Stable, 0), Ok(()));
    assert_eq!(switch_precheck(&rec, &user, &s("CUSDC"), RateType::Variable, 0), Err(BorrowError::InvalidAmount));
    assert_eq!(repay_rate_type(&rec, &user, &s("CUSDC"), 0), RateType::Variable);
    assert!(!repay_would_trap(&st, &rec, &user, &s("CUSDC"), 10, RateType::Variable, 0, None));
}

#[test]
fn repay_right_after_borrow_restores_total() {
    let mut st = settings();
    st.total_debt = Some(5_000);
    let mut rec = record();
    let user = s("GUSER");
    let usdc = s("CUSDC");
    borrow(&mut st, &mut rec, &user, &usdc, 2_000, &s("CXLM"), 3_000, false, 77, None).unwrap();
    assert_eq!(st.total_debt, Some(7_000));
    repay_with_rate(&mut st, &mut rec, &user, &usdc, 2_000, RateType::Variable, 77, None).unwrap();
    assert_eq!(st.total_debt, Some(5_000));
    let v = rec.variable_debt.as_ref().unwrap();
    assert_eq!((v.borrowed_amount, v.interest_accrued), (0, 0));
}

#[test]
fn guarded_operations_refuse_while_their_lock_is_held() {
    let mut locks = LockTable::new();
    let mut st = settings();
    let mut rec = record();
    let user = s("GUSER");
    let usdc = s("CUSDC");
    // a borrow entered while the borrow lock is held changes nothing
    let held = ReentrancyGuard::new_with_key(&mut locks, ReentrancyKey::BorrowLock, false, None).unwrap();
    assert_eq!(
        borrow_guarded(&mut locks, None, &mut st, &mut rec, &user, &usdc, 1000, &s("CXLM"), 1500, RateType::Variable, false, 0, None).err(),
        Some(BorrowError::ReentrancyDetected)
    );
    assert_eq!(sweep_dust_guarded(&mut locks, None, &mut st, &mut rec, &user, &usdc, 0), Err(BorrowError::ReentrancyDetected));
    assert_eq!(
        switch_rate_type_guarded(&mut locks, None, &mut st, &mut rec, &user, &usdc, RateType::Stable, 0, None),
        Err(BorrowError::ReentrancyDetected)
    );
    assert_eq!(st.total_debt, None);
    assert!(rec.variable_debt.is_none() && rec.collateral.is_none());
    held.release(&mut locks);
    // with the lock free it borrows, and gives the lock back
    borrow_guarded(&mut locks, None, &mut st, &mut rec, &user, &usdc, 1000, &s("CXLM"), 1500, RateType::Variable, false, 0, None).unwrap();
    assert_eq!(st.total_debt, Some(1000));
    assert!(locks.held_names().is_empty());
    // the repay lock refuses a repayment; the collateral lock a collateral deposit
    let held = ReentrancyGuard::new_with_key(&mut locks, ReentrancyKey::RepayLock, false, None).unwrap();
    assert_eq!(repay_guarded(&mut locks, None, &mut st, &mut rec, &user, &usdc, 1000, RateType::Variable, 0, None), Err(BorrowError::ReentrancyDetected));
    assert_eq!(st.total_debt, Some(1000));
    held.release(&mut locks);
    assert_eq!(repay_guarded(&mut locks, None, &mut st, &mut rec, &user, &usdc, 1000, RateType::Variable, 0, None), Ok(()));
    assert_eq!(st.total_debt, Some(0));
    let held = ReentrancyGuard::new_with_key(&mut locks, ReentrancyKey::DepositCollateralLock, false, None).unwrap();
    assert_eq!(deposit_guarded(&mut locks, None, &mut rec, &user, &s("CXLM"), 5), Err(BorrowError::ReentrancyDetected));
    assert_eq!(get_user_collateral(&rec, &user).amount, 1500);
    held.release(&mut locks);
    assert_eq!(deposit_guarded(&mut locks, None, &mut rec, &user, &s("CXLM"), 5), Ok(()));
    assert_eq!(get_user_collateral(&rec, &user).amount, 1505);
    assert!(locks.held_names().is_empty());
}
