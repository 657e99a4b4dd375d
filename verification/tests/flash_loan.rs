use stellar_lend::lending::flash_loan::{
    calculate_fee, check_liquidity_cap, check_price_impact, check_twap_deviation,
    default_manipulation_config, flash_loan_open, flash_loan_prepare, flash_loan_settle,
    get_flash_loan_fee_bps, get_manipulation_config, get_twap, record_price_sample,
    set_flash_loan_fee_bps, set_manipulation_config, AssetFlashState, FlashLoanError,
    FlashLoanSettings, ManipulationConfig, TwapAccumulator, flash_loan_guarded,
};
use stellar_lend::lending::reentrancy::{ReentrancyGuard, ReentrancyKey};
use stellar_lend::locks::LockTable;

fn settings() -> FlashLoanSettings {
    FlashLoanSettings { fee_bps: None, manipulation_config: None, legacy_guard: None }
}

fn asset() -> AssetFlashState {
    AssetFlashState { twap: None, loan_active: None }
}

#[test]
fn fees() {
    let mut st = settings();
    assert_eq!(get_flash_loan_fee_bps(&st), 9);
    assert_eq!(calculate_fee(&st, 1_000_000), 900);
    assert_eq!(calculate_fee(&st, 1_111), 0);
    assert_eq!(set_flash_loan_fee_bps(&mut st, 1001), Err(FlashLoanError::InvalidFee));
    assert_eq!(set_flash_loan_fee_bps(&mut st, -1), Err(FlashLoanError::InvalidFee));
    assert_eq!(set_flash_loan_fee_bps(&mut st, 1000), Ok(()));
    assert_eq!(calculate_fee(&st, 12_345), 1_234);
    // the product saturates
    assert_eq!(calculate_fee(&st, i128::MAX), i128::MAX / 10000);
}

#[test]
fn config_validation() {
    let mut st = settings();
    assert_eq!(get_manipulation_config(&st), default_manipulation_config());
    let mut c = default_manipulation_config();
    c.max_borrow_liquidity_bps = 10_001;
    assert_eq!(set_manipulation_config(&mut st, c), Err(FlashLoanError::InvalidFee));
    c.max_borrow_liquidity_bps = 10_000;
    c.twap_window_secs = 0;
    assert_eq!(set_manipulation_config(&mut st, c), Err(FlashLoanError::InvalidFee));
    c.twap_window_secs = 60;
    assert_eq!(set_manipulation_config(&mut st, c), Ok(()));
    assert_eq!(get_manipulation_config(&st).twap_window_secs, 60);
}

#[test]
fn twap_accumulates_within_window() {
    let st = settings();
    let mut a = asset();
    record_price_sample(&st, &mut a, 0, 10);
    assert_eq!(a.twap, None);
    record_price_sample(&st, &mut a, 100, 10);
    record_price_sample(&st, &mut a, 200, 20);
    assert_eq!(get_twap(&st, &a), None);
    record_price_sample(&st, &mut a, 301, 30);
    assert_eq!(
        get_twap(&st, &a),
        Some(TwapAccumulator { price_sum: 601, sample_count: 3, last_update: 30, twap: 200 })
    );
    // after the window the accumulator restarts
    record_price_sample(&st, &mut a, 500, 400);
    assert_eq!(a.twap, Some(TwapAccumulator { price_sum: 500, sample_count: 1, last_update: 400, twap: 500 }));
}

#[test]
fn twap_deviation_check() {
    let st = settings();
    let mut a = asset();
    for t in 0..3u64 {
        record_price_sample(&st, &mut a, 1000, t);
    }
    assert_eq!(check_twap_deviation(&st, &a, 1020), Ok(()));
    assert_eq!(check_twap_deviation(&st, &a, 1021), Err(FlashLoanError::PriceManipulationDetected));
    assert_eq!(check_twap_deviation(&st, &a, 979), Err(FlashLoanError::PriceManipulationDetected));
    assert_eq!(check_twap_deviation(&st, &a, 0), Ok(()));
    assert_eq!(check_twap_deviation(&st, &asset(), 5), Ok(()));
}

#[test]
fn pool_checks() {
    let st = settings();
    assert_eq!(check_liquidity_cap(&st, 1000, 500), Ok(()));
    assert_eq!(check_liquidity_cap(&st, 1000, 501), Err(FlashLoanError::ExceedsLiquidityCap));
    assert_eq!(check_liquidity_cap(&st, i128::MAX, 1), Err(FlashLoanError::Overflow));
    assert_eq!(check_price_impact(&st, 0, 1), Err(FlashLoanError::ExcessivePriceImpact));
    // 1 / (99 + 1) = 100 bps: allowed; 2 / 101 = 198 bps: refused
    assert_eq!(check_price_impact(&st, 99, 1), Ok(()));
    assert_eq!(check_price_impact(&st, 99, 2), Err(FlashLoanError::ExcessivePriceImpact));
    assert_eq!(check_price_impact(&st, 5, -5), Err(FlashLoanError::Overflow));
}

#[test]
fn a_loan_runs_open_prepare_settle() {
    let mut st = settings();
    let mut a = asset();
    assert_eq!(flash_loan_open(&st, &a, true, 10, 0), Err(FlashLoanError::FlashLoanPaused));
    assert_eq!(flash_loan_open(&st, &a, false, 0, 0), Err(FlashLoanError::InvalidAmount));
    assert_eq!(flash_loan_open(&st, &a, false, 10, 0), Ok(()));
    // the pool is the contract's balance: a 1% loan of 1_000_000 has an impact of 99 bps
    let t = flash_loan_prepare(&mut st, &mut a, 1_000_000, 10_000, 5, 100).unwrap();
    assert_eq!(t.fee, 9);
    assert_eq!(t.initial_balance, 1_000_000);
    assert_eq!(a.loan_active, Some(true));
    assert_eq!(st.legacy_guard, Some(true));
    assert_eq!(a.twap.unwrap().price_sum, 5);
    // no second loan of the asset while one is in flight
    assert_eq!(flash_loan_prepare(&mut st, &mut a, 1_000_000, 10, 5, 100), Err(FlashLoanError::ConcurrentLoan));
    let mut b = asset();
    assert_eq!(flash_loan_prepare(&mut st, &mut b, 1_000_000, 10, 5, 100), Err(FlashLoanError::Reentrancy));
    // the other asset's guard, taken before the global guard refused, was given back
    assert_eq!(b.loan_active, Some(false));
    assert_eq!(b.twap, None);
    // a failed settlement still frees both guards, so the asset can be lent again
    assert_eq!(flash_loan_settle(&mut st, &mut a, t, false, 2_000_000), Err(FlashLoanError::CallbackFailed));
    assert_eq!(a.loan_active, Some(false));
    assert_eq!(st.legacy_guard, Some(false));
    let t = flash_loan_prepare(&mut st, &mut a, 1_000_000, 10_000, 5, 100).unwrap();
    assert_eq!(flash_loan_settle(&mut st, &mut a, t, true, 1_000_008), Err(FlashLoanError::InsufficientRepayment));
    assert_eq!(a.loan_active, Some(false));
    assert_eq!(st.legacy_guard, Some(false));
    let t = flash_loan_prepare(&mut st, &mut a, 1_000_000, 10_000, 5, 100).unwrap();
    assert_eq!(flash_loan_settle(&mut st, &mut a, t, true, 1_000_009), Ok(()));
    assert_eq!(a.loan_active, Some(false));
    assert_eq!(st.legacy_guard, Some(false));
    assert!(flash_loan_prepare(&mut st, &mut a, 1_000_000, 10, 5, 100).is_ok());
    assert_eq!(FlashLoanError::Overflow.code(), 12);
}

#[test]
fn prepare_refusals_leave_state_unchanged() {
    let mut st = settings();
    let mut a = asset();
    let cfg = ManipulationConfig { max_borrow_liquidity_bps: 5000, max_price_impact_bps: 100, max_twap_deviation_bps: 200, min_twap_samples: 3, twap_window_secs: 300 };
    assert_eq!(get_manipulation_config(&st), cfg);
    assert_eq!(flash_loan_prepare(&mut st, &mut a, 1000, 600, 5, 0), Err(FlashLoanError::ExceedsLiquidityCap));
    assert_eq!(flash_loan_prepare(&mut st, &mut a, 1000, 100, 5, 0), Err(FlashLoanError::ExcessivePriceImpact));
    assert_eq!(a.loan_active, None);
    assert_eq!(a.twap, None);
    assert_eq!(st.legacy_guard, None);
}

#[test]
fn guarded_loan_refuses_inside_a_loan_and_always_frees_its_guards() {
    let mut st = settings();
    let mut a = asset();
    let mut locks = LockTable::new();
    // a loan asked for from inside a loan (the flash-loan lock held) changes nothing
    let held = ReentrancyGuard::new_with_key(&mut locks, ReentrancyKey::FlashLoanLock, false, None).unwrap();
    assert_eq!(
        flash_loan_guarded(&mut locks, None, &mut st, &mut a, false, 10_000, 5, 1_000_000, 100, true, 1_000_009),
        Err(FlashLoanError::Reentrancy)
    );
    assert_eq!((st.legacy_guard, a.loan_active, a.twap), (None, None, None));
    held.release(&mut locks);
    // a loan whose receiver does not pay back fails, and frees both guards
    assert_eq!(
        flash_loan_guarded(&mut locks, None, &mut st, &mut a, false, 10_000, 5, 1_000_000, 100, true, 1_000_008),
        Err(FlashLoanError::InsufficientRepayment)
    );
    assert_eq!((st.legacy_guard, a.loan_active), (Some(false), Some(false)));
    // so the next loan of the asset goes through
    assert_eq!(
        flash_loan_guarded(&mut locks, None, &mut st, &mut a, false, 10_000, 5, 1_000_000, 100, true, 1_000_009),
        Ok(())
    );
    assert_eq!((st.legacy_guard, a.loan_active), (Some(false), Some(false)));
    assert!(locks.held_names().is_empty());
}
