use stellar_lend::lending::deposit::{
    deposit_guarded, sweep_dust_guarded,
    deposit, get_user_collateral, initialize_deposit_settings, sweep_dust, track_dust, DepositError,
    DepositSettings, UserDepositRecord,
};
use stellar_lend::lending::reentrancy::{ReentrancyGuard, ReentrancyKey};
use stellar_lend::locks::LockTable;

fn s(x: &str) -> String {
    x.to_string()
}

fn empty() -> (DepositSettings, UserDepositRecord) {
    (
        DepositSettings { total_amount: None, cap_amount: None, min_amount: None },
        UserDepositRecord { collateral: None, dust: None },
    )
}

#[test]
fn deposit_credits_balance_and_total() {
    let (mut st, mut rec) = empty();
    assert_eq!(deposit(&mut st, &mut rec, &s("CXLM"), 100, false, 7), Ok(100));
    assert_eq!(deposit(&mut st, &mut rec, &s("CXLM"), 50, false, 9), Ok(150));
    assert_eq!(st.total_amount, Some(150));
    let c = get_user_collateral(&rec, &s("CXLM"), 10);
    assert_eq!(c.amount, 150);
    assert_eq!(c.last_deposit_time, 9);
}

#[test]
fn deposit_refusals() {
    let (mut st, mut rec) = empty();
    assert_eq!(deposit(&mut st, &mut rec, &s("CXLM"), 100, true, 0), Err(DepositError::DepositPaused));
    assert_eq!(deposit(&mut st, &mut rec, &s("CXLM"), 0, false, 0), Err(DepositError::InvalidAmount));
    initialize_deposit_settings(&mut st, 1000, 10).unwrap();
    assert_eq!(deposit(&mut st, &mut rec, &s("CXLM"), 9, false, 0), Err(DepositError::AmountBelowMinimum));
    assert_eq!(deposit(&mut st, &mut rec, &s("CXLM"), 1000, false, 0), Ok(1000));
    assert_eq!(deposit(&mut st, &mut rec, &s("CXLM"), 10, false, 0), Err(DepositError::ExceedsDepositCap));
    assert_eq!(st.total_amount, Some(1000));
    assert_eq!(DepositError::NoDustToSweep.code(), 9);
}

#[test]
fn empty_position_defaults() {
    let (_, rec) = empty();
    let c = get_user_collateral(&rec, &s("CXLM"), 42);
    assert_eq!(c.amount, 0);
    assert_eq!(c.asset, "CXLM");
    assert_eq!(c.last_deposit_time, 42);
}

#[test]
fn deposit_dust() {
    let (mut st, mut rec) = empty();
    assert_eq!(sweep_dust(&mut st, &mut rec, &s("CXLM"), 0), Err(DepositError::NoDustToSweep));
    track_dust(&mut rec, 1);
    assert_eq!(rec.dust, None);
    deposit(&mut st, &mut rec, &s("CXLM"), 100, false, 0).unwrap();
    rec.dust = Some(4);
    assert_eq!(sweep_dust(&mut st, &mut rec, &s("CXLM"), 0), Ok(4));
    assert_eq!(get_user_collateral(&rec, &s("CXLM"), 0).amount, 96);
    assert_eq!(st.total_amount, Some(96));
    assert_eq!(rec.dust, None);
}

#[test]
fn guarded_deposit_refuses_while_the_deposit_lock_is_held() {
    let (mut st, mut rec) = empty();
    let mut locks = LockTable::new();
    let held = ReentrancyGuard::new_with_key(&mut locks, ReentrancyKey::DepositLock, false, None).unwrap();
    assert_eq!(deposit_guarded(&mut locks, None, &mut st, &mut rec, &s("CXLM"), 100, false, 0), Err(DepositError::ReentrancyDetected));
    assert_eq!(sweep_dust_guarded(&mut locks, None, &mut st, &mut rec, &s("CXLM"), 0), Err(DepositError::ReentrancyDetected));
    assert_eq!(st.total_amount, None);
    assert!(rec.collateral.is_none());
    held.release(&mut locks);
    assert_eq!(deposit_guarded(&mut locks, None, &mut st, &mut rec, &s("CXLM"), 100, false, 0), Ok(100));
    assert_eq!(sweep_dust_guarded(&mut locks, None, &mut st, &mut rec, &s("CXLM"), 0), Err(DepositError::NoDustToSweep));
    assert!(locks.held_names().is_empty());
}
