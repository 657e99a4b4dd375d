use stellar_lend::hello_world::reentrancy as hello;
use stellar_lend::lending::reentrancy::{
    cross_symbol, is_valid_symbol, key_to_symbol, GuardState, ReentrancyError, ReentrancyGuard,
    ReentrancyKey,
};
use stellar_lend::locks::LockTable;

#[test]
fn test_guard_state_transitions() {
    assert_eq!(hello::GuardState::NotEntered, hello::GuardState::NotEntered);
    assert_eq!(hello::GuardState::Entered, hello::GuardState::Entered);
}

#[test]
fn reentrancy_test_guard_state_transitions() {
    assert_eq!(GuardState::NotEntered, GuardState::NotEntered);
    assert_eq!(GuardState::Entered, GuardState::Entered);
}

fn name(s: &str) -> String {
    s.to_string()
}

#[test]
fn second_entry_is_refused_until_release() {
    let mut locks = LockTable::new();
    let g = ReentrancyGuard::new_with_key(&mut locks, ReentrancyKey::BorrowLock, false, None).unwrap();
    assert!(locks.holds(&name("REENTRANCY_BORROW")));
    let again = ReentrancyGuard::new_with_key(&mut locks, ReentrancyKey::BorrowLock, false, None);
    assert_eq!(again.err().map(|e| e.code()), Some(1));
    g.release(&mut locks);
    assert!(!locks.holds(&name("REENTRANCY_BORROW")));
    let third = ReentrancyGuard::new_with_key(&mut locks, ReentrancyKey::BorrowLock, false, None);
    assert!(third.is_ok());
}

#[test]
fn different_keys_do_not_block_each_other() {
    let mut locks = LockTable::new();
    let a = ReentrancyGuard::new_with_key(&mut locks, ReentrancyKey::DepositLock, false, None).unwrap();
    let b = ReentrancyGuard::new_with_key(&mut locks, ReentrancyKey::DepositCollateralLock, false, None).unwrap();
    b.release(&mut locks);
    a.release(&mut locks);
    assert!(locks.held_names().is_empty());
}

#[test]
fn invoker_is_locked_out_of_other_operations() {
    let mut locks = LockTable::new();
    let caller = name("CATTACKER");
    let g = ReentrancyGuard::new_with_key(&mut locks, ReentrancyKey::DepositLock, false, Some(caller.clone())).unwrap();
    assert!(locks.holds(&name("REENTRANCY_CROSS_CATTACKER")));
    let other = ReentrancyGuard::new_with_key(&mut locks, ReentrancyKey::BorrowLock, false, Some(caller.clone()));
    assert!(matches!(other, Err(ReentrancyError::CrossContractReentrancy)));
    // the borrow lock was not taken by the refused entry
    assert!(!locks.holds(&name("REENTRANCY_BORROW")));
    g.release(&mut locks);
    assert!(locks.held_names().is_empty());
}

#[test]
fn cross_contract_guard() {
    let mut locks = LockTable::new();
    let caller = name("CABC");
    let g = ReentrancyGuard::new_cross_contract(&mut locks, &caller).unwrap();
    assert!(matches!(
        ReentrancyGuard::new_cross_contract(&mut locks, &caller),
        Err(ReentrancyError::CrossContractReentrancy)
    ));
    g.release(&mut locks);
    assert!(ReentrancyGuard::new_cross_contract(&mut locks, &caller).is_ok());
}

#[test]
fn read_only_guard_records_nesting() {
    let mut locks = LockTable::new();
    let outer = ReentrancyGuard::new_read_only(&mut locks).unwrap();
    assert!(!outer.is_read_only_reentrancy());
    let inner = ReentrancyGuard::new_read_only(&mut locks).unwrap();
    assert!(inner.is_read_only_reentrancy());
    inner.release(&mut locks);
    outer.release(&mut locks);
    assert!(locks.held_names().is_empty());
}

#[test]
fn constructor_and_delegate_call_guards() {
    let mut locks = LockTable::new();
    let c = ReentrancyGuard::new_constructor(&mut locks).unwrap();
    assert!(matches!(ReentrancyGuard::new_constructor(&mut locks), Err(ReentrancyError::ConstructorReentrancy)));
    let d = ReentrancyGuard::new_delegate_call(&mut locks).unwrap();
    assert!(matches!(ReentrancyGuard::new_delegate_call(&mut locks), Err(ReentrancyError::DelegateCallReentrancy)));
    assert_eq!(ReentrancyError::DelegateCallReentrancy.code(), 4);
    c.release(&mut locks);
    d.release(&mut locks);
    assert!(locks.held_names().is_empty());
}

#[test]
fn global_guard_and_lock_names() {
    let mut locks = LockTable::new();
    let g = ReentrancyGuard::new(&mut locks, None).unwrap();
    assert!(matches!(ReentrancyGuard::new(&mut locks, None), Err(ReentrancyError::ReentrancyDetected)));
    g.release(&mut locks);
    assert_eq!(key_to_symbol(&ReentrancyKey::FlashLoanLock), "REENTRANCY_FLASH_LOAN");
    assert_eq!(key_to_symbol(&ReentrancyKey::DepositCollateralLock), "REENTRANCY_DEPOSIT_COLLATERAL");
    assert_eq!(key_to_symbol(&ReentrancyKey::CrossContractLock(name("GXYZ"))), "REENTRANCY_CROSS_GXYZ");
}

#[test]
fn hello_guards_refuse_with_code_seven() {
    let mut locks = LockTable::new();
    let g = hello::ReentrancyGuard::new(&mut locks).unwrap();
    assert_eq!(hello::ReentrancyGuard::new(&mut locks).err(), Some(7));
    let c = hello::ReentrancyGuard::new_cross_contract(&mut locks, &name("CCALLER")).unwrap();
    assert_eq!(hello::ReentrancyGuard::new_cross_contract(&mut locks, &name("CCALLER")).err(), Some(7));
    assert!(hello::ReentrancyGuard::new_cross_contract(&mut locks, &name("COTHER")).is_ok());
    let r1 = hello::ReentrancyGuard::new_read_only(&mut locks).unwrap();
    let r2 = hello::ReentrancyGuard::new_read_only(&mut locks).unwrap();
    assert!(!r1.is_read_only_reentrancy());
    assert!(r2.is_read_only_reentrancy());
    g.release(&mut locks);
    c.release(&mut locks);
    assert!(hello::ReentrancyGuard::new(&mut locks).is_ok());
    assert_eq!(hello::ReentrancyGuard::new_constructor(&mut locks).err(), None);
    assert_eq!(hello::ReentrancyGuard::new_constructor(&mut locks).err(), Some(7));
    assert!(hello::ReentrancyGuard::new_delegate_call(&mut locks).is_ok());
    assert_eq!(hello::ReentrancyGuard::new_delegate_call(&mut locks).err(), Some(7));
}

#[test]
fn storage_symbol_names() {
    assert!(is_valid_symbol(&name("REENTRANCY_DEPOSIT_COLLATERAL")));
    assert!(is_valid_symbol(&name("abc_XYZ_019")));
    assert!(!is_valid_symbol(&name("has-dash")));
    assert!(!is_valid_symbol(&name("A23456789012345678901234567890123")));
    // the lock of an invoking contract is named after its 56-character strkey, which no
    // storage symbol can hold
    let strkey = name("CA3D5KRYM6CB7OWQ6TWYRR3Z4T7GNZLKERYNZGGA5SOAOPIFY6YQGAXE");
    assert_eq!(strkey.len(), 56);
    assert!(!is_valid_symbol(&cross_symbol(&strkey)));
    assert!(is_valid_symbol(&cross_symbol(&name("CSHORT"))));
}

#[test]
fn lock_table_holds_each_name_once() {
    let mut locks = LockTable::new();
    locks.insert(name("REENTRANCY_READ_ONLY"));
    locks.insert(name("REENTRANCY_GLOBAL"));
    locks.insert(name("REENTRANCY_READ_ONLY"));
    let mut names = locks.held_names();
    names.sort();
    assert_eq!(names, vec![name("REENTRANCY_GLOBAL"), name("REENTRANCY_READ_ONLY")]);
    locks.remove(&name("REENTRANCY_READ_ONLY"));
    assert_eq!(locks.held_names(), vec![name("REENTRANCY_GLOBAL")]);
    assert!(!locks.holds(&name("REENTRANCY_READ_ONLY")));
}

#[test]
fn invoking_contract_with_a_full_address_is_locked() {
    let mut locks = LockTable::new();
    let strkey = name("CA3D5KRYM6CB7OWQ6TWYRR3Z4T7GNZLKERYNZGGA5SOAOPIFY6YQGAXE");
    let c = ReentrancyGuard::new_cross_contract(&mut locks, &strkey).unwrap();
    assert!(locks.holds(&cross_symbol(&strkey)));
    assert!(matches!(
        ReentrancyGuard::new_cross_contract(&mut locks, &strkey),
        Err(ReentrancyError::CrossContractReentrancy)
    ));
    assert!(matches!(
        ReentrancyGuard::new_with_key(&mut locks, ReentrancyKey::RepayLock, false, Some(strkey.clone())),
        Err(ReentrancyError::CrossContractReentrancy)
    ));
    c.release(&mut locks);
    let g = ReentrancyGuard::new_with_key(&mut locks, ReentrancyKey::RepayLock, false, Some(strkey.clone())).unwrap();
    assert!(!g.is_read_only_reentrancy());
    g.release(&mut locks);
    assert!(locks.held_names().is_empty());
}

#[test]
fn only_nested_read_only_guards_are_read_only_reentrancy() {
    let mut locks = LockTable::new();
    let w = ReentrancyGuard::new_with_key(&mut locks, ReentrancyKey::WithdrawLock, true, None).unwrap();
    assert!(!w.is_read_only_reentrancy());
    let r1 = ReentrancyGuard::new_read_only(&mut locks).unwrap();
    let r2 = ReentrancyGuard::new_read_only(&mut locks).unwrap();
    assert!(!r1.is_read_only_reentrancy());
    assert!(r2.is_read_only_reentrancy());
    assert!(!ReentrancyGuard::new_constructor(&mut locks).unwrap().is_read_only_reentrancy());
    assert!(!ReentrancyGuard::new_delegate_call(&mut locks).unwrap().is_read_only_reentrancy());
    w.release(&mut locks);
}
