//! Reentrancy guards of the hello-world contract.
//!
//! A guard takes the lock of its key (an entry of the contract's temporary storage, held
//! in a [`LockTable`]) and gives it back when released. Entering a guard whose lock is
//! held is refused with error code 7; the read-only guard is never refused and records
//! whether a read-only section was already open.
use vstd::prelude::*;
use crate::locks::LockTable;

verus! {

/// The error code of a refused guard.
pub const REENTRANCY_ERROR: u32 = 7;

/// Reentrancy guard state tracking.
#[derive(Clone, Copy, Debug, PartialEq, Eq, Structural)]
pub enum GuardState {
    NotEntered,
    Entered,
}

/// Lock keys of the reentrancy guards.
#[derive(Debug)]
pub enum ReentrancyKey {
    /// Global reentrancy lock
    GlobalLock,
    /// Function-specific locks
    DepositLock,
    WithdrawLock,
    BorrowLock,
    RepayLock,
    LiquidateLock,
    FlashLoanLock,
    /// Cross-contract reentrancy tracking, per invoking contract
    CrossContractLock(String),
    /// Read-only reentrancy detection
    ReadOnlyLock,
    /// Constructor reentrancy protection
    ConstructorLock,
    /// Delegate call reentrancy protection
    DelegateCallLock,
}

/// The identity of a key's lock: the variant's name, followed by the address for a
/// cross-contract lock.
pub open spec fn key_id(key: ReentrancyKey) -> Seq<char> {
    match key {
        ReentrancyKey::GlobalLock => "GlobalLock"@,
        ReentrancyKey::DepositLock => "DepositLock"@,
        ReentrancyKey::WithdrawLock => "WithdrawLock"@,
        ReentrancyKey::BorrowLock => "BorrowLock"@,
        ReentrancyKey::RepayLock => "RepayLock"@,
        ReentrancyKey::LiquidateLock => "LiquidateLock"@,
        ReentrancyKey::FlashLoanLock => "FlashLoanLock"@,
        ReentrancyKey::CrossContractLock(addr) => "CrossContractLock"@ + addr@,
        ReentrancyKey::ReadOnlyLock => "ReadOnlyLock"@,
        ReentrancyKey::ConstructorLock => "ConstructorLock"@,
        ReentrancyKey::DelegateCallLock => "DelegateCallLock"@,
    }
}

/// The identity of a key's lock.
pub fn key_identity(key: &ReentrancyKey) -> (s: String)
    ensures
        s@ == key_id(*key),
{
    match key {
        ReentrancyKey::GlobalLock => String::from_str("GlobalLock"),
        ReentrancyKey::DepositLock => String::from_str("DepositLock"),
        ReentrancyKey::WithdrawLock => String::from_str("WithdrawLock"),
        ReentrancyKey::BorrowLock => String::from_str("BorrowLock"),
        ReentrancyKey::RepayLock => String::from_str("RepayLock"),
        ReentrancyKey::LiquidateLock => String::from_str("LiquidateLock"),
        ReentrancyKey::FlashLoanLock => String::from_str("FlashLoanLock"),
        ReentrancyKey::CrossContractLock(addr) => {
            let mut s = String::from_str("CrossContractLock");
            s.append(addr.as_str());
            s
        },
        ReentrancyKey::ReadOnlyLock => String::from_str("ReadOnlyLock"),
        ReentrancyKey::ConstructorLock => String::from_str("ConstructorLock"),
        ReentrancyKey::DelegateCallLock => String::from_str("DelegateCallLock"),
    }
}

/// A held reentrancy guard. Release it with [`ReentrancyGuard::release`] when the
/// protected operation ends.
#[derive(Debug)]
pub struct ReentrancyGuard {
    key: ReentrancyKey,
    state_before: GuardState,
    is_read_only: bool,
}

impl ReentrancyGuard {
    /// The key whose lock this guard holds.
    pub closed spec fn guarded_key(&self) -> ReentrancyKey {
        self.key
    }

    /// Whether the lock was already held when this guard was taken.
    pub closed spec fn entry_state(&self) -> GuardState {
        self.state_before
    }

    /// Whether this is a read-only guard.
    pub closed spec fn read_only(&self) -> bool {
        self.is_read_only
    }

    /// Take the global lock.
    pub fn new(locks: &mut LockTable) -> (r: Result<ReentrancyGuard, u32>)
        ensures
            old(locks).names().contains(key_id(ReentrancyKey::GlobalLock)) ==> r == Err::<ReentrancyGuard, u32>(REENTRANCY_ERROR)
                && final(locks).names() == old(locks).names(),
            !old(locks).names().contains(key_id(ReentrancyKey::GlobalLock)) ==> r is Ok
                && final(locks).names() == old(locks).names().insert(key_id(ReentrancyKey::GlobalLock))
                && r->Ok_0.guarded_key() == ReentrancyKey::GlobalLock
                && r->Ok_0.entry_state() == GuardState::NotEntered && !r->Ok_0.read_only(),
    {
        Self::new_with_key(locks, ReentrancyKey::GlobalLock, false)
    }

    /// Take the lock of `key`; refused with code 7 when it is held.
    pub fn new_with_key(locks: &mut LockTable, key: ReentrancyKey, is_read_only: bool) -> (r: Result<ReentrancyGuard, u32>)
        ensures
            old(locks).names().contains(key_id(key)) ==> r == Err::<ReentrancyGuard, u32>(REENTRANCY_ERROR)
                && final(locks).names() == old(locks).names(),
            !old(locks).names().contains(key_id(key)) ==> r is Ok
                && final(locks).names() == old(locks).names().insert(key_id(key))
                && r->Ok_0.guarded_key() == key
                && r->Ok_0.entry_state() == GuardState::NotEntered && r->Ok_0.read_only() == is_read_only,
    {
        let id = key_identity(&key);
        if locks.holds(&id) {
            return Err(REENTRANCY_ERROR);
        }
        locks.insert(id);
        Ok(ReentrancyGuard { key, state_before: GuardState::NotEntered, is_read_only })
    }

    /// Take the lock of the invoking contract `caller`; refused with code 7 when it is held.
    pub fn new_cross_contract(locks: &mut LockTable, caller: &String) -> (r: Result<ReentrancyGuard, u32>)
        ensures
            old(locks).names().contains(key_id(ReentrancyKey::CrossContractLock(*caller))) ==> r == Err::<ReentrancyGuard, u32>(REENTRANCY_ERROR)
                && final(locks).names() == old(locks).names(),
            !old(locks).names().contains(key_id(ReentrancyKey::CrossContractLock(*caller))) ==> r is Ok
                && final(locks).names() == old(locks).names().insert(key_id(ReentrancyKey::CrossContractLock(*caller)))
                && r->Ok_0.guarded_key() == ReentrancyKey::CrossContractLock(*caller)
                && r->Ok_0.entry_state() == GuardState::NotEntered && !r->Ok_0.read_only(),
    {
        Self::new_with_key(locks, ReentrancyKey::CrossContractLock(caller.clone()), false)
    }

    /// Take the read-only lock. Never refused; the guard records whether a read-only
    /// section was already open.
    pub fn new_read_only(locks: &mut LockTable) -> (r: Result<ReentrancyGuard, u32>)
        ensures
            r is Ok,
            final(locks).names() == old(locks).names().insert(key_id(ReentrancyKey::ReadOnlyLock)),
            r->Ok_0.guarded_key() == ReentrancyKey::ReadOnlyLock,
            r->Ok_0.read_only(),
            r->Ok_0.entry_state() == if old(locks).names().contains(key_id(ReentrancyKey::ReadOnlyLock)) {
                GuardState::Entered
            } else {
                GuardState::NotEntered
            },
    {
        let key = ReentrancyKey::ReadOnlyLock;
        let id = key_identity(&key);
        let state_before = if locks.holds(&id) { GuardState::Entered } else { GuardState::NotEntered };
        locks.insert(id);
        Ok(ReentrancyGuard { key, state_before, is_read_only: true })
    }

    /// Take the constructor lock; refused with code 7 when it is held.
    pub fn new_constructor(locks: &mut LockTable) -> (r: Result<ReentrancyGuard, u32>)
        ensures
            old(locks).names().contains(key_id(ReentrancyKey::ConstructorLock)) ==> r == Err::<ReentrancyGuard, u32>(REENTRANCY_ERROR)
                && final(locks).names() == old(locks).names(),
            !old(locks).names().contains(key_id(ReentrancyKey::ConstructorLock)) ==> r is Ok
                && final(locks).names() == old(locks).names().insert(key_id(ReentrancyKey::ConstructorLock))
                && r->Ok_0.guarded_key() == ReentrancyKey::ConstructorLock
                && r->Ok_0.entry_state() == GuardState::NotEntered && !r->Ok_0.read_only(),
    {
        Self::new_with_key(locks, ReentrancyKey::ConstructorLock, false)
    }

    /// Take the delegate-call lock; refused with code 7 when it is held.
    pub fn new_delegate_call(locks: &mut LockTable) -> (r: Result<ReentrancyGuard, u32>)
        ensures
            old(locks).names().contains(key_id(ReentrancyKey::DelegateCallLock)) ==> r == Err::<ReentrancyGuard, u32>(REENTRANCY_ERROR)
                && final(locks).names() == old(locks).names(),
            !old(locks).names().contains(key_id(ReentrancyKey::DelegateCallLock)) ==> r is Ok
                && final(locks).names() == old(locks).names().insert(key_id(ReentrancyKey::DelegateCallLock))
                && r->Ok_0.guarded_key() == ReentrancyKey::DelegateCallLock
                && r->Ok_0.entry_state() == GuardState::NotEntered && !r->Ok_0.read_only(),
    {
        Self::new_with_key(locks, ReentrancyKey::DelegateCallLock, false)
    }

    /// Whether this guard is a read-only guard taken inside another read-only section.
    pub fn is_read_only_reentrancy(&self) -> (b: bool)
        ensures
            b == (self.read_only() && self.entry_state() == GuardState::Entered),
    {
        self.is_read_only && self.state_before == GuardState::Entered
    }

    /// Release the guard's lock.
    pub fn release(self, locks: &mut LockTable)
        ensures
            final(locks).names() == old(locks).names().remove(key_id(self.guarded_key())),
    {
        let id = key_identity(&self.key);
        locks.remove(&id);
    }
}

/// The locks held after taking the lock of `key`, or the refusal (code 7) when it is held.
pub open spec fn spec_take(held: Set<Seq<char>>, key: ReentrancyKey) -> Result<Set<Seq<char>>, u32> {
    if held.contains(key_id(key)) { Err(REENTRANCY_ERROR) } else { Ok(held.insert(key_id(key))) }
}

/// A guard cannot be entered twice: once the lock of `key` is taken, taking it again is
/// refused with code 7.
pub proof fn lemma_reentry_refused(held: Set<Seq<char>>, key: ReentrancyKey)
    requires
        spec_take(held, key) is Ok,
    ensures
        spec_take(spec_take(held, key)->Ok_0, key) == Err::<Set<Seq<char>>, u32>(REENTRANCY_ERROR),
{
}

/// Releasing a guard right after taking it gives back exactly the locks held before.
pub proof fn lemma_release_restores(held: Set<Seq<char>>, key: ReentrancyKey)
    requires
        spec_take(held, key) is Ok,
    ensures
        spec_take(held, key)->Ok_0.remove(key_id(key)) == held,
{
    assert(held.insert(key_id(key)).remove(key_id(key)) =~= held);
}

} // verus!
