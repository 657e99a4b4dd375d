//! Reentrancy guards of the lending protocol.
//!
//! A guard takes a lock (an entry of the contract's temporary storage, held in a
//! [`LockTable`]) when a protected operation starts and gives it back when the operation
//! ends. Entering an operation whose lock is held is refused. Guards of ordinary
//! operations also lock the invoking contract, so that a contract that is already inside
//! the protocol cannot enter it again through another operation. The read-only guard is
//! never refused; it records whether a read-only section was already open.
//!
//! Locks are identified by name. The fixed names are valid storage symbols; the name of
//! an invoking contract's lock holds the contract's full address, longer than a symbol
//! may be, so such a lock is kept under its name as text rather than as a symbol.
use vstd::prelude::*;
use crate::locks::LockTable;

verus! {

/// Reentrancy error.
#[derive(Clone, Copy, Debug, PartialEq, Eq, Structural, PartialOrd, Ord)]
pub enum ReentrancyError {
    ReentrancyDetected,
    CrossContractReentrancy,
    ConstructorReentrancy,
    DelegateCallReentrancy,
}

impl ReentrancyError {
    /// The error's number in the contract interface.
    pub open spec fn error_code(self) -> u32 {
        match self {
            ReentrancyError::ReentrancyDetected => 1,
            ReentrancyError::CrossContractReentrancy => 2,
            ReentrancyError::ConstructorReentrancy => 3,
            ReentrancyError::DelegateCallReentrancy => 4,
        }
    }

    /// The error's number in the contract interface (1 to 4).
    pub fn code(&self) -> (r: u32)
        ensures
            r == self.error_code(),
            1 <= r <= 4,
    {
        match self {
            ReentrancyError::ReentrancyDetected => 1,
            ReentrancyError::CrossContractReentrancy => 2,
            ReentrancyError::ConstructorReentrancy => 3,
            ReentrancyError::DelegateCallReentrancy => 4,
        }
    }
}

/// Reentrancy guard state tracking.
#[derive(Clone, Copy, Debug, PartialEq, Eq, Structural)]
pub enum GuardState {
    NotEntered,
    Entered,
}

/// Lock keys of the reentrancy guards.
#[derive(Debug)]
pub enum ReentrancyKey {
    /// Global reentrancy lock
    GlobalLock,
    /// Function-specific locks
    DepositLock,
    WithdrawLock,
    BorrowLock,
    RepayLock,
    LiquidateLock,
    FlashLoanLock,
    DepositCollateralLock,
    /// Cross-contract reentrancy tracking, per invoking contract
    CrossContractLock(String),
    /// Read-only reentrancy detection
    ReadOnlyLock,
    /// Constructor reentrancy protection
    ConstructorLock,
    /// Delegate call reentrancy protection
    DelegateCallLock,
}

/// The name under which a lock is stored.
pub open spec fn lock_name(key: ReentrancyKey) -> Seq<char> {
    match key {
        ReentrancyKey::GlobalLock => "REENTRANCY_GLOBAL"@,
        ReentrancyKey::DepositLock => "REENTRANCY_DEPOSIT"@,
        ReentrancyKey::WithdrawLock => "REENTRANCY_WITHDRAW"@,
        ReentrancyKey::BorrowLock => "REENTRANCY_BORROW"@,
        ReentrancyKey::RepayLock => "REENTRANCY_REPAY"@,
        ReentrancyKey::LiquidateLock => "REENTRANCY_LIQUIDATE"@,
        ReentrancyKey::FlashLoanLock => "REENTRANCY_FLASH_LOAN"@,
        ReentrancyKey::DepositCollateralLock => "REENTRANCY_DEPOSIT_COLLATERAL"@,
        ReentrancyKey::CrossContractLock(addr) => "REENTRANCY_CROSS_"@ + addr@,
        ReentrancyKey::ReadOnlyLock => "REENTRANCY_READ_ONLY"@,
        ReentrancyKey::ConstructorLock => "REENTRANCY_CONSTRUCTOR"@,
        ReentrancyKey::DelegateCallLock => "REENTRANCY_DELEGATE_CALL"@,
    }
}

/// The name of the lock of an invoking contract.
pub open spec fn cross_lock_name(caller: String) -> Seq<char> {
    "REENTRANCY_CROSS_"@ + caller@
}

/// A character a storage symbol may hold: `a-z`, `A-Z`, `0-9` or `_`.
pub open spec fn is_symbol_char(c: char) -> bool {
    ('a' <= c && c <= 'z') || ('A' <= c && c <= 'Z') || ('0' <= c && c <= '9') || c == '_'
}

/// Whether `s` can name a storage symbol: at most 32 characters, each of `a-zA-Z0-9_`
/// (the host refuses, and the contract traps on, any other name).
pub open spec fn valid_symbol(s: Seq<char>) -> bool {
    s.len() <= 32 && forall|i: int| 0 <= i < s.len() ==> is_symbol_char(#[trigger] s[i])
}

/// Whether `s` can name a storage symbol.
pub fn is_valid_symbol(s: &String) -> (b: bool)
    ensures
        b == valid_symbol(s@),
{
    let st = s.as_str();
    let n = st.unicode_len();
    if n > 32 {
        return false;
    }
    let mut i: usize = 0;
    while i < n
        invariant
            n == s@.len(),
            st@ == s@,
            i <= n,
            forall|j: int| 0 <= j < i ==> is_symbol_char(#[trigger] s@[j]),
        decreases n - i,
    {
        let c = st.get_char(i);
        if !(('a' <= c && c <= 'z') || ('A' <= c && c <= 'Z') || ('0' <= c && c <= '9') || c == '_') {
            assert(!is_symbol_char(s@[i as int]));
            return false;
        }
        i = i + 1;
    }
    true
}

/// Whether storing `key` is accepted by the host: fixed names always are, the name of a
/// cross-contract lock only when it is a valid symbol.
pub open spec fn key_storable(key: ReentrancyKey) -> bool {
    key is CrossContractLock ==> valid_symbol(lock_name(key))
}

/// The storage symbol of `key` (a symbol is at most 32 characters, so the host traps on
/// the name of an invoking contract's lock when it is longer; see [`key_storable`]).
pub fn key_to_symbol(key: &ReentrancyKey) -> (s: String)
    requires
        key_storable(*key),
    ensures
        s@ == lock_name(*key),
{
    name_of(key)
}

/// The name under which `key` is stored.
fn name_of(key: &ReentrancyKey) -> (s: String)
    ensures
        s@ == lock_name(*key),
{
    match key {
        ReentrancyKey::GlobalLock => String::from_str("REENTRANCY_GLOBAL"),
        ReentrancyKey::DepositLock => String::from_str("REENTRANCY_DEPOSIT"),
        ReentrancyKey::WithdrawLock => String::from_str("REENTRANCY_WITHDRAW"),
        ReentrancyKey::BorrowLock => String::from_str("REENTRANCY_BORROW"),
        ReentrancyKey::RepayLock => String::from_str("REENTRANCY_REPAY"),
        ReentrancyKey::LiquidateLock => String::from_str("REENTRANCY_LIQUIDATE"),
        ReentrancyKey::FlashLoanLock => String::from_str("REENTRANCY_FLASH_LOAN"),
        ReentrancyKey::DepositCollateralLock => String::from_str("REENTRANCY_DEPOSIT_COLLATERAL"),
        ReentrancyKey::CrossContractLock(addr) => cross_symbol(addr),
        ReentrancyKey::ReadOnlyLock => String::from_str("REENTRANCY_READ_ONLY"),
        ReentrancyKey::ConstructorLock => String::from_str("REENTRANCY_CONSTRUCTOR"),
        ReentrancyKey::DelegateCallLock => String::from_str("REENTRANCY_DELEGATE_CALL"),
    }
}

/// The name of the lock of an invoking contract.
pub fn cross_symbol(caller: &String) -> (s: String)
    ensures
        s@ == cross_lock_name(*caller),
{
    let mut s = String::from_str("REENTRANCY_CROSS_");
    s.append(caller.as_str());
    s
}

/// The locks held after entering an ordinary guard on `key` for `invoker`, or the refusal:
/// the key's lock is held, or the invoker's lock is held.
pub open spec fn spec_enter(held: Set<Seq<char>>, key: ReentrancyKey, invoker: Option<String>) -> Result<Set<Seq<char>>, ReentrancyError> {
    if held.contains(lock_name(key)) {
        Err(ReentrancyError::ReentrancyDetected)
    } else if invoker is Some && held.contains(cross_lock_name(invoker->0)) {
        Err(ReentrancyError::CrossContractReentrancy)
    } else {
        Ok(match invoker {
            Some(c) => held.insert(lock_name(key)).insert(cross_lock_name(c)),
            None => held.insert(lock_name(key)),
        })
    }
}

/// The locks held after a guard on `key` that locked `caller` (if any) is released.
pub open spec fn spec_exit(held: Set<Seq<char>>, key: ReentrancyKey, caller: Option<String>) -> Set<Seq<char>> {
    match caller {
        Some(c) => held.remove(lock_name(key)).remove(cross_lock_name(c)),
        None => held.remove(lock_name(key)),
    }
}

/// A held reentrancy guard. Release it with [`ReentrancyGuard::release`] when the
/// protected operation ends.
#[derive(Debug)]
pub struct ReentrancyGuard {
    key: ReentrancyKey,
    state_before: GuardState,
    is_read_only: bool,
    caller: Option<String>,
}

impl ReentrancyGuard {
    /// The key whose lock this guard holds.
    pub closed spec fn guarded_key(&self) -> ReentrancyKey {
        self.key
    }

    /// Whether the lock was already held when this guard was taken.
    pub closed spec fn entry_state(&self) -> GuardState {
        self.state_before
    }

    /// Whether this is a read-only guard.
    pub closed spec fn read_only(&self) -> bool {
        self.is_read_only
    }

    /// The invoking contract whose lock this guard also holds.
    pub closed spec fn locked_caller(&self) -> Option<String> {
        self.caller
    }

    /// Whether this guard is a read-only guard taken inside another read-only section.
    pub open spec fn read_only_reentrant(&self) -> bool {
        self.read_only() && self.entry_state() == GuardState::Entered
    }

    /// Take the global lock (see [`ReentrancyGuard::new_with_key`]).
    pub fn new(locks: &mut LockTable, invoker: Option<String>) -> (r: Result<ReentrancyGuard, ReentrancyError>)
        ensures
            r is Ok ==> !r->Ok_0.read_only_reentrant(),
            match spec_enter(old(locks).names(), ReentrancyKey::GlobalLock, invoker) {
                Ok(h) => r is Ok && final(locks).names() == h && r->Ok_0.guarded_key() == ReentrancyKey::GlobalLock
                    && r->Ok_0.entry_state() == GuardState::NotEntered && !r->Ok_0.read_only()
                    && r->Ok_0.locked_caller() == invoker,
                Err(e) => r == Err::<ReentrancyGuard, ReentrancyError>(e) && final(locks).names() == old(locks).names(),
            },
    {
        Self::new_with_key(locks, ReentrancyKey::GlobalLock, false, invoker)
    }

    /// Take the lock of `key`, and the lock of the invoking contract when there is one.
    /// Refused with `ReentrancyDetected` when the key's lock is held, and with
    /// `CrossContractReentrancy` when the invoker's lock is held.
    pub fn new_with_key(locks: &mut LockTable, key: ReentrancyKey, is_read_only: bool, invoker: Option<String>) -> (r: Result<ReentrancyGuard, ReentrancyError>)
        ensures
            r is Ok ==> !r->Ok_0.read_only_reentrant(),
            match spec_enter(old(locks).names(), key, invoker) {
                Ok(h) => r is Ok && final(locks).names() == h && r->Ok_0.guarded_key() == key
                    && r->Ok_0.entry_state() == GuardState::NotEntered && r->Ok_0.read_only() == is_read_only
                    && r->Ok_0.locked_caller() == invoker,
                Err(e) => r == Err::<ReentrancyGuard, ReentrancyError>(e) && final(locks).names() == old(locks).names(),
            },
    {
        let name = name_of(&key);
        if locks.holds(&name) {
            return Err(ReentrancyError::ReentrancyDetected);
        }
        let cross = match &invoker {
            Some(c) => {
                let cname = cross_symbol(c);
                if locks.holds(&cname) {
                    return Err(ReentrancyError::CrossContractReentrancy);
                }
                Some(cname)
            },
            None => None,
        };
        locks.insert(name);
        if let Some(cname) = cross {
            locks.insert(cname);
        }
        Ok(ReentrancyGuard { key, state_before: GuardState::NotEntered, is_read_only, caller: invoker })
    }

    /// Take the lock of the invoking contract `caller`; refused with
    /// `CrossContractReentrancy` when it is held.
    pub fn new_cross_contract(locks: &mut LockTable, caller: &String) -> (r: Result<ReentrancyGuard, ReentrancyError>)
        ensures
            r is Ok ==> !r->Ok_0.read_only_reentrant(),
            old(locks).names().contains(cross_lock_name(*caller)) ==> r == Err::<ReentrancyGuard, ReentrancyError>(ReentrancyError::CrossContractReentrancy)
                && final(locks).names() == old(locks).names(),
            !old(locks).names().contains(cross_lock_name(*caller)) ==> r is Ok
                && final(locks).names() == old(locks).names().insert(cross_lock_name(*caller))
                && r->Ok_0.guarded_key() == ReentrancyKey::CrossContractLock(*caller)
                && r->Ok_0.entry_state() == GuardState::NotEntered && !r->Ok_0.read_only()
                && r->Ok_0.locked_caller() == Some(*caller),
    {
        let name = cross_symbol(caller);
        if locks.holds(&name) {
            return Err(ReentrancyError::CrossContractReentrancy);
        }
        locks.insert(name);
        Ok(ReentrancyGuard {
            key: ReentrancyKey::CrossContractLock(caller.clone()),
            state_before: GuardState::NotEntered,
            is_read_only: false,
            caller: Some(caller.clone()),
        })
    }

    /// Take the read-only lock. Never refused: read-only sections may nest, and the guard
    /// records whether one was already open.
    pub fn new_read_only(locks: &mut LockTable) -> (r: Result<ReentrancyGuard, ReentrancyError>)
        ensures
            r is Ok ==> r->Ok_0.read_only_reentrant() == old(locks).names().contains(lock_name(ReentrancyKey::ReadOnlyLock)),
            r is Ok,
            final(locks).names() == old(locks).names().insert(lock_name(ReentrancyKey::ReadOnlyLock)),
            r->Ok_0.guarded_key() == ReentrancyKey::ReadOnlyLock,
            r->Ok_0.read_only(),
            r->Ok_0.locked_caller() is None,
            r->Ok_0.entry_state() == if old(locks).names().contains(lock_name(ReentrancyKey::ReadOnlyLock)) {
                GuardState::Entered
            } else {
                GuardState::NotEntered
            },
    {
        let key = ReentrancyKey::ReadOnlyLock;
        let name = name_of(&key);
        let state_before = if locks.holds(&name) { GuardState::Entered } else { GuardState::NotEntered };
        locks.insert(name);
        Ok(ReentrancyGuard { key, state_before, is_read_only: true, caller: None })
    }

    /// Take a lock that no invoker shares; refused with `error` when it is held.
    fn new_exclusive(locks: &mut LockTable, key: ReentrancyKey, error: ReentrancyError) -> (r: Result<ReentrancyGuard, ReentrancyError>)
        ensures
            r is Ok ==> !r->Ok_0.read_only_reentrant(),
            old(locks).names().contains(lock_name(key)) ==> r == Err::<ReentrancyGuard, ReentrancyError>(error)
                && final(locks).names() == old(locks).names(),
            !old(locks).names().contains(lock_name(key)) ==> r is Ok
                && final(locks).names() == old(locks).names().insert(lock_name(key))
                && r->Ok_0.guarded_key() == key
                && r->Ok_0.entry_state() == GuardState::NotEntered && !r->Ok_0.read_only()
                && r->Ok_0.locked_caller() is None,
    {
        let name = name_of(&key);
        if locks.holds(&name) {
            return Err(error);
        }
        locks.insert(name);
        Ok(ReentrancyGuard { key, state_before: GuardState::NotEntered, is_read_only: false, caller: None })
    }

    /// Take the constructor lock; refused with `ConstructorReentrancy` when it is held.
    pub fn new_constructor(locks: &mut LockTable) -> (r: Result<ReentrancyGuard, ReentrancyError>)
        ensures
            r is Ok ==> !r->Ok_0.read_only_reentrant(),
            old(locks).names().contains(lock_name(ReentrancyKey::ConstructorLock)) ==> r == Err::<ReentrancyGuard, ReentrancyError>(ReentrancyError::ConstructorReentrancy)
                && final(locks).names() == old(locks).names(),
            !old(locks).names().contains(lock_name(ReentrancyKey::ConstructorLock)) ==> r is Ok
                && final(locks).names() == old(locks).names().insert(lock_name(ReentrancyKey::ConstructorLock))
                && r->Ok_0.guarded_key() == ReentrancyKey::ConstructorLock
                && r->Ok_0.entry_state() == GuardState::NotEntered && !r->Ok_0.read_only()
                && r->Ok_0.locked_caller() is None,
    {
        Self::new_exclusive(locks, ReentrancyKey::ConstructorLock, ReentrancyError::ConstructorReentrancy)
    }

    /// Take the delegate-call lock; refused with `DelegateCallReentrancy` when it is held.
    pub fn new_delegate_call(locks: &mut LockTable) -> (r: Result<ReentrancyGuard, ReentrancyError>)
        ensures
            r is Ok ==> !r->Ok_0.read_only_reentrant(),
            old(locks).names().contains(lock_name(ReentrancyKey::DelegateCallLock)) ==> r == Err::<ReentrancyGuard, ReentrancyError>(ReentrancyError::DelegateCallReentrancy)
                && final(locks).names() == old(locks).names(),
            !old(locks).names().contains(lock_name(ReentrancyKey::DelegateCallLock)) ==> r is Ok
                && final(locks).names() == old(locks).names().insert(lock_name(ReentrancyKey::DelegateCallLock))
                && r->Ok_0.guarded_key() == ReentrancyKey::DelegateCallLock
                && r->Ok_0.entry_state() == GuardState::NotEntered && !r->Ok_0.read_only()
                && r->Ok_0.locked_caller() is None,
    {
        Self::new_exclusive(locks, ReentrancyKey::DelegateCallLock, ReentrancyError::DelegateCallReentrancy)
    }

    /// Whether this guard is a read-only guard taken inside another read-only section.
    pub fn is_read_only_reentrancy(&self) -> (b: bool)
        ensures
            b == self.read_only_reentrant(),
    {
        self.is_read_only && self.state_before == GuardState::Entered
    }

    /// Release the guard: its key's lock, and the lock of the invoking contract it holds.
    pub fn release(self, locks: &mut LockTable)
        ensures
            final(locks).names() == spec_exit(old(locks).names(), self.guarded_key(), self.locked_caller()),
    {
        let name = name_of(&self.key);
        locks.remove(&name);
        if let Some(caller) = &self.caller {
            let cname = cross_symbol(caller);
            locks.remove(&cname);
        }
    }
}

// ─── Laws ────────────────────────────────────────────────────────────────────

/// A guard cannot be entered twice: once a guard on `key` has been entered, entering a
/// guard on the same key again is refused with `ReentrancyDetected`, whoever the invoker.
pub proof fn lemma_reentry_refused(held: Set<Seq<char>>, key: ReentrancyKey, invoker: Option<String>, again: Option<String>)
    requires
        spec_enter(held, key, invoker) is Ok,
    ensures
        spec_enter(spec_enter(held, key, invoker)->Ok_0, key, again)
            == Err::<Set<Seq<char>>, ReentrancyError>(ReentrancyError::ReentrancyDetected),
{
}

/// An invoking contract inside the protocol cannot enter any guarded operation: after a
/// guard has been entered for `caller`, every entry with the same invoker is refused.
pub proof fn lemma_invoker_locked_out(held: Set<Seq<char>>, key: ReentrancyKey, other: ReentrancyKey, caller: String)
    requires
        spec_enter(held, key, Some(caller)) is Ok,
    ensures
        spec_enter(spec_enter(held, key, Some(caller))->Ok_0, other, Some(caller)) is Err,
{
}

/// Releasing a guard right after entering it gives back exactly the locks held before.
pub proof fn lemma_release_restores(held: Set<Seq<char>>, key: ReentrancyKey, invoker: Option<String>)
    requires
        spec_enter(held, key, invoker) is Ok,
    ensures
        spec_exit(spec_enter(held, key, invoker)->Ok_0, key, invoker) == held,
{
    let h = spec_enter(held, key, invoker)->Ok_0;
    match invoker {
        Some(c) => {
            assert(h.remove(lock_name(key)).remove(cross_lock_name(c)) =~= held);
        },
        None => {
            assert(h.remove(lock_name(key)) =~= held);
        },
    }
}

/// A released guard can be entered again: entering, releasing and entering the same key
/// for the same invoker gives what the first entry gave, and in particular is not refused.
pub proof fn lemma_reenter_after_release(held: Set<Seq<char>>, key: ReentrancyKey, invoker: Option<String>)
    requires
        spec_enter(held, key, invoker) is Ok,
    ensures
        spec_enter(spec_exit(spec_enter(held, key, invoker)->Ok_0, key, invoker), key, invoker)
            == spec_enter(held, key, invoker),
{
    lemma_release_restores(held, key, invoker);
}

/// Whether two keys stand for the same lock: the same key, comparing the invoking
/// contract of a cross-contract lock by its address.
pub open spec fn same_lock(a: ReentrancyKey, b: ReentrancyKey) -> bool {
    match (a, b) {
        (ReentrancyKey::CrossContractLock(x), ReentrancyKey::CrossContractLock(y)) => x@ == y@,
        (ReentrancyKey::CrossContractLock(_), _) => false,
        (_, ReentrancyKey::CrossContractLock(_)) => false,
        _ => a == b,
    }
}

/// Distinct keys are stored under distinct names.
pub proof fn lemma_lock_names_distinct(a: ReentrancyKey, b: ReentrancyKey)
    ensures
        lock_name(a) == lock_name(b) ==> same_lock(a, b),
{
    reveal_strlit("REENTRANCY_GLOBAL");
    reveal_strlit("REENTRANCY_DEPOSIT");
    reveal_strlit("REENTRANCY_WITHDRAW");
    reveal_strlit("REENTRANCY_BORROW");
    reveal_strlit("REENTRANCY_REPAY");
    reveal_strlit("REENTRANCY_LIQUIDATE");
    reveal_strlit("REENTRANCY_FLASH_LOAN");
    reveal_strlit("REENTRANCY_DEPOSIT_COLLATERAL");
    reveal_strlit("REENTRANCY_CROSS_");
    reveal_strlit("REENTRANCY_READ_ONLY");
    reveal_strlit("REENTRANCY_CONSTRUCTOR");
    reveal_strlit("REENTRANCY_DELEGATE_CALL");
    if lock_name(a) == lock_name(b) {
        match (a, b) {
            (ReentrancyKey::CrossContractLock(x), ReentrancyKey::CrossContractLock(y)) => {
                assert(x@ =~= lock_name(a).subrange(17, lock_name(a).len() as int));
                assert(y@ =~= lock_name(b).subrange(17, lock_name(b).len() as int));
            },
            (ReentrancyKey::CrossContractLock(x), _) => {
                assert(lock_name(a)[12] == 'R');
                assert(lock_name(a)[11] == 'C');
            },
            (_, ReentrancyKey::CrossContractLock(y)) => {
                assert(lock_name(b)[12] == 'R');
                assert(lock_name(b)[11] == 'C');
            },
            _ => {
                assert(lock_name(a).len() == lock_name(b).len());
                assert(lock_name(a)[11] == lock_name(b)[11]);
                assert(lock_name(a)[12] == lock_name(b)[12]);
                assert(lock_name(a)[13] == lock_name(b)[13]);
            },
        }
    }
}

/// Guards on different keys do not block each other: with a guard on `first` entered
/// (without an invoker), a guard on any other key whose lock was free can still be entered.
pub proof fn lemma_distinct_keys_independent(held: Set<Seq<char>>, first: ReentrancyKey, second: ReentrancyKey)
    requires
        spec_enter(held, first, None) is Ok,
        !held.contains(lock_name(second)),
        !same_lock(first, second),
    ensures
        spec_enter(spec_enter(held, first, None)->Ok_0, second, None) is Ok,
{
    lemma_lock_names_distinct(first, second);
}

} // verus!
