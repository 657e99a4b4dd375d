//! Vault deposits: collateral deposited into the protocol, with a protocol-wide cap and
//! a minimum deposit.
//!
//! The state an operation reads and writes is held in [`DepositSettings`] (the
//! protocol-wide entries) and [`UserDepositRecord`] (one user's entries); a `None` field
//! is an entry that was never written. An operation that returns `Err` leaves both
//! unchanged.
use vstd::prelude::*;
use crate::lending::arith::in_i128;
use crate::lending::reentrancy::{ReentrancyGuard, ReentrancyKey, spec_enter, lemma_release_restores};
use crate::locks::LockTable;

verus! {

/// Errors that can occur during deposit operations.
#[derive(Clone, Copy, Debug, PartialEq, Eq, Structural, PartialOrd, Ord)]
pub enum DepositError {
    InvalidAmount,
    DepositPaused,
    Overflow,
    AssetNotSupported,
    ExceedsDepositCap,
    Unauthorized,
    ReentrancyDetected,
    AmountBelowMinimum,
    NoDustToSweep,
}

impl DepositError {
    /// The error's number in the contract interface.
    pub open spec fn error_code(self) -> u32 {
        match self {
            DepositError::InvalidAmount => 1,
            DepositError::DepositPaused => 2,
            DepositError::Overflow => 3,
            DepositError::AssetNotSupported => 4,
            DepositError::ExceedsDepositCap => 5,
            DepositError::Unauthorized => 6,
            DepositError::ReentrancyDetected => 7,
            DepositError::AmountBelowMinimum => 8,
            DepositError::NoDustToSweep => 9,
        }
    }

    /// The error's number in the contract interface (1 to 9).
    pub fn code(&self) -> (r: u32)
        ensures
            r == self.error_code(),
            1 <= r <= 9,
    {
        match self {
            DepositError::InvalidAmount => 1,
            DepositError::DepositPaused => 2,
            DepositError::Overflow => 3,
            DepositError::AssetNotSupported => 4,
            DepositError::ExceedsDepositCap => 5,
            DepositError::Unauthorized => 6,
            DepositError::ReentrancyDetected => 7,
            DepositError::AmountBelowMinimum => 8,
            DepositError::NoDustToSweep => 9,
        }
    }
}

/// Dust threshold (one unit of the asset).
pub const DUST_THRESHOLD: i128 = 1;

/// User deposit position.
#[derive(Debug)]
pub struct DepositCollateral {
    pub amount: i128,
    pub asset: String,
    pub last_deposit_time: u64,
}

/// The protocol-wide entries of the deposit module's storage.
#[derive(Clone, Copy, Debug)]
pub struct DepositSettings {
    pub total_amount: Option<i128>,
    pub cap_amount: Option<i128>,
    pub min_amount: Option<i128>,
}

/// The entries of one user in the deposit module's storage.
#[derive(Debug)]
pub struct UserDepositRecord {
    pub collateral: Option<DepositCollateral>,
    pub dust: Option<i128>,
}

/// The stored total deposits (0 when not set).
pub open spec fn total_deposits(s: DepositSettings) -> i128 {
    s.total_amount.unwrap_or(0)
}

/// The stored deposit cap (`i128::MAX` when not set).
pub open spec fn deposit_cap(s: DepositSettings) -> i128 {
    s.cap_amount.unwrap_or(i128::MAX)
}

/// The stored minimum deposit (0 when not set).
pub open spec fn min_deposit(s: DepositSettings) -> i128 {
    s.min_amount.unwrap_or(0)
}

/// The user's deposit position: the stored one, or an empty one in `asset` as of `now`.
pub open spec fn spec_deposit_position(r: UserDepositRecord, asset: String, now: u64) -> DepositCollateral {
    match r.collateral {
        Some(c) => c,
        None => DepositCollateral { amount: 0, asset: asset, last_deposit_time: now },
    }
}

fn get_deposit_position(record: &UserDepositRecord, asset: &String, now: u64) -> (c: DepositCollateral)
    ensures
        c == spec_deposit_position(*record, *asset, now),
{
    match &record.collateral {
        Some(c) => DepositCollateral { amount: c.amount, asset: c.asset.clone(), last_deposit_time: c.last_deposit_time },
        None => DepositCollateral { amount: 0, asset: asset.clone(), last_deposit_time: now },
    }
}

/// The user's deposit position.
pub fn get_user_collateral(record: &UserDepositRecord, asset: &String, now: u64) -> (c: DepositCollateral)
    ensures
        c == spec_deposit_position(*record, *asset, now),
{
    get_deposit_position(record, asset, now)
}

/// The outcome of depositing `amount` of `asset`: the position grows by `amount`, takes
/// `asset` and the time `now`, and the total deposits grow by `amount` within the cap.
/// `Ok` carries the new settings, record and balance.
pub open spec fn spec_deposit(
    s: DepositSettings,
    r: UserDepositRecord,
    asset: String,
    amount: i128,
    paused: bool,
    now: u64,
) -> Result<(DepositSettings, UserDepositRecord, i128), DepositError> {
    let p0 = spec_deposit_position(r, asset, now);
    if paused {
        Err(DepositError::DepositPaused)
    } else if amount <= 0 {
        Err(DepositError::InvalidAmount)
    } else if amount < DUST_THRESHOLD || amount < min_deposit(s) {
        Err(DepositError::AmountBelowMinimum)
    } else if !in_i128(total_deposits(s) + amount) {
        Err(DepositError::Overflow)
    } else if total_deposits(s) + amount > deposit_cap(s) {
        Err(DepositError::ExceedsDepositCap)
    } else if !in_i128(p0.amount + amount) {
        Err(DepositError::Overflow)
    } else {
        let balance = (p0.amount + amount) as i128;
        Ok((
            DepositSettings { total_amount: Some((total_deposits(s) + amount) as i128), ..s },
            UserDepositRecord {
                collateral: Some(DepositCollateral { amount: balance, asset: asset, last_deposit_time: now }),
                ..r
            },
            balance,
        ))
    }
}

/// Deposit collateral into the protocol (the caller holds the deposit lock and has the
/// user's authorization; `paused` is whether deposits are paused); returns the new
/// balance.
pub fn deposit(
    settings: &mut DepositSettings,
    record: &mut UserDepositRecord,
    asset: &String,
    amount: i128,
    paused: bool,
    now: u64,
) -> (r: Result<i128, DepositError>)
    ensures
        match spec_deposit(*old(settings), *old(record), *asset, amount, paused, now) {
            Ok((s2, r2, balance)) => r == Ok::<i128, DepositError>(balance)
                && *final(settings) == s2 && *final(record) == r2,
            Err(e) => r == Err::<i128, DepositError>(e)
                && *final(settings) == *old(settings) && *final(record) == *old(record),
        },
{
    if paused {
        return Err(DepositError::DepositPaused);
    }
    if amount <= 0 {
        return Err(DepositError::InvalidAmount);
    }
    if amount < DUST_THRESHOLD {
        return Err(DepositError::AmountBelowMinimum);
    }
    let min_deposit = settings.min_amount.unwrap_or(0);
    if amount < min_deposit {
        return Err(DepositError::AmountBelowMinimum);
    }
    let total = settings.total_amount.unwrap_or(0);
    let cap = settings.cap_amount.unwrap_or(i128::MAX);
    let new_total = match total.checked_add(amount) {
        Some(v) => v,
        None => return Err(DepositError::Overflow),
    };
    if new_total > cap {
        return Err(DepositError::ExceedsDepositCap);
    }
    let mut position = get_deposit_position(record, asset, now);
    position.amount = match position.amount.checked_add(amount) {
        Some(v) => v,
        None => return Err(DepositError::Overflow),
    };
    position.last_deposit_time = now;
    position.asset = asset.clone();
    let balance = position.amount;
    record.collateral = Some(position);
    settings.total_amount = Some(new_total);
    Ok(balance)
}

/// Initialize deposit settings: the cap and the minimum deposit.
pub fn initialize_deposit_settings(settings: &mut DepositSettings, deposit_cap: i128, min_deposit_amount: i128) -> (r: Result<(), DepositError>)
    ensures
        r is Ok,
        *final(settings) == (DepositSettings {
            cap_amount: Some(deposit_cap),
            min_amount: Some(min_deposit_amount),
            ..*old(settings)
        }),
{
    settings.cap_amount = Some(deposit_cap);
    settings.min_amount = Some(min_deposit_amount);
    Ok(())
}

/// The outcome of sweeping the user's tracked dust: it leaves the position and the total
/// deposits, the tracking entry is cleared, and the dust is to be paid out to the user.
pub open spec fn spec_sweep_dust(s: DepositSettings, r: UserDepositRecord, asset: String, now: u64) -> Result<(DepositSettings, UserDepositRecord, i128), DepositError> {
    let dust = r.dust.unwrap_or(0);
    let p0 = spec_deposit_position(r, asset, now);
    if dust < DUST_THRESHOLD {
        Err(DepositError::NoDustToSweep)
    } else if !in_i128(p0.amount - dust) || !in_i128(total_deposits(s) - dust) {
        Err(DepositError::Overflow)
    } else {
        Ok((
            DepositSettings { total_amount: Some((total_deposits(s) - dust) as i128), ..s },
            UserDepositRecord {
                collateral: Some(DepositCollateral { amount: (p0.amount - dust) as i128, ..p0 }),
                dust: None,
            },
            dust,
        ))
    }
}

/// Sweep dust from the user's deposit position (the caller holds the deposit lock and
/// has the user's authorization); returns the amount to transfer to the user.
pub fn sweep_dust(settings: &mut DepositSettings, record: &mut UserDepositRecord, asset: &String, now: u64) -> (r: Result<i128, DepositError>)
    ensures
        match spec_sweep_dust(*old(settings), *old(record), *asset, now) {
            Ok((s2, r2, dust)) => r == Ok::<i128, DepositError>(dust)
                && *final(settings) == s2 && *final(record) == r2,
            Err(e) => r == Err::<i128, DepositError>(e)
                && *final(settings) == *old(settings) && *final(record) == *old(record),
        },
{
    let dust = record.dust.unwrap_or(0);
    if dust < DUST_THRESHOLD {
        return Err(DepositError::NoDustToSweep);
    }
    let mut position = get_deposit_position(record, asset, now);
    position.amount = match position.amount.checked_sub(dust) {
        Some(v) => v,
        None => return Err(DepositError::Overflow),
    };
    let total = settings.total_amount.unwrap_or(0);
    let new_total = match total.checked_sub(dust) {
        Some(v) => v,
        None => return Err(DepositError::Overflow),
    };
    record.collateral = Some(position);
    record.dust = None;
    settings.total_amount = Some(new_total);
    Ok(dust)
}

/// Track dust accumulation: amounts strictly between 0 and the dust threshold are added
/// to the user's dust entry. With a threshold of one unit no integer amount qualifies,
/// so the record never changes.
pub fn track_dust(record: &mut UserDepositRecord, dust: i128)
    ensures
        *final(record) == *old(record),
{
    if dust > 0 && dust < DUST_THRESHOLD {
        let current = record.dust.unwrap_or(0);
        let new_dust = match current.checked_add(dust) {
            Some(v) => v,
            None => current,
        };
        record.dust = Some(new_dust);
    }
}

/// Deposit under the deposit lock (see [`deposit`]): entered while the lock (or the
/// invoking contract's lock) is held, it is refused with `ReentrancyDetected` and changes
/// nothing; the held locks are as before either way.
pub fn deposit_guarded(
    locks: &mut LockTable,
    invoker: Option<String>,
    settings: &mut DepositSettings,
    record: &mut UserDepositRecord,
    asset: &String,
    amount: i128,
    paused: bool,
    now: u64,
) -> (r: Result<i128, DepositError>)
    ensures
        final(locks).names() == old(locks).names(),
        spec_enter(old(locks).names(), ReentrancyKey::DepositLock, invoker) is Err
            ==> r == Err::<i128, DepositError>(DepositError::ReentrancyDetected)
            && *final(settings) == *old(settings) && *final(record) == *old(record),
        spec_enter(old(locks).names(), ReentrancyKey::DepositLock, invoker) is Ok
            ==> match spec_deposit(*old(settings), *old(record), *asset, amount, paused, now) {
            Ok((s2, r2, balance)) => r == Ok::<i128, DepositError>(balance)
                && *final(settings) == s2 && *final(record) == r2,
            Err(e) => r == Err::<i128, DepositError>(e)
                && *final(settings) == *old(settings) && *final(record) == *old(record),
        },
{
    let ghost held = old(locks).names();
    let ghost inv = invoker;
    let guard = match ReentrancyGuard::new_with_key(locks, ReentrancyKey::DepositLock, false, invoker) {
        Ok(g) => g,
        Err(_) => return Err(DepositError::ReentrancyDetected),
    };
    let r = deposit(settings, record, asset, amount, paused, now);
    guard.release(locks);
    proof {
        lemma_release_restores(held, ReentrancyKey::DepositLock, inv);
    }
    r
}

/// Sweep dust under the deposit lock (see [`sweep_dust`]): refused with
/// `ReentrancyDetected`, changing nothing, while the lock is held; the held locks are as
/// before either way.
pub fn sweep_dust_guarded(
    locks: &mut LockTable,
    invoker: Option<String>,
    settings: &mut DepositSettings,
    record: &mut UserDepositRecord,
    asset: &String,
    now: u64,
) -> (r: Result<i128, DepositError>)
    ensures
        final(locks).names() == old(locks).names(),
        spec_enter(old(locks).names(), ReentrancyKey::DepositLock, invoker) is Err
            ==> r == Err::<i128, DepositError>(DepositError::ReentrancyDetected)
            && *final(settings) == *old(settings) && *final(record) == *old(record),
        spec_enter(old(locks).names(), ReentrancyKey::DepositLock, invoker) is Ok
            ==> match spec_sweep_dust(*old(settings), *old(record), *asset, now) {
            Ok((s2, r2, dust)) => r == Ok::<i128, DepositError>(dust)
                && *final(settings) == s2 && *final(record) == r2,
            Err(e) => r == Err::<i128, DepositError>(e)
                && *final(settings) == *old(settings) && *final(record) == *old(record),
        },
{
    let ghost held = old(locks).names();
    let ghost inv = invoker;
    let guard = match ReentrancyGuard::new_with_key(locks, ReentrancyKey::DepositLock, false, invoker) {
        Ok(g) => g,
        Err(_) => return Err(DepositError::ReentrancyDetected),
    };
    let r = sweep_dust(settings, record, asset, now);
    guard.release(locks);
    proof {
        lemma_release_restores(held, ReentrancyKey::DepositLock, inv);
    }
    r
}

/// A successful deposit credits exactly the amount deposited: the user's balance and the
/// total deposits both grow by `amount`, the total stays within the cap, and the balance
/// returned is the new balance.
pub proof fn lemma_deposit_credits_amount(s: DepositSettings, r: UserDepositRecord, asset: String, amount: i128, paused: bool, now: u64)
    requires
        spec_deposit(s, r, asset, amount, paused, now) is Ok,
    ensures
        ({
            let (s2, r2, balance) = spec_deposit(s, r, asset, amount, paused, now)->Ok_0;
            &&& amount > 0
            &&& balance == spec_deposit_position(r, asset, now).amount + amount
            &&& spec_deposit_position(r2, asset, now).amount == balance
            &&& total_deposits(s2) == total_deposits(s) + amount
            &&& total_deposits(s2) <= deposit_cap(s)
            &&& deposit_cap(s2) == deposit_cap(s)
        }),
{
}

/// Sweeping dust removes the same amount from the user's balance and from the total
/// deposits, and clears the dust entry.
pub proof fn lemma_sweep_balances(s: DepositSettings, r: UserDepositRecord, asset: String, now: u64)
    requires
        spec_sweep_dust(s, r, asset, now) is Ok,
    ensures
        ({
            let (s2, r2, dust) = spec_sweep_dust(s, r, asset, now)->Ok_0;
            &&& dust >= DUST_THRESHOLD
            &&& spec_deposit_position(r2, asset, now).amount == spec_deposit_position(r, asset, now).amount - dust
            &&& total_deposits(s2) == total_deposits(s) - dust
            &&& r2.dust is None
        }),
{
}


/// Every deposit must reach the configured minimum on its own: a deposit that succeeds
/// is at least the minimum deposit, and an unpaused, positive deposit below it is refused
/// with `AmountBelowMinimum`, whatever the balance it would join.
pub proof fn lemma_deposit_at_least_minimum(s: DepositSettings, r: UserDepositRecord, asset: String, amount: i128, paused: bool, now: u64)
    ensures
        spec_deposit(s, r, asset, amount, paused, now) is Ok ==> amount >= s.min_amount.unwrap_or(0),
        !paused && amount > 0 && amount < s.min_amount.unwrap_or(0)
            ==> spec_deposit(s, r, asset, amount, paused, now) == Err::<(DepositSettings, UserDepositRecord, i128), DepositError>(DepositError::AmountBelowMinimum),
{
}

} // verus!
