//! Flash loans with attack prevention: a TWAP check against price manipulation, a cap
//! relative to pool liquidity, a price-impact limit, a per-asset guard against
//! concurrent loans and a global guard.
//!
//! A flash loan runs in three steps around the work only the host can do:
//! [`flash_loan_open`] (before the pool balance is read), [`flash_loan_prepare`] (before
//! the funds are sent and the receiver is called back) and [`flash_loan_settle`] (once the
//! receiver has answered and the pool balance is read again).
//!
//! The state is held in [`FlashLoanSettings`] (protocol-wide entries) and
//! [`AssetFlashState`] (one asset's entries). The guards a loan takes are given back on
//! every return: settlement frees them whatever its outcome, and a preparation refused by
//! the global guard frees the asset's guard it had taken. Any other refusal leaves the
//! entries unchanged.
use vstd::prelude::*;
use crate::lending::arith::{abs, clamp_i128, in_i128, trunc_div, sat_add, sat_mul, div_pos, div_trunc};
use crate::lending::reentrancy::{ReentrancyGuard, ReentrancyKey, spec_enter, lemma_release_restores};
use crate::locks::LockTable;

verus! {

/// Errors that can occur during flash loan operations.
#[derive(Clone, Copy, Debug, PartialEq, Eq, Structural, PartialOrd, Ord)]
pub enum FlashLoanError {
    InvalidAmount,
    InsufficientRepayment,
    Unauthorized,
    InvalidFee,
    CallbackFailed,
    Reentrancy,
    FlashLoanPaused,
    /// Borrow exceeds the pool-relative liquidity cap.
    ExceedsLiquidityCap,
    /// Price impact of the flash loan exceeds the allowed maximum.
    ExcessivePriceImpact,
    /// A concurrent flash loan is already in flight (per-asset guard).
    ConcurrentLoan,
    /// TWAP price deviates too far from the spot price — manipulation detected.
    PriceManipulationDetected,
    Overflow,
}

impl FlashLoanError {
    /// The error's number in the contract interface.
    pub open spec fn error_code(self) -> u32 {
        match self {
            FlashLoanError::InvalidAmount => 1,
            FlashLoanError::InsufficientRepayment => 2,
            FlashLoanError::Unauthorized => 3,
            FlashLoanError::InvalidFee => 4,
            FlashLoanError::CallbackFailed => 5,
            FlashLoanError::Reentrancy => 6,
            FlashLoanError::FlashLoanPaused => 7,
            FlashLoanError::ExceedsLiquidityCap => 8,
            FlashLoanError::ExcessivePriceImpact => 9,
            FlashLoanError::ConcurrentLoan => 10,
            FlashLoanError::PriceManipulationDetected => 11,
            FlashLoanError::Overflow => 12,
        }
    }

    /// The error's number in the contract interface (1 to 12).
    pub fn code(&self) -> (r: u32)
        ensures
            r == self.error_code(),
            1 <= r <= 12,
    {
        match self {
            FlashLoanError::InvalidAmount => 1,
            FlashLoanError::InsufficientRepayment => 2,
            FlashLoanError::Unauthorized => 3,
            FlashLoanError::InvalidFee => 4,
            FlashLoanError::CallbackFailed => 5,
            FlashLoanError::Reentrancy => 6,
            FlashLoanError::FlashLoanPaused => 7,
            FlashLoanError::ExceedsLiquidityCap => 8,
            FlashLoanError::ExcessivePriceImpact => 9,
            FlashLoanError::ConcurrentLoan => 10,
            FlashLoanError::PriceManipulationDetected => 11,
            FlashLoanError::Overflow => 12,
        }
    }
}

/// Configuration for flash loan attack prevention.
#[derive(Clone, Copy, Debug, PartialEq)]
pub struct ManipulationConfig {
    /// Maximum fraction of pool liquidity that can be borrowed in one flash loan, in bps.
    pub max_borrow_liquidity_bps: i128,
    /// Maximum allowed price impact per flash loan, in bps.
    pub max_price_impact_bps: i128,
    /// Maximum allowed TWAP-vs-spot deviation before the loan is blocked, in bps.
    pub max_twap_deviation_bps: i128,
    /// Minimum number of TWAP samples required before the check is enforced.
    pub min_twap_samples: u32,
    /// TWAP window length in ledger seconds.
    pub twap_window_secs: u64,
}

/// Accumulated TWAP state for a single asset.
#[derive(Clone, Copy, Debug, PartialEq)]
pub struct TwapAccumulator {
    pub price_sum: i128,
    pub sample_count: u32,
    pub last_update: u64,
    /// Running average, recomputed on each sample.
    pub twap: i128,
}

/// The protocol-wide entries of the flash-loan module's storage.
#[derive(Clone, Copy, Debug)]
pub struct FlashLoanSettings {
    pub fee_bps: Option<i128>,
    pub manipulation_config: Option<ManipulationConfig>,
    /// The global flash-loan guard.
    pub legacy_guard: Option<bool>,
}

/// The entries of one asset in the flash-loan module's storage.
#[derive(Clone, Copy, Debug)]
pub struct AssetFlashState {
    pub twap: Option<TwapAccumulator>,
    /// The per-asset concurrent-loan guard.
    pub loan_active: Option<bool>,
}

/// Highest flash-loan fee, in basis points.
pub const MAX_FEE_BPS: i128 = 1000;
/// Basis-point denominator.
pub const BPS_DENOM: i128 = 10_000;
/// Fee when none is configured, in basis points.
pub const DEFAULT_FEE_BPS: i128 = 9;

/// The default attack-prevention configuration.
pub open spec fn spec_default_config() -> ManipulationConfig {
    ManipulationConfig {
        max_borrow_liquidity_bps: 5_000,
        max_price_impact_bps: 100,
        max_twap_deviation_bps: 200,
        min_twap_samples: 3,
        twap_window_secs: 300,
    }
}

/// The default attack-prevention configuration: at most 50% of the pool, 1% price impact,
/// 2% TWAP deviation, enforced from 3 samples, over a 5-minute window.
pub fn default_manipulation_config() -> (c: ManipulationConfig)
    ensures
        c == spec_default_config(),
{
    ManipulationConfig {
        max_borrow_liquidity_bps: 5_000,
        max_price_impact_bps: 100,
        max_twap_deviation_bps: 200,
        min_twap_samples: 3,
        twap_window_secs: 300,
    }
}

/// The configuration in force.
pub open spec fn config_of(s: FlashLoanSettings) -> ManipulationConfig {
    s.manipulation_config.unwrap_or(spec_default_config())
}

/// The attack-prevention configuration in force (the default when none is stored).
pub fn get_manipulation_config(settings: &FlashLoanSettings) -> (c: ManipulationConfig)
    ensures
        c == config_of(*settings),
{
    match settings.manipulation_config {
        Some(c) => c,
        None => default_manipulation_config(),
    }
}

// ─── TWAP ────────────────────────────────────────────────────────────────────

/// The accumulator after a sample `spot` at `now`: non-positive prices are ignored; a
/// sample after the window has passed restarts the accumulator; otherwise the sum and
/// count grow (saturating) and the average is the sum over the count, rounded toward zero.
pub open spec fn spec_recorded(cfg: ManipulationConfig, acc: Option<TwapAccumulator>, spot: i128, now: u64) -> Option<TwapAccumulator> {
    if spot <= 0 {
        acc
    } else {
        let a = acc.unwrap_or(TwapAccumulator { price_sum: 0, sample_count: 0, last_update: 0, twap: spot });
        let age = if now >= a.last_update { now - a.last_update } else { 0 };
        if age > cfg.twap_window_secs {
            Some(TwapAccumulator { price_sum: spot, sample_count: 1, last_update: now, twap: spot })
        } else {
            let sum = clamp_i128(a.price_sum + spot);
            let count = if a.sample_count + 1 > u32::MAX { u32::MAX as int } else { a.sample_count + 1 };
            Some(TwapAccumulator {
                price_sum: sum as i128,
                sample_count: count as u32,
                last_update: now,
                twap: trunc_div(sum, count) as i128,
            })
        }
    }
}

/// Record a new oracle price sample into the asset's TWAP accumulator.
pub fn record_price_sample(settings: &FlashLoanSettings, asset: &mut AssetFlashState, spot_price: i128, now: u64)
    ensures
        *final(asset) == (AssetFlashState {
            twap: spec_recorded(config_of(*settings), old(asset).twap, spot_price, now),
            ..*old(asset)
        }),
{
    if spot_price <= 0 {
        return;
    }
    let mut acc = match asset.twap {
        Some(a) => a,
        None => TwapAccumulator { price_sum: 0, sample_count: 0, last_update: 0, twap: spot_price },
    };
    let cfg = get_manipulation_config(settings);
    if now.saturating_sub(acc.last_update) > cfg.twap_window_secs {
        acc.price_sum = spot_price;
        acc.sample_count = 1;
        acc.twap = spot_price;
    } else {
        acc.price_sum = sat_add(acc.price_sum, spot_price);
        acc.sample_count = acc.sample_count.saturating_add(1);
        acc.twap = div_pos(acc.price_sum, acc.sample_count as i128);
    }
    acc.last_update = now;
    asset.twap = Some(acc);
}

/// The stored accumulator when it has enough samples for the check to be enforced.
pub open spec fn spec_twap(s: FlashLoanSettings, a: AssetFlashState) -> Option<TwapAccumulator> {
    match a.twap {
        Some(acc) => if acc.sample_count < config_of(s).min_twap_samples { None } else { Some(acc) },
        None => None,
    }
}

/// The asset's TWAP accumulator, or `None` if not enough samples exist.
pub fn get_twap(settings: &FlashLoanSettings, asset: &AssetFlashState) -> (r: Option<TwapAccumulator>)
    ensures
        r == spec_twap(*settings, *asset),
{
    let cfg = get_manipulation_config(settings);
    let acc = match asset.twap {
        Some(a) => a,
        None => return None,
    };
    if acc.sample_count < cfg.min_twap_samples {
        return None;
    }
    Some(acc)
}

/// The outcome of comparing the spot price with the TWAP: skipped without enough history
/// or with non-positive prices; refused when the deviation (in bps of the TWAP, rounded
/// toward zero) exceeds the maximum.
pub open spec fn spec_twap_check(s: FlashLoanSettings, a: AssetFlashState, spot: i128) -> Result<(), FlashLoanError> {
    match spec_twap(s, a) {
        None => Ok(()),
        Some(acc) => if acc.twap <= 0 || spot <= 0 {
            Ok(())
        } else if !in_i128(abs(spot - acc.twap) * BPS_DENOM) {
            Err(FlashLoanError::Overflow)
        } else if trunc_div(abs(spot - acc.twap) * BPS_DENOM, acc.twap as int) > config_of(s).max_twap_deviation_bps {
            Err(FlashLoanError::PriceManipulationDetected)
        } else {
            Ok(())
        },
    }
}

/// Check whether `spot_price` deviates excessively from the stored TWAP.
pub fn check_twap_deviation(settings: &FlashLoanSettings, asset: &AssetFlashState, spot_price: i128) -> (r: Result<(), FlashLoanError>)
    ensures
        r == spec_twap_check(*settings, *asset, spot_price),
{
    let cfg = get_manipulation_config(settings);
    let acc = match get_twap(settings, asset) {
        Some(a) => a,
        None => return Ok(()),
    };
    if acc.twap <= 0 || spot_price <= 0 {
        return Ok(());
    }
    let d = spot_price - acc.twap;
    let diff = if d < 0 { -d } else { d };
    let deviation_bps = match diff.checked_mul(BPS_DENOM) {
        Some(v) => div_pos(v, acc.twap),
        None => return Err(FlashLoanError::Overflow),
    };
    if deviation_bps > cfg.max_twap_deviation_bps {
        return Err(FlashLoanError::PriceManipulationDetected);
    }
    Ok(())
}

// ─── Pool checks ─────────────────────────────────────────────────────────────

/// The outcome of the liquidity cap: at most `max_borrow_liquidity_bps` of the pool
/// (rounded toward zero) may be borrowed.
pub open spec fn spec_liquidity_check(s: FlashLoanSettings, pool_balance: i128, amount: i128) -> Result<(), FlashLoanError> {
    let bps = config_of(s).max_borrow_liquidity_bps;
    if !in_i128(pool_balance * bps) {
        Err(FlashLoanError::Overflow)
    } else if amount > trunc_div(pool_balance * bps, BPS_DENOM as int) {
        Err(FlashLoanError::ExceedsLiquidityCap)
    } else {
        Ok(())
    }
}

/// Verify the borrow amount does not exceed the pool-relative liquidity cap.
pub fn check_liquidity_cap(settings: &FlashLoanSettings, pool_balance: i128, amount: i128) -> (r: Result<(), FlashLoanError>)
    ensures
        r == spec_liquidity_check(*settings, pool_balance, amount),
{
    let cfg = get_manipulation_config(settings);
    let max_borrow = match pool_balance.checked_mul(cfg.max_borrow_liquidity_bps) {
        Some(v) => div_pos(v, BPS_DENOM),
        None => return Err(FlashLoanError::Overflow),
    };
    if amount > max_borrow {
        return Err(FlashLoanError::ExceedsLiquidityCap);
    }
    Ok(())
}

/// The outcome of the price-impact limit: impact is `amount / (pool_balance + amount)` in
/// bps (the sum saturating, the quotient rounded toward zero); an empty pool is refused.
pub open spec fn spec_price_impact_check(s: FlashLoanSettings, pool_balance: i128, amount: i128) -> Result<(), FlashLoanError> {
    let denominator = clamp_i128(pool_balance + amount);
    if pool_balance <= 0 {
        Err(FlashLoanError::ExcessivePriceImpact)
    } else if !in_i128(amount * BPS_DENOM) || denominator == 0
        || (amount * BPS_DENOM == i128::MIN && denominator == -1) {
        Err(FlashLoanError::Overflow)
    } else if trunc_div(amount * BPS_DENOM, denominator) > config_of(s).max_price_impact_bps {
        Err(FlashLoanError::ExcessivePriceImpact)
    } else {
        Ok(())
    }
}

/// Verify the price impact of borrowing `amount` from a pool of `pool_balance`.
pub fn check_price_impact(settings: &FlashLoanSettings, pool_balance: i128, amount: i128) -> (r: Result<(), FlashLoanError>)
    ensures
        r == spec_price_impact_check(*settings, pool_balance, amount),
{
    if pool_balance <= 0 {
        return Err(FlashLoanError::ExcessivePriceImpact);
    }
    let cfg = get_manipulation_config(settings);
    let denominator = sat_add(pool_balance, amount);
    let scaled = match amount.checked_mul(BPS_DENOM) {
        Some(v) => v,
        None => return Err(FlashLoanError::Overflow),
    };
    if denominator == 0 || (scaled == i128::MIN && denominator == -1) {
        return Err(FlashLoanError::Overflow);
    }
    let impact_bps = div_trunc(scaled, denominator);
    if impact_bps > cfg.max_price_impact_bps {
        return Err(FlashLoanError::ExcessivePriceImpact);
    }
    Ok(())
}

// ─── Fees ────────────────────────────────────────────────────────────────────

/// The fee rate in force, in basis points (9 when none is stored).
pub open spec fn fee_bps_of(s: FlashLoanSettings) -> i128 {
    s.fee_bps.unwrap_or(DEFAULT_FEE_BPS)
}

/// The fee on `amount`: `amount * fee_bps / 10000`, the product saturating, rounded
/// toward zero.
pub open spec fn spec_fee(s: FlashLoanSettings, amount: i128) -> i128 {
    trunc_div(clamp_i128(amount * fee_bps_of(s)), 10000) as i128
}

/// Calculate the fee for a flash loan.
pub fn calculate_fee(settings: &FlashLoanSettings, amount: i128) -> (fee: i128)
    ensures
        fee == spec_fee(*settings, amount),
{
    let fee_bps = get_flash_loan_fee_bps(settings);
    div_pos(sat_mul(amount, fee_bps), 10000)
}

/// Set the flash loan fee in basis points (0 to 1000).
pub fn set_flash_loan_fee_bps(settings: &mut FlashLoanSettings, fee_bps: i128) -> (r: Result<(), FlashLoanError>)
    ensures
        0 <= fee_bps <= MAX_FEE_BPS ==> r is Ok
            && *final(settings) == (FlashLoanSettings { fee_bps: Some(fee_bps), ..*old(settings) }),
        !(0 <= fee_bps <= MAX_FEE_BPS) ==> r == Err::<(), FlashLoanError>(FlashLoanError::InvalidFee)
            && *final(settings) == *old(settings),
{
    if !(0 <= fee_bps && fee_bps <= MAX_FEE_BPS) {
        return Err(FlashLoanError::InvalidFee);
    }
    settings.fee_bps = Some(fee_bps);
    Ok(())
}

/// The current flash loan fee in basis points.
pub fn get_flash_loan_fee_bps(settings: &FlashLoanSettings) -> (r: i128)
    ensures
        r == fee_bps_of(*settings),
{
    settings.fee_bps.unwrap_or(DEFAULT_FEE_BPS)
}

/// Whether a configuration is accepted: the liquidity fraction in 1..=10000 bps, positive
/// impact and deviation limits, and a non-empty window.
pub open spec fn valid_config(c: ManipulationConfig) -> bool {
    &&& 0 < c.max_borrow_liquidity_bps <= BPS_DENOM
    &&& c.max_price_impact_bps > 0
    &&& c.max_twap_deviation_bps > 0
    &&& c.twap_window_secs != 0
}

/// Update the attack-prevention configuration.
pub fn set_manipulation_config(settings: &mut FlashLoanSettings, config: ManipulationConfig) -> (r: Result<(), FlashLoanError>)
    ensures
        valid_config(config) ==> r is Ok
            && *final(settings) == (FlashLoanSettings { manipulation_config: Some(config), ..*old(settings) }),
        !valid_config(config) ==> r == Err::<(), FlashLoanError>(FlashLoanError::InvalidFee)
            && *final(settings) == *old(settings),
{
    if config.max_borrow_liquidity_bps <= 0 || config.max_borrow_liquidity_bps > BPS_DENOM
        || config.max_price_impact_bps <= 0 || config.max_twap_deviation_bps <= 0
        || config.twap_window_secs == 0 {
        return Err(FlashLoanError::InvalidFee);
    }
    settings.manipulation_config = Some(config);
    Ok(())
}

// ─── The loan ────────────────────────────────────────────────────────────────

/// What a prepared flash loan must get back: the pool balance before the loan and the fee.
#[derive(Clone, Copy, Debug, PartialEq)]
pub struct FlashLoanTicket {
    pub initial_balance: i128,
    pub fee: i128,
}

/// The checks made before the pool balance is read: pause, positive amount, TWAP.
pub open spec fn spec_open(s: FlashLoanSettings, a: AssetFlashState, paused: bool, amount: i128, spot: i128) -> Result<(), FlashLoanError> {
    if paused {
        Err(FlashLoanError::FlashLoanPaused)
    } else if amount <= 0 {
        Err(FlashLoanError::InvalidAmount)
    } else {
        spec_twap_check(s, a, spot)
    }
}

/// Start a flash loan (the caller holds the flash-loan lock; `paused` is whether flash
/// loans are paused).
pub fn flash_loan_open(settings: &FlashLoanSettings, asset: &AssetFlashState, paused: bool, amount: i128, spot_price: i128) -> (r: Result<(), FlashLoanError>)
    ensures
        r == spec_open(*settings, *asset, paused, amount, spot_price),
{
    if paused {
        return Err(FlashLoanError::FlashLoanPaused);
    }
    if amount <= 0 {
        return Err(FlashLoanError::InvalidAmount);
    }
    check_twap_deviation(settings, asset, spot_price)
}

/// The outcome of preparing a loan of `amount` from a pool holding `pool_balance`: the
/// liquidity cap and price impact hold, no loan of the asset is in flight and the global
/// guard is free; then both guards are taken and the spot price joins the TWAP.
pub open spec fn spec_prepare(
    s: FlashLoanSettings,
    a: AssetFlashState,
    pool_balance: i128,
    amount: i128,
    spot: i128,
    now: u64,
) -> Result<(FlashLoanSettings, AssetFlashState, FlashLoanTicket), FlashLoanError> {
    if spec_liquidity_check(s, pool_balance, amount) is Err {
        Err(spec_liquidity_check(s, pool_balance, amount)->Err_0)
    } else if spec_price_impact_check(s, pool_balance, amount) is Err {
        Err(spec_price_impact_check(s, pool_balance, amount)->Err_0)
    } else if a.loan_active.unwrap_or(false) {
        Err(FlashLoanError::ConcurrentLoan)
    } else if s.legacy_guard.unwrap_or(false) {
        Err(FlashLoanError::Reentrancy)
    } else {
        Ok((
            FlashLoanSettings { legacy_guard: Some(true), ..s },
            AssetFlashState { twap: spec_recorded(config_of(s), a.twap, spot, now), loan_active: Some(true) },
            FlashLoanTicket { initial_balance: pool_balance, fee: spec_fee(s, amount) },
        ))
    }
}

/// The asset's entries after a refused preparation: when the global guard refuses, the
/// asset's guard, already taken, has been given back (its flag reads `false`); any
/// earlier refusal leaves them as they were.
pub open spec fn spec_prepare_refused_asset(a: AssetFlashState, e: FlashLoanError) -> AssetFlashState {
    if e == FlashLoanError::Reentrancy { AssetFlashState { loan_active: Some(false), ..a } } else { a }
}

/// Check the loan against the pool and take the guards; returns what must come back.
pub fn flash_loan_prepare(
    settings: &mut FlashLoanSettings,
    asset: &mut AssetFlashState,
    pool_balance: i128,
    amount: i128,
    spot_price: i128,
    now: u64,
) -> (r: Result<FlashLoanTicket, FlashLoanError>)
    ensures
        match spec_prepare(*old(settings), *old(asset), pool_balance, amount, spot_price, now) {
            Ok((s2, a2, t)) => r == Ok::<FlashLoanTicket, FlashLoanError>(t)
                && *final(settings) == s2 && *final(asset) == a2,
            Err(e) => r == Err::<FlashLoanTicket, FlashLoanError>(e)
                && *final(settings) == *old(settings)
                && *final(asset) == spec_prepare_refused_asset(*old(asset), e),
        },
{
    check_liquidity_cap(settings, pool_balance, amount)?;
    check_price_impact(settings, pool_balance, amount)?;
    if asset.loan_active.unwrap_or(false) {
        return Err(FlashLoanError::ConcurrentLoan);
    }
    // the asset's guard is taken before the global one, and given back when the global
    // guard refuses
    if settings.legacy_guard.unwrap_or(false) {
        asset.loan_active = Some(false);
        return Err(FlashLoanError::Reentrancy);
    }
    let fee = calculate_fee(settings, amount);
    asset.loan_active = Some(true);
    settings.legacy_guard = Some(true);
    record_price_sample(settings, asset, spot_price, now);
    Ok(FlashLoanTicket { initial_balance: pool_balance, fee })
}

/// The outcome of settling a loan: refused when the receiver's callback failed, or when
/// the pool got back less than its balance before the loan plus the fee.
pub open spec fn spec_settle(ticket: FlashLoanTicket, callback_result: bool, final_balance: i128) -> Result<(), FlashLoanError> {
    if !callback_result {
        Err(FlashLoanError::CallbackFailed)
    } else if final_balance < ticket.initial_balance + ticket.fee {
        Err(FlashLoanError::InsufficientRepayment)
    } else {
        Ok(())
    }
}

/// Settle a loan once the receiver has answered and the pool balance is read again; the
/// guards are given back whatever the outcome.
pub fn flash_loan_settle(
    settings: &mut FlashLoanSettings,
    asset: &mut AssetFlashState,
    ticket: FlashLoanTicket,
    callback_result: bool,
    final_balance: i128,
) -> (r: Result<(), FlashLoanError>)
    requires
        callback_result ==> in_i128(ticket.initial_balance + ticket.fee),
    ensures
        r == spec_settle(ticket, callback_result, final_balance),
        *final(settings) == (FlashLoanSettings { legacy_guard: Some(false), ..*old(settings) }),
        *final(asset) == (AssetFlashState { loan_active: Some(false), ..*old(asset) }),
{
    settings.legacy_guard = Some(false);
    asset.loan_active = Some(false);
    if !callback_result {
        return Err(FlashLoanError::CallbackFailed);
    }
    if final_balance < ticket.initial_balance + ticket.fee {
        return Err(FlashLoanError::InsufficientRepayment);
    }
    Ok(())
}

// ─── The whole loan ──────────────────────────────────────────────────────────

/// The outcome of a whole flash loan, given what the host answered: the pool balance
/// before the loan, whether the receiver's callback succeeded and the balance after it.
/// Returns the result and the protocol-wide and asset entries afterwards.
pub open spec fn spec_flash_loan(
    s: FlashLoanSettings,
    a: AssetFlashState,
    paused: bool,
    amount: i128,
    spot: i128,
    pool_balance: i128,
    now: u64,
    callback_result: bool,
    final_balance: i128,
) -> (Result<(), FlashLoanError>, FlashLoanSettings, AssetFlashState) {
    if spec_open(s, a, paused, amount, spot) is Err {
        (Err(spec_open(s, a, paused, amount, spot)->Err_0), s, a)
    } else {
        match spec_prepare(s, a, pool_balance, amount, spot, now) {
            Err(e) => (Err(e), s, spec_prepare_refused_asset(a, e)),
            Ok((s2, a2, t)) => (
                spec_settle(t, callback_result, final_balance),
                FlashLoanSettings { legacy_guard: Some(false), ..s2 },
                AssetFlashState { loan_active: Some(false), ..a2 },
            ),
        }
    }
}

/// A whole flash loan under the flash-loan lock, the host's answers given: the pool
/// balance read before the transfer, the receiver's callback result and the pool balance
/// after it. Entered while the lock (or the invoking contract's lock) is held, it is
/// refused with `Reentrancy` and changes nothing; the held locks are as before either way.
pub fn flash_loan_guarded(
    locks: &mut LockTable,
    invoker: Option<String>,
    settings: &mut FlashLoanSettings,
    asset: &mut AssetFlashState,
    paused: bool,
    amount: i128,
    spot_price: i128,
    pool_balance: i128,
    now: u64,
    callback_result: bool,
    final_balance: i128,
) -> (r: Result<(), FlashLoanError>)
    requires
        spec_enter(old(locks).names(), ReentrancyKey::FlashLoanLock, invoker) is Ok
            && spec_open(*old(settings), *old(asset), paused, amount, spot_price) is Ok
            && spec_prepare(*old(settings), *old(asset), pool_balance, amount, spot_price, now) is Ok
            && callback_result ==> in_i128(pool_balance + spec_fee(*old(settings), amount)),
    ensures
        final(locks).names() == old(locks).names(),
        spec_enter(old(locks).names(), ReentrancyKey::FlashLoanLock, invoker) is Err
            ==> r == Err::<(), FlashLoanError>(FlashLoanError::Reentrancy)
            && *final(settings) == *old(settings) && *final(asset) == *old(asset),
        spec_enter(old(locks).names(), ReentrancyKey::FlashLoanLock, invoker) is Ok
            ==> (r, *final(settings), *final(asset)) == spec_flash_loan(*old(settings), *old(asset), paused,
            amount, spot_price, pool_balance, now, callback_result, final_balance),
{
    let ghost held = old(locks).names();
    let ghost inv = invoker;
    let guard = match ReentrancyGuard::new_with_key(locks, ReentrancyKey::FlashLoanLock, false, invoker) {
        Ok(g) => g,
        Err(_) => return Err(FlashLoanError::Reentrancy),
    };
    let r = match flash_loan_open(settings, asset, paused, amount, spot_price) {
        Err(e) => Err(e),
        Ok(()) => match flash_loan_prepare(settings, asset, pool_balance, amount, spot_price, now) {
            Err(e) => Err(e),
            Ok(ticket) => flash_loan_settle(settings, asset, ticket, callback_result, final_balance),
        },
    };
    guard.release(locks);
    proof {
        lemma_release_restores(held, ReentrancyKey::FlashLoanLock, inv);
    }
    r
}

// ─── Laws ────────────────────────────────────────────────────────────────────

/// A flash loan settles only when the pool is made whole: the balance after the callback
/// is at least the balance before the loan plus the fee.
pub proof fn lemma_settled_loan_repaid(ticket: FlashLoanTicket, callback_result: bool, final_balance: i128)
    requires
        spec_settle(ticket, callback_result, final_balance) is Ok,
    ensures
        callback_result,
        final_balance >= ticket.initial_balance + ticket.fee,
{
}

/// No two loans of one asset are in flight together: once a loan has been prepared, and
/// until it is settled, preparing another loan of the same asset is refused.
pub proof fn lemma_no_concurrent_loans(
    s: FlashLoanSettings,
    a: AssetFlashState,
    pool_balance: i128,
    amount: i128,
    spot: i128,
    now: u64,
    pool_balance2: i128,
    amount2: i128,
    spot2: i128,
    now2: u64,
)
    requires
        spec_prepare(s, a, pool_balance, amount, spot, now) is Ok,
    ensures
        ({
            let (s2, a2, t) = spec_prepare(s, a, pool_balance, amount, spot, now)->Ok_0;
            spec_prepare(s2, a2, pool_balance2, amount2, spot2, now2) is Err
        }),
{
}

/// Settling a loan gives the guards back: after a loan is prepared and settled, repaid or
/// not, the asset's guard and the global guard are free again.
pub proof fn lemma_settle_frees_guards(
    s: FlashLoanSettings,
    a: AssetFlashState,
    pool_balance: i128,
    amount: i128,
    spot: i128,
    now: u64,
)
    requires
        spec_prepare(s, a, pool_balance, amount, spot, now) is Ok,
    ensures
        ({
            let (s2, a2, t) = spec_prepare(s, a, pool_balance, amount, spot, now)->Ok_0;
            let s3 = FlashLoanSettings { legacy_guard: Some(false), ..s2 };
            let a3 = AssetFlashState { loan_active: Some(false), ..a2 };
            &&& !s3.legacy_guard.unwrap_or(false)
            &&& !a3.loan_active.unwrap_or(false)
            &&& config_of(s3) == config_of(s)
            &&& fee_bps_of(s3) == fee_bps_of(s)
        }),
{
}

/// A prepared loan respects the pool limits: the amount is positive-or-capped at
/// `max_borrow_liquidity_bps` of the pool, and its impact on the pool is within the
/// configured maximum.
pub proof fn lemma_prepared_loan_within_limits(
    s: FlashLoanSettings,
    a: AssetFlashState,
    pool_balance: i128,
    amount: i128,
    spot: i128,
    now: u64,
)
    requires
        spec_prepare(s, a, pool_balance, amount, spot, now) is Ok,
    ensures
        pool_balance > 0,
        amount <= trunc_div(pool_balance * config_of(s).max_borrow_liquidity_bps, BPS_DENOM as int),
        trunc_div(amount * BPS_DENOM, clamp_i128(pool_balance + amount)) <= config_of(s).max_price_impact_bps,
{
}

/// The fee is a fraction of the amount: for a non-negative amount and a fee rate the
/// setter accepts (0 to 1000 bps), the fee lies between 0 and a tenth of the amount.
pub proof fn lemma_fee_bounded(s: FlashLoanSettings, amount: i128)
    requires
        amount >= 0,
        0 <= fee_bps_of(s) <= MAX_FEE_BPS,
    ensures
        0 <= spec_fee(s, amount),
        spec_fee(s, amount) * 10 <= amount,
{
    let f = fee_bps_of(s) as int;
    let a = amount as int;
    assert(0 <= a * f <= a * 1000) by (nonlinear_arith)
        requires a >= 0, 0 <= f <= 1000;
    let p = clamp_i128(a * f);
    assert(0 <= p <= a * 1000);
    vstd::arithmetic::div_mod::lemma_div_pos_is_pos(p, 10000);
    vstd::arithmetic::div_mod::lemma_fundamental_div_mod(p, 10000);
    vstd::arithmetic::div_mod::lemma_mod_bound(p, 10000);
    assert((p / 10000) * 10 <= a) by (nonlinear_arith)
        requires p == 10000 * (p / 10000) + p % 10000, 0 <= p % 10000, p <= a * 1000;
}

/// The TWAP accumulator keeps its average: after a positive sample the recorded average
/// is the price sum over the sample count, rounded toward zero, and the count is positive.
pub proof fn lemma_twap_is_average(cfg: ManipulationConfig, acc: Option<TwapAccumulator>, spot: i128, now: u64)
    requires
        spot > 0,
    ensures
        spec_recorded(cfg, acc, spot, now) is Some,
        spec_recorded(cfg, acc, spot, now)->0.sample_count >= 1,
        spec_recorded(cfg, acc, spot, now)->0.twap == trunc_div(
            spec_recorded(cfg, acc, spot, now)->0.price_sum as int,
            spec_recorded(cfg, acc, spot, now)->0.sample_count as int,
        ),
        spec_recorded(cfg, acc, spot, now)->0.last_update == now,
{
    let r = spec_recorded(cfg, acc, spot, now)->0;
    let a = acc.unwrap_or(TwapAccumulator { price_sum: 0, sample_count: 0, last_update: 0, twap: spot });
    let age = if now >= a.last_update { now - a.last_update } else { 0 };
    if age > cfg.twap_window_secs {
        vstd::arithmetic::div_mod::lemma_fundamental_div_mod(spot as int, 1);
        vstd::arithmetic::div_mod::lemma_mod_bound(spot as int, 1);
        assert(trunc_div(spot as int, 1) == spot as int);
    }
}


/// A flash loan always gives its guards back: when neither the asset's guard nor the
/// global guard is held at the start, both are free again once the loan returns, whatever
/// its outcome, so the next loan of the asset is not refused as concurrent.
pub proof fn lemma_loan_frees_guards(
    s: FlashLoanSettings,
    a: AssetFlashState,
    paused: bool,
    amount: i128,
    spot: i128,
    pool_balance: i128,
    now: u64,
    callback_result: bool,
    final_balance: i128,
)
    requires
        !s.legacy_guard.unwrap_or(false),
        !a.loan_active.unwrap_or(false),
    ensures
        ({
            let (_, s2, a2) = spec_flash_loan(s, a, paused, amount, spot, pool_balance, now, callback_result, final_balance);
            &&& !s2.legacy_guard.unwrap_or(false)
            &&& !a2.loan_active.unwrap_or(false)
            &&& config_of(s2) == config_of(s)
            &&& fee_bps_of(s2) == fee_bps_of(s)
        }),
{
}

} // verus!
