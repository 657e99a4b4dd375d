//! Borrow logic of the lending protocol: collateral validation, debt tracking,
//! interest accrual, rate switching and the protocol's risk parameters.
//!
//! Interest is simple interest at a rate in basis points per year:
//! `interest = principal * rate_bps * elapsed_seconds / (10000 * 31536000)`, rounded
//! toward zero. Variable-rate debt accrues at a fixed 5% APY (500 bps); stable-rate debt
//! at its stable rate, derived from the variable one; a depegged stablecoin adds its
//! stability fee. The minimum collateral ratio is 150% (15000 basis points), exactly.
//!
//! The state that an operation reads and writes is held in [`BorrowSettings`] (the
//! protocol-wide entries) and [`UserBorrowRecord`] (one user's entries); a `None` field
//! is an entry that was never written. Addresses are held as their text (strkey).
//! An operation that returns `Err` leaves both unchanged.
use vstd::prelude::*;
use crate::lending::arith::{clamp_i128, in_i128, trunc_div, sat_add, sat_sub, sat_mul, div_pos};
use crate::lending::rounding::{round_up, lemma_round_floor_ceiling};
use crate::lending::reentrancy::{ReentrancyGuard, ReentrancyKey, spec_enter, lemma_release_restores};
use crate::locks::LockTable;
use crate::lending::wide::{Wide, outside_i256, mul_signed3, div_wide, add_wide, wide_to_i128, product_outside_i256, b128, b64};

verus! {

/// Rate model of a debt position.
#[derive(Clone, Copy, Debug, PartialEq, Eq, Structural)]
pub enum RateType {
    Variable,
    Stable,
}

/// Errors that can occur during borrow operations.
#[derive(Clone, Copy, Debug, PartialEq, Eq, Structural, PartialOrd, Ord)]
pub enum BorrowError {
    /// Collateral amount does not meet the 150% minimum ratio
    InsufficientCollateral,
    /// Total protocol debt would exceed the configured debt ceiling
    DebtCeilingReached,
    /// Borrow operations are currently paused
    ProtocolPaused,
    /// Borrow or collateral amount is zero or negative
    InvalidAmount,
    /// Arithmetic overflow during calculation
    Overflow,
    /// Caller is not authorized for this operation
    Unauthorized,
    /// The requested asset is not supported for borrowing
    AssetNotSupported,
    /// Borrow amount is below the configured minimum
    BelowMinimumBorrow,
    /// Amount is below minimum transaction threshold (dust)
    AmountBelowMinimum,
    /// No dust available to sweep
    NoDustToSweep,
    /// Reentrancy detected
    ReentrancyDetected,
    /// Repay amount exceeds current debt
    RepayAmountTooHigh,
    /// Position is healthy and cannot be liquidated
    PositionHealthy,
    /// Insufficient reserves to recover bad debt
    InsufficientReserves,
}

impl BorrowError {
    /// The error's number in the contract interface.
    pub open spec fn error_code(self) -> u32 {
        match self {
            BorrowError::InsufficientCollateral => 1,
            BorrowError::DebtCeilingReached => 2,
            BorrowError::ProtocolPaused => 3,
            BorrowError::InvalidAmount => 4,
            BorrowError::Overflow => 5,
            BorrowError::Unauthorized => 6,
            BorrowError::AssetNotSupported => 7,
            BorrowError::BelowMinimumBorrow => 8,
            BorrowError::AmountBelowMinimum => 9,
            BorrowError::NoDustToSweep => 10,
            BorrowError::ReentrancyDetected => 11,
            BorrowError::RepayAmountTooHigh => 12,
            BorrowError::PositionHealthy => 13,
            BorrowError::InsufficientReserves => 14,
        }
    }

    /// The error's number in the contract interface (1 to 14).
    pub fn code(&self) -> (r: u32)
        ensures
            r == self.error_code(),
            1 <= r <= 14,
    {
        match self {
            BorrowError::InsufficientCollateral => 1,
            BorrowError::DebtCeilingReached => 2,
            BorrowError::ProtocolPaused => 3,
            BorrowError::InvalidAmount => 4,
            BorrowError::Overflow => 5,
            BorrowError::Unauthorized => 6,
            BorrowError::AssetNotSupported => 7,
            BorrowError::BelowMinimumBorrow => 8,
            BorrowError::AmountBelowMinimum => 9,
            BorrowError::NoDustToSweep => 10,
            BorrowError::ReentrancyDetected => 11,
            BorrowError::RepayAmountTooHigh => 12,
            BorrowError::PositionHealthy => 13,
            BorrowError::InsufficientReserves => 14,
        }
    }
}

/// Dynamic stablecoin configuration of one asset.
#[derive(Clone, Copy, Debug, PartialEq)]
pub struct StablecoinConfig {
    /// Target price in oracle units (e.g. 100_000_000 for $1.00)
    pub target_price: i128,
    /// Minimum deviation before stability fee kicks in (basis points)
    pub peg_threshold_bps: i128,
    /// Fee added to interest rate when depegged (basis points)
    pub stability_fee_bps: i128,
    /// Threshold for emergency actions (basis points)
    pub emergency_threshold_bps: i128,
}

/// User debt position.
#[derive(Debug)]
pub struct DebtPosition {
    /// Principal amount borrowed
    pub borrowed_amount: i128,
    /// Cumulative interest accrued
    pub interest_accrued: i128,
    /// Timestamp of last interest accrual
    pub last_update: u64,
    /// Address of the borrowed asset
    pub asset: String,
    pub rate_type: RateType,
    pub stable_rate_bps: i128,
}

/// Protocol-wide stable borrow rate state.
#[derive(Clone, Copy, Debug, PartialEq)]
pub struct StableRateState {
    pub avg_rate_bps: i128,
    pub last_update: u64,
}

/// User collateral position.
#[derive(Debug)]
pub struct BorrowCollateral {
    /// Amount of collateral deposited
    pub amount: i128,
    /// Address of the collateral asset
    pub asset: String,
}

/// The protocol-wide entries of the borrow module's storage.
#[derive(Debug)]
pub struct BorrowSettings {
    pub admin: Option<String>,
    pub total_debt: Option<i128>,
    pub debt_ceiling: Option<i128>,
    pub min_borrow_amount: Option<i128>,
    pub oracle: Option<String>,
    pub liquidation_threshold_bps: Option<i128>,
    pub close_factor_bps: Option<i128>,
    pub liquidation_incentive_bps: Option<i128>,
    pub interest_index: Option<i128>,
    pub stable_rate_state: Option<StableRateState>,
    pub stable_rate_premium_bps: Option<i128>,
    pub stable_rate_recalc_interval_secs: Option<u64>,
    pub rate_switch_fee_bps: Option<i128>,
}

/// The entries of one user in the borrow module's storage.
#[derive(Debug)]
pub struct UserBorrowRecord {
    /// The single-position entry kept for older readers.
    pub legacy_debt: Option<DebtPosition>,
    pub variable_debt: Option<DebtPosition>,
    pub stable_debt: Option<DebtPosition>,
    pub collateral: Option<BorrowCollateral>,
    pub dust: Option<i128>,
}

/// A stablecoin configuration for the position's asset with the oracle's current price.
#[derive(Clone, Copy, Debug, PartialEq)]
pub struct PegQuote {
    pub config: StablecoinConfig,
    pub price: i128,
}

/// A depeg detected while accruing interest: the data of the peg-deviation and
/// stability-fee events.
#[derive(Clone, Copy, Debug, PartialEq)]
pub struct PegDeviation {
    pub price: i128,
    pub target_price: i128,
    pub deviation_bps: i128,
    pub stability_fee_bps: i128,
}

/// The interest accrued on a position since its last update, and the depeg seen on the way.
#[derive(Clone, Copy, Debug, PartialEq)]
pub struct InterestQuote {
    pub result: Result<i128, BorrowError>,
    pub peg_event: Option<PegDeviation>,
}

// ─── Constants ───────────────────────────────────────────────────────────────

/// Minimum transaction amount (1 unit of asset).
pub const MIN_TRANSACTION_AMOUNT: i128 = 1;

/// Dust threshold (same as minimum transaction amount).
pub const DUST_THRESHOLD: i128 = 1;

/// Minimum collateral ratio, 150% in basis points.
pub const COLLATERAL_RATIO_MIN: i128 = 15000;

/// Seconds in a year of the interest model.
pub const SECONDS_PER_YEAR: u64 = 31536000;

/// `10000 * SECONDS_PER_YEAR`: interest is `principal * rate_bps * seconds` over this.
pub const INTEREST_DIVISOR: u64 = 315360000000;

pub const DEFAULT_STABLE_PREMIUM_BPS: i128 = 100;
/// The variable borrow rate: simple interest at a fixed 5% APY (500 basis points).
pub const VARIABLE_RATE_BPS: i128 = 500;
pub const DEFAULT_STABLE_RECALC_INTERVAL_SECS: u64 = 21600;
pub const DEFAULT_SWITCH_FEE_BPS: i128 = 10;
pub const DEFAULT_MIN_BORROW_AMOUNT: i128 = 1000;
pub const DEFAULT_LIQUIDATION_THRESHOLD_BPS: i128 = 8000;
pub const DEFAULT_CLOSE_FACTOR_BPS: i128 = 5000;
pub const DEFAULT_LIQUIDATION_INCENTIVE_BPS: i128 = 1000;
pub const DEFAULT_INTEREST_INDEX: i128 = 1_000_000_000;

/// The variable rate as interest accrual reads it: always the fixed 500 basis points.
pub open spec fn fixed_variable_rate() -> Result<i128, BorrowError> {
    Ok(VARIABLE_RATE_BPS)
}

// ─── Copies ──────────────────────────────────────────────────────────────────

/// A copy of a debt position.
pub fn copy_position(p: &DebtPosition) -> (r: DebtPosition)
    ensures
        r == *p,
{
    DebtPosition {
        borrowed_amount: p.borrowed_amount,
        interest_accrued: p.interest_accrued,
        last_update: p.last_update,
        asset: p.asset.clone(),
        rate_type: p.rate_type,
        stable_rate_bps: p.stable_rate_bps,
    }
}

fn copy_opt_position(p: &Option<DebtPosition>) -> (r: Option<DebtPosition>)
    ensures
        r == *p,
{
    match p {
        Some(q) => Some(copy_position(q)),
        None => None,
    }
}

fn copy_opt_string(s: &Option<String>) -> (r: Option<String>)
    ensures
        r == *s,
{
    match s {
        Some(q) => Some(q.clone()),
        None => None,
    }
}

/// A copy of the protocol-wide entries.
pub fn copy_settings(s: &BorrowSettings) -> (r: BorrowSettings)
    ensures
        r == *s,
{
    BorrowSettings {
        admin: copy_opt_string(&s.admin),
        total_debt: s.total_debt,
        debt_ceiling: s.debt_ceiling,
        min_borrow_amount: s.min_borrow_amount,
        oracle: copy_opt_string(&s.oracle),
        liquidation_threshold_bps: s.liquidation_threshold_bps,
        close_factor_bps: s.close_factor_bps,
        liquidation_incentive_bps: s.liquidation_incentive_bps,
        interest_index: s.interest_index,
        stable_rate_state: s.stable_rate_state,
        stable_rate_premium_bps: s.stable_rate_premium_bps,
        stable_rate_recalc_interval_secs: s.stable_rate_recalc_interval_secs,
        rate_switch_fee_bps: s.rate_switch_fee_bps,
    }
}

// ─── Stable rate ─────────────────────────────────────────────────────────────

/// The stored stable rate state, or the default one: the current variable rate
/// (0 when it cannot be read) as of `now`.
pub open spec fn stored_stable_state(s: BorrowSettings, now: u64, variable_rate: Result<i128, BorrowError>) -> StableRateState {
    match s.stable_rate_state {
        Some(st) => st,
        None => StableRateState {
            avg_rate_bps: match variable_rate { Ok(v) => v, Err(_) => 0 },
            last_update: now,
        },
    }
}

/// Whether the stable average is recalculated at `now`: time has passed since its last
/// update and the (non-zero) recalculation interval has elapsed.
pub open spec fn stable_state_due(s: BorrowSettings, now: u64, variable_rate: Result<i128, BorrowError>) -> bool {
    let st = stored_stable_state(s, now, variable_rate);
    let interval = s.stable_rate_recalc_interval_secs.unwrap_or(DEFAULT_STABLE_RECALC_INTERVAL_SECS);
    now > st.last_update && interval != 0 && now - st.last_update >= interval
}

/// One smoothing step toward the current rate: `(avg * 9 + current) / 10`, or
/// `current` when that overflows.
pub open spec fn smoothed_average(avg: i128, current: i128) -> i128 {
    if in_i128(avg * 9) && in_i128(avg * 9 + current) {
        trunc_div(avg * 9 + current, 10) as i128
    } else {
        current
    }
}

/// The stable rate state after recalculation at `now` (the stored one when not due).
pub open spec fn refreshed_stable_state(s: BorrowSettings, now: u64, variable_rate: Result<i128, BorrowError>) -> StableRateState {
    let st = stored_stable_state(s, now, variable_rate);
    if stable_state_due(s, now, variable_rate) {
        StableRateState {
            avg_rate_bps: smoothed_average(
                st.avg_rate_bps,
                match variable_rate { Ok(v) => v, Err(_) => st.avg_rate_bps },
            ),
            last_update: now,
        }
    } else {
        st
    }
}

/// The settings after a recalculation at `now`: the new state is stored only when due.
pub open spec fn settings_after_refresh(s: BorrowSettings, now: u64, variable_rate: Result<i128, BorrowError>) -> BorrowSettings {
    if stable_state_due(s, now, variable_rate) {
        BorrowSettings { stable_rate_state: Some(refreshed_stable_state(s, now, variable_rate)), ..s }
    } else {
        s
    }
}

/// The current stable rate: the recalculated average plus the premium.
pub open spec fn spec_current_stable_rate(s: BorrowSettings, now: u64, variable_rate: Result<i128, BorrowError>) -> Result<i128, BorrowError> {
    let avg = refreshed_stable_state(s, now, variable_rate).avg_rate_bps;
    let premium = s.stable_rate_premium_bps.unwrap_or(DEFAULT_STABLE_PREMIUM_BPS);
    if in_i128(avg + premium) { Ok((avg + premium) as i128) } else { Err(BorrowError::Overflow) }
}

/// Recalculate the stable average when due and store it; returns the current state.
pub fn update_stable_rate_state_if_needed(
    settings: &mut BorrowSettings,
    now: u64,
) -> (st: StableRateState)
    ensures
        st == refreshed_stable_state(*old(settings), now, fixed_variable_rate()),
        *final(settings) == settings_after_refresh(*old(settings), now, fixed_variable_rate()),
{
    let variable_rate: Result<i128, BorrowError> = Ok(VARIABLE_RATE_BPS);
    let mut state = match settings.stable_rate_state {
        Some(st) => st,
        None => StableRateState {
            avg_rate_bps: match variable_rate { Ok(v) => v, Err(_) => 0 },
            last_update: now,
        },
    };
    let interval = settings.stable_rate_recalc_interval_secs.unwrap_or(DEFAULT_STABLE_RECALC_INTERVAL_SECS);
    if now <= state.last_update {
        return state;
    }
    if interval == 0 || now - state.last_update < interval {
        return state;
    }
    let current = match variable_rate {
        Ok(v) => v,
        Err(_) => state.avg_rate_bps,
    };
    let new_avg = match state.avg_rate_bps.checked_mul(9) {
        Some(v) => match v.checked_add(current) {
            Some(w) => div_pos(w, 10),
            None => current,
        },
        None => current,
    };
    state.avg_rate_bps = new_avg;
    state.last_update = now;
    settings.stable_rate_state = Some(state);
    state
}

/// The current stable borrow rate in basis points (recalculating the average when due).
pub fn get_current_stable_rate_bps(
    settings: &mut BorrowSettings,
    now: u64,
) -> (r: Result<i128, BorrowError>)
    ensures
        r == spec_current_stable_rate(*old(settings), now, fixed_variable_rate()),
        *final(settings) == settings_after_refresh(*old(settings), now, fixed_variable_rate()),
{
    let state = update_stable_rate_state_if_needed(settings, now);
    let premium = settings.stable_rate_premium_bps.unwrap_or(DEFAULT_STABLE_PREMIUM_BPS);
    match state.avg_rate_bps.checked_add(premium) {
        Some(v) => Ok(v),
        None => Err(BorrowError::Overflow),
    }
}

// ─── Interest ────────────────────────────────────────────────────────────────

/// Interest on `principal` at `rate_bps` for `elapsed` seconds, rounded toward zero.
pub open spec fn accrual(principal: int, rate_bps: int, elapsed: int) -> int {
    trunc_div(principal * rate_bps * elapsed, INTEREST_DIVISOR as int)
}

/// Seconds since the position's last update (0 when that lies in the future).
pub open spec fn elapsed_since(p: DebtPosition, now: u64) -> int {
    if now >= p.last_update { now - p.last_update } else { 0 }
}

/// The rate a position accrues at: the variable rate, its own stable rate when set,
/// else the current stable rate.
pub open spec fn spec_position_rate(s: BorrowSettings, p: DebtPosition, now: u64, variable_rate: Result<i128, BorrowError>) -> Result<i128, BorrowError> {
    match p.rate_type {
        RateType::Variable => variable_rate,
        RateType::Stable => if p.stable_rate_bps > 0 {
            Ok(p.stable_rate_bps)
        } else {
            spec_current_stable_rate(s, now, variable_rate)
        },
    }
}

/// Whether accruing interest on `p` recalculates the stable average.
pub open spec fn accrual_refreshes_stable(p: DebtPosition) -> bool {
    p.borrowed_amount != 0 && p.rate_type == RateType::Stable && p.stable_rate_bps <= 0
}

/// How far the price lies below the target, in basis points of the target
/// (computed with saturating arithmetic; 0 for a non-positive target).
pub open spec fn peg_deviation_bps(q: PegQuote) -> int {
    let deviation = clamp_i128(q.config.target_price - q.price);
    if q.config.target_price > 0 {
        trunc_div(clamp_i128(deviation * 10000), q.config.target_price as int)
    } else {
        0
    }
}

/// Whether the stability fee is charged: a quote is present and the deviation exceeds
/// the peg threshold.
pub open spec fn stability_fee_applies(peg: Option<PegQuote>) -> bool {
    match peg {
        Some(q) => peg_deviation_bps(q) > q.config.peg_threshold_bps,
        None => false,
    }
}

/// The interest accrued on `p` at `now`: `Overflow` when it does not fit an `i128`.
pub open spec fn spec_interest(s: BorrowSettings, p: DebtPosition, now: u64, variable_rate: Result<i128, BorrowError>, peg: Option<PegQuote>) -> Result<i128, BorrowError> {
    if p.borrowed_amount == 0 {
        Ok(0)
    } else {
        match spec_position_rate(s, p, now, variable_rate) {
            Err(e) => Err(e),
            Ok(rate) => {
                let el = elapsed_since(p, now);
                let fee = match peg {
                    Some(q) => if stability_fee_applies(peg) {
                        accrual(p.borrowed_amount as int, q.config.stability_fee_bps as int, el)
                    } else {
                        0
                    },
                    None => 0,
                };
                let total = accrual(p.borrowed_amount as int, rate as int, el) + fee;
                if in_i128(total) { Ok(total as i128) } else { Err(BorrowError::Overflow) }
            },
        }
    }
}

/// The depeg reported while accruing interest on `p`.
pub open spec fn spec_peg_event(s: BorrowSettings, p: DebtPosition, now: u64, variable_rate: Result<i128, BorrowError>, peg: Option<PegQuote>) -> Option<PegDeviation> {
    if p.borrowed_amount != 0 && spec_position_rate(s, p, now, variable_rate) is Ok && stability_fee_applies(peg) {
        let q = peg->0;
        Some(PegDeviation {
            price: q.price,
            target_price: q.config.target_price,
            deviation_bps: peg_deviation_bps(q) as i128,
            stability_fee_bps: q.config.stability_fee_bps,
        })
    } else {
        None
    }
}

/// The inputs on which accruing interest on `p` stays within 256-bit arithmetic
/// (the host traps otherwise): the products principal * rate * elapsed.
pub open spec fn interest_defined(s: BorrowSettings, p: DebtPosition, now: u64, variable_rate: Result<i128, BorrowError>, peg: Option<PegQuote>) -> bool {
    p.borrowed_amount != 0 ==> match spec_position_rate(s, p, now, variable_rate) {
        Err(_) => true,
        Ok(rate) => {
            let el = elapsed_since(p, now);
            &&& !outside_i256(p.borrowed_amount * rate * el)
            &&& stability_fee_applies(peg) ==> !outside_i256(
                p.borrowed_amount * peg->0.config.stability_fee_bps * el,
            )
        },
    }
}

/// `principal * rate * elapsed / INTEREST_DIVISOR`, exactly.
fn accrue(principal: i128, rate: i128, elapsed: u64) -> (r: Wide)
    ensures
        r.value() == accrual(principal as int, rate as int, elapsed as int),
        r.mag.value() <= 0x8000_0000_0000_0000_0000_0000_0000_0000 * b128() * b64(),
{
    let p = mul_signed3(principal, rate, elapsed);
    div_wide(p, INTEREST_DIVISOR)
}

/// The deviation of the price below the target in basis points (saturating).
pub fn deviation_bps(q: &PegQuote) -> (r: i128)
    ensures
        r == peg_deviation_bps(*q),
{
    let deviation = sat_sub(q.config.target_price, q.price);
    if q.config.target_price > 0 {
        div_pos(sat_mul(deviation, 10000), q.config.target_price)
    } else {
        0
    }
}

/// The rate a position accrues at (recalculating the stable average when it is used).
pub fn position_rate(
    settings: &mut BorrowSettings,
    position: &DebtPosition,
    now: u64,
) -> (r: Result<i128, BorrowError>)
    ensures
        r == spec_position_rate(*old(settings), *position, now, fixed_variable_rate()),
        *final(settings) == if position.rate_type == RateType::Stable && position.stable_rate_bps <= 0 {
            settings_after_refresh(*old(settings), now, fixed_variable_rate())
        } else {
            *old(settings)
        },
{
    let variable_rate: Result<i128, BorrowError> = Ok(VARIABLE_RATE_BPS);
    match position.rate_type {
        RateType::Variable => variable_rate,
        RateType::Stable => {
            if position.stable_rate_bps > 0 {
                Ok(position.stable_rate_bps)
            } else {
                get_current_stable_rate_bps(settings, now)
            }
        },
    }
}

/// Interest accrued on a position since its last update: principal * rate * elapsed
/// over 10000 * seconds per year, rounded toward zero, plus the stability fee at the
/// configured fee rate when the asset trades below its peg by more than the threshold.
pub fn calculate_interest(
    settings: &mut BorrowSettings,
    position: &DebtPosition,
    now: u64,
    peg: Option<PegQuote>,
) -> (q: InterestQuote)
    requires
        interest_defined(*old(settings), *position, now, fixed_variable_rate(), peg),
    ensures
        q.result == spec_interest(*old(settings), *position, now, fixed_variable_rate(), peg),
        q.peg_event == spec_peg_event(*old(settings), *position, now, fixed_variable_rate(), peg),
        *final(settings) == if accrual_refreshes_stable(*position) {
            settings_after_refresh(*old(settings), now, fixed_variable_rate())
        } else {
            *old(settings)
        },
{
    if position.borrowed_amount == 0 {
        return InterestQuote { result: Ok(0), peg_event: None };
    }
    let elapsed = now.saturating_sub(position.last_update);
    let rate = match position_rate(settings, position, now) {
        Ok(r) => r,
        Err(e) => return InterestQuote { result: Err(e), peg_event: None },
    };
    let base = accrue(position.borrowed_amount, rate, elapsed);
    let mut total = base;
    let mut peg_event = None;
    proof {
        assert(0x8000_0000_0000_0000_0000_0000_0000_0000 * b128() * b64() < b128() * b128() * b128() / 2) by (nonlinear_arith)
            requires b128() == b64() * b64(), b64() == 0x1_0000_0000_0000_0000;
    }
    if let Some(q) = peg {
        let dev = deviation_bps(&q);
        if dev > q.config.peg_threshold_bps {
            let fee = accrue(position.borrowed_amount, q.config.stability_fee_bps, elapsed);
            total = add_wide(base, fee);
            peg_event = Some(PegDeviation {
                price: q.price,
                target_price: q.config.target_price,
                deviation_bps: dev,
                stability_fee_bps: q.config.stability_fee_bps,
            });
        }
    }
    let result = match wide_to_i128(total) {
        Some(v) => Ok(v),
        None => Err(BorrowError::Overflow),
    };
    InterestQuote { result, peg_event }
}

/// Whether accruing interest on `position` would leave 256-bit arithmetic (where the
/// host traps), without changing anything.
pub fn interest_would_trap(
    settings: &BorrowSettings,
    position: &DebtPosition,
    now: u64,
    peg: Option<PegQuote>,
) -> (r: bool)
    ensures
        r == !interest_defined(*settings, *position, now, fixed_variable_rate(), peg),
{
    if position.borrowed_amount == 0 {
        return false;
    }
    let mut scratch = copy_settings(settings);
    let rate = match position_rate(&mut scratch, position, now) {
        Ok(r) => r,
        Err(_) => return false,
    };
    let elapsed = now.saturating_sub(position.last_update);
    if product_outside_i256(position.borrowed_amount, rate, elapsed) {
        return true;
    }
    match peg {
        Some(q) => {
            deviation_bps(&q) > q.config.peg_threshold_bps
                && product_outside_i256(position.borrowed_amount, q.config.stability_fee_bps, elapsed)
        },
        None => false,
    }
}

// ─── Positions ───────────────────────────────────────────────────────────────

/// An empty position of `rate_type` in `asset`, as of `now`.
pub open spec fn empty_position(asset: String, rate_type: RateType, now: u64) -> DebtPosition {
    DebtPosition {
        borrowed_amount: 0,
        interest_accrued: 0,
        last_update: now,
        asset: asset,
        rate_type: rate_type,
        stable_rate_bps: 0,
    }
}

/// The stored entry of one rate type.
pub open spec fn stored_position(r: UserBorrowRecord, rate_type: RateType) -> Option<DebtPosition> {
    match rate_type {
        RateType::Variable => r.variable_debt,
        RateType::Stable => r.stable_debt,
    }
}

/// The user's position of `rate_type`: the stored one; for the variable rate, when no
/// variable entry exists, the legacy entry; otherwise an empty position in
/// `default_asset` (the user's own address when none is given).
pub open spec fn spec_debt_position(
    r: UserBorrowRecord,
    user: String,
    default_asset: Option<String>,
    rate_type: RateType,
    now: u64,
) -> DebtPosition {
    let stored = stored_position(r, rate_type);
    if stored is None && rate_type == RateType::Variable && r.legacy_debt is Some {
        let l = r.legacy_debt->0;
        DebtPosition { rate_type: RateType::Variable, stable_rate_bps: 0, ..l }
    } else {
        match stored {
            Some(p) => p,
            None => empty_position(default_asset.unwrap_or(user), rate_type, now),
        }
    }
}

/// Read the user's position of `rate_type` (see [`spec_debt_position`]).
pub fn get_debt_position(
    record: &UserBorrowRecord,
    user: &String,
    default_asset: Option<&String>,
    rate_type: RateType,
    now: u64,
) -> (p: DebtPosition)
    ensures
        p == spec_debt_position(
            *record,
            *user,
            match default_asset { Some(a) => Some(*a), None => None },
            rate_type,
            now,
        ),
{
    let stored = match rate_type {
        RateType::Variable => &record.variable_debt,
        RateType::Stable => &record.stable_debt,
    };
    if stored.is_none() && rate_type == RateType::Variable {
        if let Some(legacy) = &record.legacy_debt {
            return DebtPosition {
                borrowed_amount: legacy.borrowed_amount,
                interest_accrued: legacy.interest_accrued,
                last_update: legacy.last_update,
                asset: legacy.asset.clone(),
                rate_type: RateType::Variable,
                stable_rate_bps: 0,
            };
        }
    }
    match stored {
        Some(p) => copy_position(p),
        None => DebtPosition {
            borrowed_amount: 0,
            interest_accrued: 0,
            last_update: now,
            asset: match default_asset {
                Some(a) => a.clone(),
                None => user.clone(),
            },
            rate_type,
            stable_rate_bps: 0,
        },
    }
}

/// Whether a position carries any debt.
pub open spec fn has_debt(p: DebtPosition) -> bool {
    p.borrowed_amount > 0 || p.interest_accrued > 0
}

/// The legacy single-position entry: the variable position when it carries debt, else
/// the stable position, else an empty variable position in the user's address.
pub open spec fn spec_legacy_entry(
    variable: Option<DebtPosition>,
    stable: Option<DebtPosition>,
    user: String,
    now: u64,
) -> DebtPosition {
    let chosen = if variable is Some && has_debt(variable->0) { variable } else { stable };
    match chosen {
        Some(c) => c,
        None => empty_position(user, RateType::Variable, now),
    }
}

/// The record after storing `p` under its rate type and refreshing the legacy entry.
pub open spec fn record_after_save(r: UserBorrowRecord, user: String, p: DebtPosition, now: u64) -> UserBorrowRecord {
    let r1 = match p.rate_type {
        RateType::Variable => UserBorrowRecord { variable_debt: Some(p), ..r },
        RateType::Stable => UserBorrowRecord { stable_debt: Some(p), ..r },
    };
    UserBorrowRecord {
        legacy_debt: Some(spec_legacy_entry(r1.variable_debt, r1.stable_debt, user, now)),
        ..r1
    }
}

fn update_compat_user_debt(record: &mut UserBorrowRecord, user: &String, now: u64)
    ensures
        *final(record) == (UserBorrowRecord {
            legacy_debt: Some(spec_legacy_entry(old(record).variable_debt, old(record).stable_debt, *user, now)),
            ..*old(record)
        }),
{
    let chosen = match &record.variable_debt {
        Some(pos) => if pos.borrowed_amount > 0 || pos.interest_accrued > 0 {
            Some(copy_position(pos))
        } else {
            copy_opt_position(&record.stable_debt)
        },
        None => copy_opt_position(&record.stable_debt),
    };
    let entry = match chosen {
        Some(pos) => pos,
        None => DebtPosition {
            borrowed_amount: 0,
            interest_accrued: 0,
            last_update: now,
            asset: user.clone(),
            rate_type: RateType::Variable,
            stable_rate_bps: 0,
        },
    };
    record.legacy_debt = Some(entry);
}

/// Store a position under its rate type, and refresh the legacy entry.
pub fn save_debt_position(record: &mut UserBorrowRecord, user: &String, position: DebtPosition, now: u64)
    ensures
        *final(record) == record_after_save(*old(record), *user, position, now),
{
    match position.rate_type {
        RateType::Variable => {
            record.variable_debt = Some(position);
        },
        RateType::Stable => {
            record.stable_debt = Some(position);
        },
    }
    update_compat_user_debt(record, user, now);
}

/// The user's collateral position: the stored one, or an empty one in the user's address.
pub open spec fn spec_collateral_position(r: UserBorrowRecord, user: String) -> BorrowCollateral {
    match r.collateral {
        Some(c) => c,
        None => BorrowCollateral { amount: 0, asset: user },
    }
}

fn get_collateral_position(record: &UserBorrowRecord, user: &String) -> (c: BorrowCollateral)
    ensures
        c == spec_collateral_position(*record, *user),
{
    match &record.collateral {
        Some(c) => BorrowCollateral { amount: c.amount, asset: c.asset.clone() },
        None => BorrowCollateral { amount: 0, asset: user.clone() },
    }
}

/// The user's collateral position.
pub fn get_user_collateral(record: &UserBorrowRecord, user: &String) -> (c: BorrowCollateral)
    ensures
        c == spec_collateral_position(*record, *user),
{
    get_collateral_position(record, user)
}

// ─── Collateral ratio ────────────────────────────────────────────────────────

/// The outcome of the 150% check: `Overflow` when `borrow * 15000` leaves `i128`,
/// `InsufficientCollateral` when the collateral is below 150% of the borrowed amount
/// (`collateral * 10000 < borrow * 15000`, exactly).
pub open spec fn spec_collateral_check(collateral: i128, borrow: i128) -> Result<(), BorrowError> {
    if !in_i128(borrow * COLLATERAL_RATIO_MIN) {
        Err(BorrowError::Overflow)
    } else if collateral * 10000 < borrow * COLLATERAL_RATIO_MIN {
        Err(BorrowError::InsufficientCollateral)
    } else {
        Ok(())
    }
}

/// Validate that the collateral covers 150% of the borrowed amount.
pub fn validate_collateral_ratio(collateral: i128, borrow: i128) -> (r: Result<(), BorrowError>)
    ensures
        r == spec_collateral_check(collateral, borrow),
{
    let required = match borrow.checked_mul(COLLATERAL_RATIO_MIN) {
        Some(v) => v,
        None => return Err(BorrowError::Overflow),
    };
    // the least collateral `c` with `c * 10000 >= required`
    let min_collateral = round_up(required, 10000);
    proof {
        lemma_round_floor_ceiling(required as int, 10000);
    }
    if collateral < min_collateral {
        return Err(BorrowError::InsufficientCollateral);
    }
    Ok(())
}

// ─── Admin and risk parameters ───────────────────────────────────────────────

/// Whether `caller` is the stored protocol admin.
pub open spec fn is_admin(s: BorrowSettings, caller: String) -> bool {
    s.admin is Some && s.admin->0@ == caller@
}

/// `Ok` exactly when `caller` is the stored protocol admin.
pub fn check_admin(settings: &BorrowSettings, caller: &String) -> (r: Result<(), BorrowError>)
    ensures
        r is Ok <==> is_admin(*settings, *caller),
        r is Err ==> r == Err::<(), BorrowError>(BorrowError::Unauthorized),
{
    match &settings.admin {
        Some(current) => if *caller == *current { Ok(()) } else { Err(BorrowError::Unauthorized) },
        None => Err(BorrowError::Unauthorized),
    }
}

/// Set the protocol admin.
pub fn set_admin(settings: &mut BorrowSettings, admin: &String)
    ensures
        *final(settings) == (BorrowSettings { admin: Some(*admin), ..*old(settings) }),
{
    settings.admin = Some(admin.clone());
}

/// The protocol admin, if set.
pub fn get_admin(settings: &BorrowSettings) -> (r: Option<String>)
    ensures
        r == settings.admin,
{
    copy_opt_string(&settings.admin)
}

/// The oracle address, if set.
pub fn get_oracle(settings: &BorrowSettings) -> (r: Option<String>)
    ensures
        r == settings.oracle,
{
    copy_opt_string(&settings.oracle)
}

/// Liquidation threshold in basis points (8000 when not set).
pub fn get_liquidation_threshold_bps(settings: &BorrowSettings) -> (r: i128)
    ensures
        r == settings.liquidation_threshold_bps.unwrap_or(DEFAULT_LIQUIDATION_THRESHOLD_BPS),
{
    settings.liquidation_threshold_bps.unwrap_or(DEFAULT_LIQUIDATION_THRESHOLD_BPS)
}

/// Close factor in basis points (5000 when not set).
pub fn get_close_factor_bps(settings: &BorrowSettings) -> (r: i128)
    ensures
        r == settings.close_factor_bps.unwrap_or(DEFAULT_CLOSE_FACTOR_BPS),
{
    settings.close_factor_bps.unwrap_or(DEFAULT_CLOSE_FACTOR_BPS)
}

/// Liquidation incentive in basis points (1000 when not set).
pub fn get_liquidation_incentive_bps(settings: &BorrowSettings) -> (r: i128)
    ensures
        r == settings.liquidation_incentive_bps.unwrap_or(DEFAULT_LIQUIDATION_INCENTIVE_BPS),
{
    settings.liquidation_incentive_bps.unwrap_or(DEFAULT_LIQUIDATION_INCENTIVE_BPS)
}

/// Current interest index (1.0 with 9 decimals when not set).
pub fn get_interest_index(settings: &BorrowSettings) -> (r: i128)
    ensures
        r == settings.interest_index.unwrap_or(DEFAULT_INTEREST_INDEX),
{
    settings.interest_index.unwrap_or(DEFAULT_INTEREST_INDEX)
}

/// Set the interest index.
pub fn set_interest_index(settings: &mut BorrowSettings, index: i128)
    ensures
        *final(settings) == (BorrowSettings { interest_index: Some(index), ..*old(settings) }),
{
    settings.interest_index = Some(index);
}

/// Set the oracle address (admin only).
pub fn set_oracle(settings: &mut BorrowSettings, admin: &String, oracle: &String) -> (r: Result<(), BorrowError>)
    ensures
        is_admin(*old(settings), *admin) ==> r is Ok
            && *final(settings) == (BorrowSettings { oracle: Some(*oracle), ..*old(settings) }),
        !is_admin(*old(settings), *admin) ==> r == Err::<(), BorrowError>(BorrowError::Unauthorized)
            && *final(settings) == *old(settings),
{
    check_admin(settings, admin)?;
    settings.oracle = Some(oracle.clone());
    Ok(())
}

/// The outcome of an admin-only update of a basis-point parameter that must lie in
/// `lo..=10000`.
pub open spec fn bps_update(s: BorrowSettings, admin: String, bps: i128, lo: i128) -> Result<(), BorrowError> {
    if !is_admin(s, admin) {
        Err(BorrowError::Unauthorized)
    } else if bps < lo || bps > 10000 {
        Err(BorrowError::InvalidAmount)
    } else {
        Ok(())
    }
}

/// Set the liquidation threshold in basis points (admin only; 1 to 10000).
pub fn set_liquidation_threshold_bps(settings: &mut BorrowSettings, admin: &String, bps: i128) -> (r: Result<(), BorrowError>)
    ensures
        r == bps_update(*old(settings), *admin, bps, 1),
        *final(settings) == if r is Ok {
            BorrowSettings { liquidation_threshold_bps: Some(bps), ..*old(settings) }
        } else {
            *old(settings)
        },
{
    check_admin(settings, admin)?;
    if bps <= 0 || bps > 10000 {
        return Err(BorrowError::InvalidAmount);
    }
    settings.liquidation_threshold_bps = Some(bps);
    Ok(())
}

/// Set the close factor in basis points (admin only; 1 to 10000).
pub fn set_close_factor_bps(settings: &mut BorrowSettings, admin: &String, bps: i128) -> (r: Result<(), BorrowError>)
    ensures
        r == bps_update(*old(settings), *admin, bps, 1),
        *final(settings) == if r is Ok {
            BorrowSettings { close_factor_bps: Some(bps), ..*old(settings) }
        } else {
            *old(settings)
        },
{
    check_admin(settings, admin)?;
    if bps <= 0 || bps > 10000 {
        return Err(BorrowError::InvalidAmount);
    }
    settings.close_factor_bps = Some(bps);
    Ok(())
}

/// Set the liquidation incentive in basis points (admin only; 0 to 10000).
pub fn set_liquidation_incentive_bps(settings: &mut BorrowSettings, admin: &String, bps: i128) -> (r: Result<(), BorrowError>)
    ensures
        r == bps_update(*old(settings), *admin, bps, 0),
        *final(settings) == if r is Ok {
            BorrowSettings { liquidation_incentive_bps: Some(bps), ..*old(settings) }
        } else {
            *old(settings)
        },
{
    check_admin(settings, admin)?;
    if !(0 <= bps && bps <= 10000) {
        return Err(BorrowError::InvalidAmount);
    }
    settings.liquidation_incentive_bps = Some(bps);
    Ok(())
}

/// Check an update of the interest-rate configuration's base rate (admin only; 0 to 10000
/// basis points); on success returns the rate to record. Accrual keeps the fixed 5%
/// variable rate whatever is recorded.
pub fn set_variable_borrow_rate_bps(settings: &BorrowSettings, admin: &String, rate_bps: i128) -> (r: Result<i128, BorrowError>)
    ensures
        match bps_update(*settings, *admin, rate_bps, 0) {
            Ok(()) => r == Ok::<i128, BorrowError>(rate_bps),
            Err(e) => r == Err::<i128, BorrowError>(e),
        },
{
    check_admin(settings, admin)?;
    if !(0 <= rate_bps && rate_bps <= 10000) {
        return Err(BorrowError::InvalidAmount);
    }
    Ok(rate_bps)
}

/// Store the stablecoin configuration of an asset (admin only); `slot` is that asset's entry.
pub fn set_stablecoin_config(
    settings: &BorrowSettings,
    admin: &String,
    slot: &mut Option<StablecoinConfig>,
    config: StablecoinConfig,
) -> (r: Result<(), BorrowError>)
    ensures
        is_admin(*settings, *admin) ==> r is Ok && *final(slot) == Some(config),
        !is_admin(*settings, *admin) ==> r == Err::<(), BorrowError>(BorrowError::Unauthorized)
            && *final(slot) == *old(slot),
{
    check_admin(settings, admin)?;
    *slot = Some(config);
    Ok(())
}

/// The stablecoin configuration stored in an asset's entry.
pub fn get_stablecoin_config(slot: &Option<StablecoinConfig>) -> (r: Option<StablecoinConfig>)
    ensures
        r == *slot,
{
    *slot
}

/// The protocol settings after initialization: debt ceiling and minimum borrow amount
/// stored, and the stable-rate premium, recalculation interval and switch fee set to
/// their defaults where missing.
pub open spec fn spec_initialized(s: BorrowSettings, debt_ceiling: i128, min_borrow_amount: i128) -> BorrowSettings {
    BorrowSettings {
        debt_ceiling: Some(debt_ceiling),
        min_borrow_amount: Some(min_borrow_amount),
        stable_rate_premium_bps: Some(s.stable_rate_premium_bps.unwrap_or(DEFAULT_STABLE_PREMIUM_BPS)),
        stable_rate_recalc_interval_secs: Some(
            s.stable_rate_recalc_interval_secs.unwrap_or(DEFAULT_STABLE_RECALC_INTERVAL_SECS),
        ),
        rate_switch_fee_bps: Some(s.rate_switch_fee_bps.unwrap_or(DEFAULT_SWITCH_FEE_BPS)),
        ..s
    }
}

/// Initialize the borrow settings (the caller checks the admin).
pub fn initialize_borrow_settings(settings: &mut BorrowSettings, debt_ceiling: i128, min_borrow_amount: i128) -> (r: Result<(), BorrowError>)
    ensures
        r is Ok,
        *final(settings) == spec_initialized(*old(settings), debt_ceiling, min_borrow_amount),
{
    settings.debt_ceiling = Some(debt_ceiling);
    settings.min_borrow_amount = Some(min_borrow_amount);
    if settings.stable_rate_premium_bps.is_none() {
        settings.stable_rate_premium_bps = Some(DEFAULT_STABLE_PREMIUM_BPS);
    }
    if settings.stable_rate_recalc_interval_secs.is_none() {
        settings.stable_rate_recalc_interval_secs = Some(DEFAULT_STABLE_RECALC_INTERVAL_SECS);
    }
    if settings.rate_switch_fee_bps.is_none() {
        settings.rate_switch_fee_bps = Some(DEFAULT_SWITCH_FEE_BPS);
    }
    Ok(())
}

// ─── Borrow ──────────────────────────────────────────────────────────────────

/// What a successful borrow reports: the new total protocol debt and the debt ceiling
/// (for the utilization monitor), and the depeg seen while accruing interest.
#[derive(Clone, Copy, Debug, PartialEq)]
pub struct BorrowReceipt {
    pub new_total_debt: i128,
    pub debt_ceiling: i128,
    pub peg_event: Option<PegDeviation>,
}

/// The stored minimum borrow amount (1000 when not set).
pub open spec fn min_borrow_amount(s: BorrowSettings) -> i128 {
    s.min_borrow_amount.unwrap_or(DEFAULT_MIN_BORROW_AMOUNT)
}

/// The stored total protocol debt (0 when not set).
pub open spec fn total_debt(s: BorrowSettings) -> i128 {
    s.total_debt.unwrap_or(0)
}

/// The stored debt ceiling (`i128::MAX` when not set).
pub open spec fn debt_ceiling(s: BorrowSettings) -> i128 {
    s.debt_ceiling.unwrap_or(i128::MAX)
}

/// The checks a borrow makes before it reads the user's position, in order: pause,
/// positive amounts, dust threshold, configured minimum amount, 150% collateral, overflow of the total debt and the
/// debt ceiling. `Ok` carries the new total debt.
pub open spec fn borrow_checks(s: BorrowSettings, amount: i128, collateral_amount: i128, paused: bool) -> Result<i128, BorrowError> {
    if paused {
        Err(BorrowError::ProtocolPaused)
    } else if amount <= 0 || collateral_amount <= 0 {
        Err(BorrowError::InvalidAmount)
    } else if amount < DUST_THRESHOLD {
        Err(BorrowError::AmountBelowMinimum)
    } else if amount < min_borrow_amount(s) {
        Err(BorrowError::BelowMinimumBorrow)
    } else if spec_collateral_check(collateral_amount, amount) is Err {
        Err(spec_collateral_check(collateral_amount, amount)->Err_0)
    } else if !in_i128(total_debt(s) + amount) {
        Err(BorrowError::Overflow)
    } else if total_debt(s) + amount > debt_ceiling(s) {
        Err(BorrowError::DebtCeilingReached)
    } else {
        Ok((total_debt(s) + amount) as i128)
    }
}

/// The user's position of `rate_type` in `asset`, marked with that rate type.
pub open spec fn operated_position(r: UserBorrowRecord, user: String, asset: String, rate_type: RateType, now: u64) -> DebtPosition {
    DebtPosition { rate_type: rate_type, ..spec_debt_position(r, user, Some(asset), rate_type, now) }
}

/// The settings after accruing interest on `p` (the stable average is recalculated when used).
pub open spec fn settings_after_accrual(s: BorrowSettings, p: DebtPosition, now: u64, variable_rate: Result<i128, BorrowError>) -> BorrowSettings {
    if accrual_refreshes_stable(p) { settings_after_refresh(s, now, variable_rate) } else { s }
}

/// The outcome of a borrow: the new settings, user record and receipt, or the error.
/// The position accrues its interest, grows by `amount`, is stamped `now`, takes `asset`
/// and, for the stable rate, the current stable rate; the collateral grows by
/// `collateral_amount` and takes `collateral_asset`; the total debt grows by `amount`.
pub open spec fn spec_borrow(
    s: BorrowSettings,
    r: UserBorrowRecord,
    user: String,
    asset: String,
    amount: i128,
    collateral_asset: String,
    collateral_amount: i128,
    rate_type: RateType,
    paused: bool,
    now: u64,
    variable_rate: Result<i128, BorrowError>,
    peg: Option<PegQuote>,
) -> Result<(BorrowSettings, UserBorrowRecord, BorrowReceipt), BorrowError> {
    match borrow_checks(s, amount, collateral_amount, paused) {
        Err(e) => Err(e),
        Ok(new_total) => {
            let p0 = operated_position(r, user, asset, rate_type, now);
            match spec_interest(s, p0, now, variable_rate, peg) {
                Err(e) => Err(e),
                Ok(acc) => {
                    let s1 = settings_after_accrual(s, p0, now, variable_rate);
                    if !in_i128(p0.borrowed_amount + amount) || !in_i128(p0.interest_accrued + acc) {
                        Err(BorrowError::Overflow)
                    } else {
                        let stable = if rate_type == RateType::Stable {
                            spec_current_stable_rate(s1, now, variable_rate)
                        } else {
                            Ok(p0.stable_rate_bps)
                        };
                        match stable {
                            Err(e) => Err(e),
                            Ok(sr) => {
                                let s2 = if rate_type == RateType::Stable {
                                    settings_after_refresh(s1, now, variable_rate)
                                } else {
                                    s1
                                };
                                let c0 = spec_collateral_position(r, user);
                                if !in_i128(c0.amount + collateral_amount) {
                                    Err(BorrowError::Overflow)
                                } else {
                                    let p1 = DebtPosition {
                                        borrowed_amount: (p0.borrowed_amount + amount) as i128,
                                        interest_accrued: (p0.interest_accrued + acc) as i128,
                                        last_update: now,
                                        asset: asset,
                                        rate_type: rate_type,
                                        stable_rate_bps: sr,
                                    };
                                    let r1 = record_after_save(r, user, p1, now);
                                    let c1 = BorrowCollateral {
                                        amount: (c0.amount + collateral_amount) as i128,
                                        asset: collateral_asset,
                                    };
                                    Ok((
                                        BorrowSettings { total_debt: Some(new_total), ..s2 },
                                        UserBorrowRecord { collateral: Some(c1), ..r1 },
                                        BorrowReceipt {
                                            new_total_debt: new_total,
                                            debt_ceiling: debt_ceiling(s),
                                            peg_event: spec_peg_event(s, p0, now, variable_rate, peg),
                                        },
                                    ))
                                }
                            },
                        }
                    }
                },
            }
        },
    }
}

/// Borrow `amount` of `asset` against `collateral_amount` of `collateral_asset` at the
/// given rate type (the caller holds the borrow lock and has the user's authorization;
/// `paused` is whether borrowing is paused).
pub fn borrow_with_rate(
    settings: &mut BorrowSettings,
    record: &mut UserBorrowRecord,
    user: &String,
    asset: &String,
    amount: i128,
    collateral_asset: &String,
    collateral_amount: i128,
    rate_type: RateType,
    paused: bool,
    now: u64,
    peg: Option<PegQuote>,
) -> (r: Result<BorrowReceipt, BorrowError>)
    requires
        borrow_checks(*old(settings), amount, collateral_amount, paused) is Ok ==> interest_defined(
            *old(settings),
            operated_position(*old(record), *user, *asset, rate_type, now),
            now,
            fixed_variable_rate(),
            peg,
        ),
    ensures
        match spec_borrow(*old(settings), *old(record), *user, *asset, amount, *collateral_asset,
            collateral_amount, rate_type, paused, now, fixed_variable_rate(), peg) {
            Ok((s2, r2, receipt)) => r == Ok::<BorrowReceipt, BorrowError>(receipt)
                && *final(settings) == s2 && *final(record) == r2,
            Err(e) => r == Err::<BorrowReceipt, BorrowError>(e)
                && *final(settings) == *old(settings) && *final(record) == *old(record),
        },
{
    if paused {
        return Err(BorrowError::ProtocolPaused);
    }
    if amount <= 0 || collateral_amount <= 0 {
        return Err(BorrowError::InvalidAmount);
    }
    if amount < DUST_THRESHOLD {
        return Err(BorrowError::AmountBelowMinimum);
    }
    let min_borrow = settings.min_borrow_amount.unwrap_or(DEFAULT_MIN_BORROW_AMOUNT);
    if amount < min_borrow {
        return Err(BorrowError::BelowMinimumBorrow);
    }
    validate_collateral_ratio(collateral_amount, amount)?;
    let total = settings.total_debt.unwrap_or(0);
    let ceiling = settings.debt_ceiling.unwrap_or(i128::MAX);
    let new_total = match total.checked_add(amount) {
        Some(v) => v,
        None => return Err(BorrowError::Overflow),
    };
    if new_total > ceiling {
        return Err(BorrowError::DebtCeilingReached);
    }
    let mut pos = get_debt_position(record, user, Some(asset), rate_type, now);
    pos.rate_type = rate_type;
    let ghost p0 = pos;
    let mut s = copy_settings(settings);
    let q = calculate_interest(&mut s, &pos, now, peg);
    let accrued = match q.result {
        Ok(a) => a,
        Err(e) => return Err(e),
    };
    pos.borrowed_amount = match pos.borrowed_amount.checked_add(amount) {
        Some(v) => v,
        None => return Err(BorrowError::Overflow),
    };
    pos.interest_accrued = match pos.interest_accrued.checked_add(accrued) {
        Some(v) => v,
        None => return Err(BorrowError::Overflow),
    };
    pos.last_update = now;
    pos.asset = asset.clone();
    if rate_type == RateType::Stable {
        pos.stable_rate_bps = get_current_stable_rate_bps(&mut s, now)?;
    }
    let mut coll = get_collateral_position(record, user);
    coll.amount = match coll.amount.checked_add(collateral_amount) {
        Some(v) => v,
        None => return Err(BorrowError::Overflow),
    };
    coll.asset = collateral_asset.clone();
    save_debt_position(record, user, pos, now);
    record.collateral = Some(coll);
    s.total_debt = Some(new_total);
    *settings = s;
    Ok(BorrowReceipt { new_total_debt: new_total, debt_ceiling: ceiling, peg_event: q.peg_event })
}

/// Borrow at the variable rate (see [`borrow_with_rate`]).
pub fn borrow(
    settings: &mut BorrowSettings,
    record: &mut UserBorrowRecord,
    user: &String,
    asset: &String,
    amount: i128,
    collateral_asset: &String,
    collateral_amount: i128,
    paused: bool,
    now: u64,
    peg: Option<PegQuote>,
) -> (r: Result<BorrowReceipt, BorrowError>)
    requires
        borrow_checks(*old(settings), amount, collateral_amount, paused) is Ok ==> interest_defined(
            *old(settings),
            operated_position(*old(record), *user, *asset, RateType::Variable, now),
            now,
            fixed_variable_rate(),
            peg,
        ),
    ensures
        match spec_borrow(*old(settings), *old(record), *user, *asset, amount, *collateral_asset,
            collateral_amount, RateType::Variable, paused, now, fixed_variable_rate(), peg) {
            Ok((s2, r2, receipt)) => r == Ok::<BorrowReceipt, BorrowError>(receipt)
                && *final(settings) == s2 && *final(record) == r2,
            Err(e) => r == Err::<BorrowReceipt, BorrowError>(e)
                && *final(settings) == *old(settings) && *final(record) == *old(record),
        },
{
    borrow_with_rate(settings, record, user, asset, amount, collateral_asset, collateral_amount,
        RateType::Variable, paused, now, peg)
}

// ─── Collateral deposit ──────────────────────────────────────────────────────

/// The outcome of depositing `amount` of `asset` as collateral: the record with the
/// collateral grown by `amount` (the asset is taken on the first deposit, and must match
/// afterwards).
pub open spec fn spec_deposit(r: UserBorrowRecord, user: String, asset: String, amount: i128) -> Result<UserBorrowRecord, BorrowError> {
    let c0 = spec_collateral_position(r, user);
    if amount <= 0 {
        Err(BorrowError::InvalidAmount)
    } else if amount < DUST_THRESHOLD {
        Err(BorrowError::AmountBelowMinimum)
    } else if c0.amount != 0 && c0.asset@ != asset@ {
        Err(BorrowError::AssetNotSupported)
    } else if !in_i128(c0.amount + amount) {
        Err(BorrowError::Overflow)
    } else {
        Ok(UserBorrowRecord {
            collateral: Some(BorrowCollateral {
                amount: (c0.amount + amount) as i128,
                asset: if c0.amount == 0 { asset } else { c0.asset },
            }),
            ..r
        })
    }
}

/// Deposit collateral (the caller holds the collateral-deposit lock).
pub fn deposit(record: &mut UserBorrowRecord, user: &String, asset: &String, amount: i128) -> (r: Result<(), BorrowError>)
    ensures
        match spec_deposit(*old(record), *user, *asset, amount) {
            Ok(r2) => r is Ok && *final(record) == r2,
            Err(e) => r == Err::<(), BorrowError>(e) && *final(record) == *old(record),
        },
{
    if amount <= 0 {
        return Err(BorrowError::InvalidAmount);
    }
    if amount < DUST_THRESHOLD {
        return Err(BorrowError::AmountBelowMinimum);
    }
    let mut coll = get_collateral_position(record, user);
    if coll.amount == 0 {
        coll.asset = asset.clone();
    } else if !(coll.asset == *asset) {
        return Err(BorrowError::AssetNotSupported);
    }
    coll.amount = match coll.amount.checked_add(amount) {
        Some(v) => v,
        None => return Err(BorrowError::Overflow),
    };
    record.collateral = Some(coll);
    Ok(())
}

// ─── Repay ───────────────────────────────────────────────────────────────────

/// Whether a position carries any debt, positive or not.
pub open spec fn nonzero_debt(p: DebtPosition) -> bool {
    p.borrowed_amount != 0 || p.interest_accrued != 0
}

/// The checks a repayment makes before accruing interest.
pub open spec fn repay_checks(p0: DebtPosition, asset: String, amount: i128) -> Result<(), BorrowError> {
    if amount <= 0 {
        Err(BorrowError::InvalidAmount)
    } else if !nonzero_debt(p0) {
        Err(BorrowError::InvalidAmount)
    } else if p0.asset@ != asset@ {
        Err(BorrowError::AssetNotSupported)
    } else {
        Ok(())
    }
}

/// The outcome of repaying `amount` on the user's position of `rate_type` in `asset`:
/// interest (with what accrued since the last update) is paid first, then principal;
/// the principal paid leaves the total protocol debt.
pub open spec fn spec_repay_with_rate(
    s: BorrowSettings,
    r: UserBorrowRecord,
    user: String,
    asset: String,
    amount: i128,
    rate_type: RateType,
    now: u64,
    variable_rate: Result<i128, BorrowError>,
    peg: Option<PegQuote>,
) -> Result<(BorrowSettings, UserBorrowRecord), BorrowError> {
    let p0 = operated_position(r, user, asset, rate_type, now);
    match repay_checks(p0, asset, amount) {
        Err(e) => Err(e),
        Ok(()) => match spec_interest(s, p0, now, variable_rate, peg) {
            Err(e) => Err(e),
            Ok(acc) => {
                let s1 = settings_after_accrual(s, p0, now, variable_rate);
                if !in_i128(p0.interest_accrued + acc) {
                    Err(BorrowError::Overflow)
                } else {
                    let interest = p0.interest_accrued + acc;
                    let interest_left = if amount >= interest { 0 } else { interest - amount };
                    let principal_paid = if amount >= interest { amount - interest } else { 0 };
                    if principal_paid > 0 && principal_paid > p0.borrowed_amount {
                        Err(BorrowError::RepayAmountTooHigh)
                    } else if principal_paid > 0 && !in_i128(total_debt(s) - principal_paid) {
                        Err(BorrowError::Overflow)
                    } else {
                        let s2 = if principal_paid > 0 {
                            BorrowSettings { total_debt: Some((total_debt(s) - principal_paid) as i128), ..s1 }
                        } else {
                            s1
                        };
                        let p1 = DebtPosition {
                            borrowed_amount: (p0.borrowed_amount - principal_paid) as i128,
                            interest_accrued: interest_left as i128,
                            last_update: now,
                            ..p0
                        };
                        Ok((s2, record_after_save(r, user, p1, now)))
                    }
                }
            },
        },
    }
}

/// The inputs on which a repayment stays within `i128` and 256-bit arithmetic.
pub open spec fn repay_defined(
    s: BorrowSettings,
    r: UserBorrowRecord,
    user: String,
    asset: String,
    amount: i128,
    rate_type: RateType,
    now: u64,
    variable_rate: Result<i128, BorrowError>,
    peg: Option<PegQuote>,
) -> bool {
    let p0 = operated_position(r, user, asset, rate_type, now);
    repay_checks(p0, asset, amount) is Ok ==> {
        &&& interest_defined(s, p0, now, variable_rate, peg)
        &&& match spec_interest(s, p0, now, variable_rate, peg) {
            Ok(acc) => in_i128(p0.interest_accrued + acc) && amount >= p0.interest_accrued + acc
                ==> in_i128(amount - (p0.interest_accrued + acc)),
            Err(_) => true,
        }
    }
}

/// Repay `amount` on the user's position of `rate_type` (the caller holds the repay lock).
pub fn repay_with_rate(
    settings: &mut BorrowSettings,
    record: &mut UserBorrowRecord,
    user: &String,
    asset: &String,
    amount: i128,
    rate_type: RateType,
    now: u64,
    peg: Option<PegQuote>,
) -> (r: Result<(), BorrowError>)
    requires
        repay_defined(*old(settings), *old(record), *user, *asset, amount, rate_type, now, fixed_variable_rate(), peg),
    ensures
        match spec_repay_with_rate(*old(settings), *old(record), *user, *asset, amount, rate_type, now, fixed_variable_rate(), peg) {
            Ok((s2, r2)) => r is Ok && *final(settings) == s2 && *final(record) == r2,
            Err(e) => r == Err::<(), BorrowError>(e)
                && *final(settings) == *old(settings) && *final(record) == *old(record),
        },
{
    if amount <= 0 {
        return Err(BorrowError::InvalidAmount);
    }
    let mut pos = get_debt_position(record, user, Some(asset), rate_type, now);
    pos.rate_type = rate_type;
    if pos.borrowed_amount == 0 && pos.interest_accrued == 0 {
        return Err(BorrowError::InvalidAmount);
    }
    if !(pos.asset == *asset) {
        return Err(BorrowError::AssetNotSupported);
    }
    let mut s = copy_settings(settings);
    let q = calculate_interest(&mut s, &pos, now, peg);
    let accrued = match q.result {
        Ok(a) => a,
        Err(e) => return Err(e),
    };
    pos.interest_accrued = match pos.interest_accrued.checked_add(accrued) {
        Some(v) => v,
        None => return Err(BorrowError::Overflow),
    };
    pos.last_update = now;
    let mut remaining = amount;
    if remaining >= pos.interest_accrued {
        remaining = remaining - pos.interest_accrued;
        pos.interest_accrued = 0;
    } else {
        pos.interest_accrued = pos.interest_accrued - remaining;
        remaining = 0;
    }
    if remaining > 0 {
        if remaining > pos.borrowed_amount {
            return Err(BorrowError::RepayAmountTooHigh);
        }
        pos.borrowed_amount = pos.borrowed_amount - remaining;
        let total = settings.total_debt.unwrap_or(0);
        let new_total = match total.checked_sub(remaining) {
            Some(v) => v,
            None => return Err(BorrowError::Overflow),
        };
        s.total_debt = Some(new_total);
    }
    save_debt_position(record, user, pos, now);
    *settings = s;
    Ok(())
}

/// The rate type a plain repayment applies to: the variable position when it carries
/// debt, else the stable one.
pub open spec fn spec_repay_rate_type(r: UserBorrowRecord, user: String, asset: String, now: u64) -> RateType {
    if has_debt(spec_debt_position(r, user, Some(asset), RateType::Variable, now)) {
        RateType::Variable
    } else {
        RateType::Stable
    }
}

/// The rate type a plain repayment applies to.
pub fn repay_rate_type(record: &UserBorrowRecord, user: &String, asset: &String, now: u64) -> (t: RateType)
    ensures
        t == spec_repay_rate_type(*record, *user, *asset, now),
{
    let variable = get_debt_position(record, user, Some(asset), RateType::Variable, now);
    if variable.borrowed_amount > 0 || variable.interest_accrued > 0 {
        RateType::Variable
    } else {
        RateType::Stable
    }
}

/// Repay borrowed assets on the variable position when it carries debt, else on the
/// stable one.
pub fn repay(
    settings: &mut BorrowSettings,
    record: &mut UserBorrowRecord,
    user: &String,
    asset: &String,
    amount: i128,
    now: u64,
    peg: Option<PegQuote>,
) -> (r: Result<(), BorrowError>)
    requires
        repay_defined(*old(settings), *old(record), *user, *asset, amount,
            spec_repay_rate_type(*old(record), *user, *asset, now), now, fixed_variable_rate(), peg),
    ensures
        match spec_repay_with_rate(*old(settings), *old(record), *user, *asset, amount,
            spec_repay_rate_type(*old(record), *user, *asset, now), now, fixed_variable_rate(), peg) {
            Ok((s2, r2)) => r is Ok && *final(settings) == s2 && *final(record) == r2,
            Err(e) => r == Err::<(), BorrowError>(e)
                && *final(settings) == *old(settings) && *final(record) == *old(record),
        },
{
    let rate_type = repay_rate_type(record, user, asset, now);
    repay_with_rate(settings, record, user, asset, amount, rate_type, now, peg)
}

// ─── Rate switch ─────────────────────────────────────────────────────────────

/// The other rate type.
pub open spec fn other_rate(t: RateType) -> RateType {
    if t == RateType::Variable { RateType::Stable } else { RateType::Variable }
}

/// The checks a rate switch makes before accruing interest: the source position carries
/// debt and the target position is empty.
pub open spec fn switch_checks(r: UserBorrowRecord, user: String, asset: String, to: RateType, now: u64) -> Result<(), BorrowError> {
    let f0 = operated_position(r, user, asset, other_rate(to), now);
    let t0 = operated_position(r, user, asset, to, now);
    if !nonzero_debt(f0) {
        Err(BorrowError::InvalidAmount)
    } else if nonzero_debt(t0) {
        Err(BorrowError::AssetNotSupported)
    } else {
        Ok(())
    }
}

/// The outcome of moving the user's debt in `asset` to the `to` rate type: the source
/// position accrues its interest and a switch fee of `fee_bps` of its principal, moves
/// whole into the target position (stamped `now`, in `asset`, at the current stable rate
/// for a stable target), and is left empty.
pub open spec fn spec_switch_rate_type(
    s: BorrowSettings,
    r: UserBorrowRecord,
    user: String,
    asset: String,
    to: RateType,
    now: u64,
    variable_rate: Result<i128, BorrowError>,
    peg: Option<PegQuote>,
) -> Result<(BorrowSettings, UserBorrowRecord), BorrowError> {
    let f0 = operated_position(r, user, asset, other_rate(to), now);
    let t0 = operated_position(r, user, asset, to, now);
    match switch_checks(r, user, asset, to, now) {
        Err(e) => Err(e),
        Ok(()) => match spec_interest(s, f0, now, variable_rate, peg) {
            Err(e) => Err(e),
            Ok(acc) => {
                let s1 = settings_after_accrual(s, f0, now, variable_rate);
                let fee_bps = s.rate_switch_fee_bps.unwrap_or(DEFAULT_SWITCH_FEE_BPS);
                if !in_i128(f0.interest_accrued + acc) || !in_i128(f0.borrowed_amount * fee_bps) {
                    Err(BorrowError::Overflow)
                } else {
                    let fee = trunc_div(f0.borrowed_amount * fee_bps, 10000);
                    let interest = f0.interest_accrued + acc + fee;
                    if !in_i128(interest) {
                        Err(BorrowError::Overflow)
                    } else {
                        let stable = if to == RateType::Stable {
                            spec_current_stable_rate(s1, now, variable_rate)
                        } else {
                            Ok(t0.stable_rate_bps)
                        };
                        match stable {
                            Err(e) => Err(e),
                            Ok(sr) => {
                                let s2 = if to == RateType::Stable {
                                    settings_after_refresh(s1, now, variable_rate)
                                } else {
                                    s1
                                };
                                let t1 = DebtPosition {
                                    borrowed_amount: f0.borrowed_amount,
                                    interest_accrued: interest as i128,
                                    last_update: now,
                                    asset: asset,
                                    rate_type: to,
                                    stable_rate_bps: sr,
                                };
                                let f1 = DebtPosition {
                                    borrowed_amount: 0,
                                    interest_accrued: 0,
                                    last_update: now,
                                    stable_rate_bps: 0,
                                    ..f0
                                };
                                let r1 = record_after_save(r, user, f1, now);
                                Ok((s2, record_after_save(r1, user, t1, now)))
                            },
                        }
                    }
                }
            },
        },
    }
}

/// Move the user's debt in `asset` to the `to` rate type (the caller holds the borrow
/// lock and has the user's authorization).
pub fn switch_rate_type(
    settings: &mut BorrowSettings,
    record: &mut UserBorrowRecord,
    user: &String,
    asset: &String,
    to_rate_type: RateType,
    now: u64,
    peg: Option<PegQuote>,
) -> (r: Result<(), BorrowError>)
    requires
        switch_checks(*old(record), *user, *asset, to_rate_type, now) is Ok ==> interest_defined(
            *old(settings),
            operated_position(*old(record), *user, *asset, other_rate(to_rate_type), now),
            now,
            fixed_variable_rate(),
            peg,
        ),
    ensures
        match spec_switch_rate_type(*old(settings), *old(record), *user, *asset, to_rate_type, now, fixed_variable_rate(), peg) {
            Ok((s2, r2)) => r is Ok && *final(settings) == s2 && *final(record) == r2,
            Err(e) => r == Err::<(), BorrowError>(e)
                && *final(settings) == *old(settings) && *final(record) == *old(record),
        },
{
    let from_rate_type = if to_rate_type == RateType::Variable { RateType::Stable } else { RateType::Variable };
    let mut from = get_debt_position(record, user, Some(asset), from_rate_type, now);
    from.rate_type = from_rate_type;
    if from.borrowed_amount == 0 && from.interest_accrued == 0 {
        return Err(BorrowError::InvalidAmount);
    }
    let mut to = get_debt_position(record, user, Some(asset), to_rate_type, now);
    to.rate_type = to_rate_type;
    if to.borrowed_amount != 0 || to.interest_accrued != 0 {
        return Err(BorrowError::AssetNotSupported);
    }
    let mut s = copy_settings(settings);
    let q = calculate_interest(&mut s, &from, now, peg);
    let accrued = match q.result {
        Ok(a) => a,
        Err(e) => return Err(e),
    };
    from.interest_accrued = match from.interest_accrued.checked_add(accrued) {
        Some(v) => v,
        None => return Err(BorrowError::Overflow),
    };
    from.last_update = now;
    let fee_bps = settings.rate_switch_fee_bps.unwrap_or(DEFAULT_SWITCH_FEE_BPS);
    let fee = match from.borrowed_amount.checked_mul(fee_bps) {
        Some(v) => div_pos(v, 10000),
        None => return Err(BorrowError::Overflow),
    };
    from.interest_accrued = match from.interest_accrued.checked_add(fee) {
        Some(v) => v,
        None => return Err(BorrowError::Overflow),
    };
    to.borrowed_amount = from.borrowed_amount;
    to.interest_accrued = from.interest_accrued;
    to.last_update = now;
    to.asset = asset.clone();
    if to_rate_type == RateType::Stable {
        to.stable_rate_bps = get_current_stable_rate_bps(&mut s, now)?;
    }
    from.borrowed_amount = 0;
    from.interest_accrued = 0;
    from.last_update = now;
    from.stable_rate_bps = 0;
    save_debt_position(record, user, from, now);
    save_debt_position(record, user, to, now);
    *settings = s;
    Ok(())
}

// ─── Dust ────────────────────────────────────────────────────────────────────

/// The outcome of sweeping the user's tracked dust: it leaves the variable position's
/// principal and the total protocol debt, and the tracking entry is cleared.
pub open spec fn spec_sweep_dust(s: BorrowSettings, r: UserBorrowRecord, user: String, asset: String, now: u64) -> Result<(BorrowSettings, UserBorrowRecord, i128), BorrowError> {
    let dust = r.dust.unwrap_or(0);
    let p0 = spec_debt_position(r, user, Some(asset), RateType::Variable, now);
    if dust < DUST_THRESHOLD {
        Err(BorrowError::NoDustToSweep)
    } else if !in_i128(p0.borrowed_amount - dust) || !in_i128(total_debt(s) - dust) {
        Err(BorrowError::Overflow)
    } else {
        let p1 = DebtPosition { borrowed_amount: (p0.borrowed_amount - dust) as i128, ..p0 };
        let r1 = record_after_save(r, user, p1, now);
        Ok((
            BorrowSettings { total_debt: Some((total_debt(s) - dust) as i128), ..s },
            UserBorrowRecord { dust: None, ..r1 },
            dust,
        ))
    }
}

/// Sweep dust from the user's debt position (the caller holds the borrow lock and has
/// the user's authorization); returns the amount swept.
pub fn sweep_dust(settings: &mut BorrowSettings, record: &mut UserBorrowRecord, user: &String, asset: &String, now: u64) -> (r: Result<i128, BorrowError>)
    ensures
        match spec_sweep_dust(*old(settings), *old(record), *user, *asset, now) {
            Ok((s2, r2, dust)) => r == Ok::<i128, BorrowError>(dust)
                && *final(settings) == s2 && *final(record) == r2,
            Err(e) => r == Err::<i128, BorrowError>(e)
                && *final(settings) == *old(settings) && *final(record) == *old(record),
        },
{
    let dust = record.dust.unwrap_or(0);
    if dust < DUST_THRESHOLD {
        return Err(BorrowError::NoDustToSweep);
    }
    let mut pos = get_debt_position(record, user, Some(asset), RateType::Variable, now);
    pos.borrowed_amount = match pos.borrowed_amount.checked_sub(dust) {
        Some(v) => v,
        None => return Err(BorrowError::Overflow),
    };
    let total = settings.total_debt.unwrap_or(0);
    let new_total = match total.checked_sub(dust) {
        Some(v) => v,
        None => return Err(BorrowError::Overflow),
    };
    save_debt_position(record, user, pos, now);
    record.dust = None;
    settings.total_debt = Some(new_total);
    Ok(dust)
}

/// Track dust accumulation: amounts strictly between 0 and the dust threshold are added
/// to the user's dust entry. With a threshold of one unit no integer amount qualifies,
/// so the record never changes.
pub fn track_dust(record: &mut UserBorrowRecord, dust: i128)
    ensures
        *final(record) == *old(record),
{
    if dust > 0 && dust < DUST_THRESHOLD {
        let current = record.dust.unwrap_or(0);
        let new_dust = match current.checked_add(dust) {
            Some(v) => v,
            None => current,
        };
        record.dust = Some(new_dust);
    }
}

// ─── Views ───────────────────────────────────────────────────────────────────

/// The position reported by [`get_user_debt`]: the variable one when it carries debt,
/// else the stable one.
pub open spec fn spec_user_debt_position(r: UserBorrowRecord, user: String, now: u64) -> DebtPosition {
    let v = spec_debt_position(r, user, None, RateType::Variable, now);
    if has_debt(v) { v } else { spec_debt_position(r, user, None, RateType::Stable, now) }
}

/// A position with its pending interest added for display: saturating, `i128::MAX` when
/// the accrual overflows, unchanged when it cannot be computed.
pub open spec fn with_pending_interest(p: DebtPosition, accrued: Result<i128, BorrowError>) -> DebtPosition {
    match accrued {
        Ok(a) => DebtPosition { interest_accrued: clamp_i128(p.interest_accrued + a) as i128, ..p },
        Err(BorrowError::Overflow) => DebtPosition { interest_accrued: i128::MAX, ..p },
        Err(_) => p,
    }
}

fn add_pending_interest(p: DebtPosition, accrued: Result<i128, BorrowError>) -> (r: DebtPosition)
    ensures
        r == with_pending_interest(p, accrued),
{
    let mut p = p;
    match accrued {
        Ok(a) => {
            p.interest_accrued = sat_add(p.interest_accrued, a);
        },
        Err(BorrowError::Overflow) => {
            p.interest_accrued = i128::MAX;
        },
        Err(_) => {},
    }
    p
}

/// The user's debt position with its pending interest, and the depeg seen while
/// computing it.
pub fn get_user_debt(
    settings: &mut BorrowSettings,
    record: &UserBorrowRecord,
    user: &String,
    now: u64,
    peg: Option<PegQuote>,
) -> (r: (DebtPosition, Option<PegDeviation>))
    requires
        interest_defined(*old(settings), spec_user_debt_position(*record, *user, now), now, fixed_variable_rate(), peg),
    ensures
        r.0 == with_pending_interest(
            spec_user_debt_position(*record, *user, now),
            spec_interest(*old(settings), spec_user_debt_position(*record, *user, now), now, fixed_variable_rate(), peg),
        ),
        r.1 == spec_peg_event(*old(settings), spec_user_debt_position(*record, *user, now), now, fixed_variable_rate(), peg),
        *final(settings) == settings_after_accrual(*old(settings), spec_user_debt_position(*record, *user, now), now, fixed_variable_rate()),
{
    let variable = get_debt_position(record, user, None, RateType::Variable, now);
    let position = if variable.borrowed_amount > 0 || variable.interest_accrued > 0 {
        variable
    } else {
        get_debt_position(record, user, None, RateType::Stable, now)
    };
    let q = calculate_interest(settings, &position, now, peg);
    (add_pending_interest(position, q.result), q.peg_event)
}

/// The user's position of `rate_type` with its pending interest, and the depeg seen
/// while computing it.
pub fn get_user_debt_with_rate(
    settings: &mut BorrowSettings,
    record: &UserBorrowRecord,
    user: &String,
    rate_type: RateType,
    now: u64,
    peg: Option<PegQuote>,
) -> (r: (DebtPosition, Option<PegDeviation>))
    requires
        interest_defined(*old(settings), spec_debt_position(*record, *user, None, rate_type, now), now, fixed_variable_rate(), peg),
    ensures
        r.0 == with_pending_interest(
            spec_debt_position(*record, *user, None, rate_type, now),
            spec_interest(*old(settings), spec_debt_position(*record, *user, None, rate_type, now), now, fixed_variable_rate(), peg),
        ),
        r.1 == spec_peg_event(*old(settings), spec_debt_position(*record, *user, None, rate_type, now), now, fixed_variable_rate(), peg),
        *final(settings) == settings_after_accrual(*old(settings), spec_debt_position(*record, *user, None, rate_type, now), now, fixed_variable_rate()),
{
    let position = get_debt_position(record, user, None, rate_type, now);
    let q = calculate_interest(settings, &position, now, peg);
    (add_pending_interest(position, q.result), q.peg_event)
}

// ─── Decisions for the host ──────────────────────────────────────────────────

/// The checks a borrow makes before it reads the user's position (see [`borrow_checks`]).
pub fn borrow_precheck(settings: &BorrowSettings, amount: i128, collateral_amount: i128, paused: bool) -> (r: Result<i128, BorrowError>)
    ensures
        r == borrow_checks(*settings, amount, collateral_amount, paused),
{
    if paused {
        return Err(BorrowError::ProtocolPaused);
    }
    if amount <= 0 || collateral_amount <= 0 {
        return Err(BorrowError::InvalidAmount);
    }
    if amount < DUST_THRESHOLD {
        return Err(BorrowError::AmountBelowMinimum);
    }
    if amount < settings.min_borrow_amount.unwrap_or(DEFAULT_MIN_BORROW_AMOUNT) {
        return Err(BorrowError::BelowMinimumBorrow);
    }
    validate_collateral_ratio(collateral_amount, amount)?;
    let total = settings.total_debt.unwrap_or(0);
    let new_total = match total.checked_add(amount) {
        Some(v) => v,
        None => return Err(BorrowError::Overflow),
    };
    if new_total > settings.debt_ceiling.unwrap_or(i128::MAX) {
        return Err(BorrowError::DebtCeilingReached);
    }
    Ok(new_total)
}

/// The checks a repayment makes before accruing interest, on the position it applies to.
pub fn repay_precheck(position: &DebtPosition, asset: &String, amount: i128) -> (r: Result<(), BorrowError>)
    ensures
        r == repay_checks(*position, *asset, amount),
{
    if amount <= 0 {
        return Err(BorrowError::InvalidAmount);
    }
    if position.borrowed_amount == 0 && position.interest_accrued == 0 {
        return Err(BorrowError::InvalidAmount);
    }
    if !(position.asset == *asset) {
        return Err(BorrowError::AssetNotSupported);
    }
    Ok(())
}

/// The checks a rate switch makes before accruing interest.
pub fn switch_precheck(record: &UserBorrowRecord, user: &String, asset: &String, to_rate_type: RateType, now: u64) -> (r: Result<(), BorrowError>)
    ensures
        r == switch_checks(*record, *user, *asset, to_rate_type, now),
{
    let from_rate_type = if to_rate_type == RateType::Variable { RateType::Stable } else { RateType::Variable };
    let mut from = get_debt_position(record, user, Some(asset), from_rate_type, now);
    from.rate_type = from_rate_type;
    if from.borrowed_amount == 0 && from.interest_accrued == 0 {
        return Err(BorrowError::InvalidAmount);
    }
    let mut to = get_debt_position(record, user, Some(asset), to_rate_type, now);
    to.rate_type = to_rate_type;
    if to.borrowed_amount != 0 || to.interest_accrued != 0 {
        return Err(BorrowError::AssetNotSupported);
    }
    Ok(())
}

/// Whether accruing interest on `position` asks the oracle for the asset's price: the
/// position carries principal, its rate can be determined, and both a stablecoin
/// configuration for its asset and an oracle are stored.
pub fn needs_oracle_price(
    settings: &BorrowSettings,
    position: &DebtPosition,
    now: u64,
    has_config: bool,
) -> (b: bool)
    ensures
        b == (position.borrowed_amount != 0
            && spec_position_rate(*settings, *position, now, fixed_variable_rate()) is Ok
            && has_config && settings.oracle is Some),
{
    if position.borrowed_amount == 0 || !has_config || settings.oracle.is_none() {
        return false;
    }
    let mut scratch = copy_settings(settings);
    position_rate(&mut scratch, position, now).is_ok()
}

/// Whether a repayment would leave `i128` or 256-bit arithmetic (where the host traps).
pub fn repay_would_trap(
    settings: &BorrowSettings,
    record: &UserBorrowRecord,
    user: &String,
    asset: &String,
    amount: i128,
    rate_type: RateType,
    now: u64,
    peg: Option<PegQuote>,
) -> (b: bool)
    ensures
        b == !repay_defined(*settings, *record, *user, *asset, amount, rate_type, now, fixed_variable_rate(), peg),
{
    let mut pos = get_debt_position(record, user, Some(asset), rate_type, now);
    pos.rate_type = rate_type;
    if repay_precheck(&pos, asset, amount).is_err() {
        return false;
    }
    if interest_would_trap(settings, &pos, now, peg) {
        return true;
    }
    let mut scratch = copy_settings(settings);
    let q = calculate_interest(&mut scratch, &pos, now, peg);
    match q.result {
        Ok(acc) => match pos.interest_accrued.checked_add(acc) {
            Some(interest) => amount >= interest && amount.checked_sub(interest).is_none(),
            None => false,
        },
        Err(_) => false,
    }
}

// ─── Guarded operations ──────────────────────────────────────────────────────
//
// Each operation runs under its reentrancy lock: entered while the lock (or the invoking
// contract's lock) is held, it is refused with `ReentrancyDetected` and changes nothing;
// otherwise it does what the unguarded operation does, and the lock is given back, so the
// held locks are as before either way.

/// Borrow under the borrow lock (see [`borrow_with_rate`]).
pub fn borrow_guarded(
    locks: &mut LockTable,
    invoker: Option<String>,
    settings: &mut BorrowSettings,
    record: &mut UserBorrowRecord,
    user: &String,
    asset: &String,
    amount: i128,
    collateral_asset: &String,
    collateral_amount: i128,
    rate_type: RateType,
    paused: bool,
    now: u64,
    peg: Option<PegQuote>,
) -> (r: Result<BorrowReceipt, BorrowError>)
    requires
        spec_enter(old(locks).names(), ReentrancyKey::BorrowLock, invoker) is Ok
            && borrow_checks(*old(settings), amount, collateral_amount, paused) is Ok ==> interest_defined(
            *old(settings),
            operated_position(*old(record), *user, *asset, rate_type, now),
            now,
            fixed_variable_rate(),
            peg,
        ),
    ensures
        final(locks).names() == old(locks).names(),
        spec_enter(old(locks).names(), ReentrancyKey::BorrowLock, invoker) is Err
            ==> r == Err::<BorrowReceipt, BorrowError>(BorrowError::ReentrancyDetected)
            && *final(settings) == *old(settings) && *final(record) == *old(record),
        spec_enter(old(locks).names(), ReentrancyKey::BorrowLock, invoker) is Ok
            ==> match spec_borrow(*old(settings), *old(record), *user, *asset, amount, *collateral_asset,
            collateral_amount, rate_type, paused, now, fixed_variable_rate(), peg) {
            Ok((s2, r2, receipt)) => r == Ok::<BorrowReceipt, BorrowError>(receipt)
                && *final(settings) == s2 && *final(record) == r2,
            Err(e) => r == Err::<BorrowReceipt, BorrowError>(e)
                && *final(settings) == *old(settings) && *final(record) == *old(record),
        },
{
    let ghost held = old(locks).names();
    let ghost inv = invoker;
    let guard = match ReentrancyGuard::new_with_key(locks, ReentrancyKey::BorrowLock, false, invoker) {
        Ok(g) => g,
        Err(_) => return Err(BorrowError::ReentrancyDetected),
    };
    let r = borrow_with_rate(settings, record, user, asset, amount, collateral_asset, collateral_amount,
        rate_type, paused, now, peg);
    guard.release(locks);
    proof {
        lemma_release_restores(held, ReentrancyKey::BorrowLock, inv);
    }
    r
}

/// Deposit collateral under the collateral-deposit lock (see [`deposit`]).
pub fn deposit_guarded(
    locks: &mut LockTable,
    invoker: Option<String>,
    record: &mut UserBorrowRecord,
    user: &String,
    asset: &String,
    amount: i128,
) -> (r: Result<(), BorrowError>)
    ensures
        final(locks).names() == old(locks).names(),
        spec_enter(old(locks).names(), ReentrancyKey::DepositCollateralLock, invoker) is Err
            ==> r == Err::<(), BorrowError>(BorrowError::ReentrancyDetected) && *final(record) == *old(record),
        spec_enter(old(locks).names(), ReentrancyKey::DepositCollateralLock, invoker) is Ok
            ==> match spec_deposit(*old(record), *user, *asset, amount) {
            Ok(r2) => r is Ok && *final(record) == r2,
            Err(e) => r == Err::<(), BorrowError>(e) && *final(record) == *old(record),
        },
{
    let ghost held = old(locks).names();
    let ghost inv = invoker;
    let guard = match ReentrancyGuard::new_with_key(locks, ReentrancyKey::DepositCollateralLock, false, invoker) {
        Ok(g) => g,
        Err(_) => return Err(BorrowError::ReentrancyDetected),
    };
    let r = deposit(record, user, asset, amount);
    guard.release(locks);
    proof {
        lemma_release_restores(held, ReentrancyKey::DepositCollateralLock, inv);
    }
    r
}

/// Repay under the repay lock (see [`repay_with_rate`]).
pub fn repay_guarded(
    locks: &mut LockTable,
    invoker: Option<String>,
    settings: &mut BorrowSettings,
    record: &mut UserBorrowRecord,
    user: &String,
    asset: &String,
    amount: i128,
    rate_type: RateType,
    now: u64,
    peg: Option<PegQuote>,
) -> (r: Result<(), BorrowError>)
    requires
        spec_enter(old(locks).names(), ReentrancyKey::RepayLock, invoker) is Ok ==> repay_defined(
            *old(settings), *old(record), *user, *asset, amount, rate_type, now, fixed_variable_rate(), peg),
    ensures
        final(locks).names() == old(locks).names(),
        spec_enter(old(locks).names(), ReentrancyKey::RepayLock, invoker) is Err
            ==> r == Err::<(), BorrowError>(BorrowError::ReentrancyDetected)
            && *final(settings) == *old(settings) && *final(record) == *old(record),
        spec_enter(old(locks).names(), ReentrancyKey::RepayLock, invoker) is Ok
            ==> match spec_repay_with_rate(*old(settings), *old(record), *user, *asset, amount, rate_type, now,
            fixed_variable_rate(), peg) {
            Ok((s2, r2)) => r is Ok && *final(settings) == s2 && *final(record) == r2,
            Err(e) => r == Err::<(), BorrowError>(e)
                && *final(settings) == *old(settings) && *final(record) == *old(record),
        },
{
    let ghost held = old(locks).names();
    let ghost inv = invoker;
    let guard = match ReentrancyGuard::new_with_key(locks, ReentrancyKey::RepayLock, false, invoker) {
        Ok(g) => g,
        Err(_) => return Err(BorrowError::ReentrancyDetected),
    };
    let r = repay_with_rate(settings, record, user, asset, amount, rate_type, now, peg);
    guard.release(locks);
    proof {
        lemma_release_restores(held, ReentrancyKey::RepayLock, inv);
    }
    r
}

/// Switch the rate type under the borrow lock (see [`switch_rate_type`]).
pub fn switch_rate_type_guarded(
    locks: &mut LockTable,
    invoker: Option<String>,
    settings: &mut BorrowSettings,
    record: &mut UserBorrowRecord,
    user: &String,
    asset: &String,
    to_rate_type: RateType,
    now: u64,
    peg: Option<PegQuote>,
) -> (r: Result<(), BorrowError>)
    requires
        spec_enter(old(locks).names(), ReentrancyKey::BorrowLock, invoker) is Ok
            && switch_checks(*old(record), *user, *asset, to_rate_type, now) is Ok ==> interest_defined(
            *old(settings),
            operated_position(*old(record), *user, *asset, other_rate(to_rate_type), now),
            now,
            fixed_variable_rate(),
            peg,
        ),
    ensures
        final(locks).names() == old(locks).names(),
        spec_enter(old(locks).names(), ReentrancyKey::BorrowLock, invoker) is Err
            ==> r == Err::<(), BorrowError>(BorrowError::ReentrancyDetected)
            && *final(settings) == *old(settings) && *final(record) == *old(record),
        spec_enter(old(locks).names(), ReentrancyKey::BorrowLock, invoker) is Ok
            ==> match spec_switch_rate_type(*old(settings), *old(record), *user, *asset, to_rate_type, now,
            fixed_variable_rate(), peg) {
            Ok((s2, r2)) => r is Ok && *final(settings) == s2 && *final(record) == r2,
            Err(e) => r == Err::<(), BorrowError>(e)
                && *final(settings) == *old(settings) && *final(record) == *old(record),
        },
{
    let ghost held = old(locks).names();
    let ghost inv = invoker;
    let guard = match ReentrancyGuard::new_with_key(locks, ReentrancyKey::BorrowLock, false, invoker) {
        Ok(g) => g,
        Err(_) => return Err(BorrowError::ReentrancyDetected),
    };
    let r = switch_rate_type(settings, record, user, asset, to_rate_type, now, peg);
    guard.release(locks);
    proof {
        lemma_release_restores(held, ReentrancyKey::BorrowLock, inv);
    }
    r
}

/// Sweep dust under the borrow lock (see [`sweep_dust`]).
pub fn sweep_dust_guarded(
    locks: &mut LockTable,
    invoker: Option<String>,
    settings: &mut BorrowSettings,
    record: &mut UserBorrowRecord,
    user: &String,
    asset: &String,
    now: u64,
) -> (r: Result<i128, BorrowError>)
    ensures
        final(locks).names() == old(locks).names(),
        spec_enter(old(locks).names(), ReentrancyKey::BorrowLock, invoker) is Err
            ==> r == Err::<i128, BorrowError>(BorrowError::ReentrancyDetected)
            && *final(settings) == *old(settings) && *final(record) == *old(record),
        spec_enter(old(locks).names(), ReentrancyKey::BorrowLock, invoker) is Ok
            ==> match spec_sweep_dust(*old(settings), *old(record), *user, *asset, now) {
            Ok((s2, r2, dust)) => r == Ok::<i128, BorrowError>(dust)
                && *final(settings) == s2 && *final(record) == r2,
            Err(e) => r == Err::<i128, BorrowError>(e)
                && *final(settings) == *old(settings) && *final(record) == *old(record),
        },
{
    let ghost held = old(locks).names();
    let ghost inv = invoker;
    let guard = match ReentrancyGuard::new_with_key(locks, ReentrancyKey::BorrowLock, false, invoker) {
        Ok(g) => g,
        Err(_) => return Err(BorrowError::ReentrancyDetected),
    };
    let r = sweep_dust(settings, record, user, asset, now);
    guard.release(locks);
    proof {
        lemma_release_restores(held, ReentrancyKey::BorrowLock, inv);
    }
    r
}

// ─── Laws ────────────────────────────────────────────────────────────────────

/// Interest is rounded down in the borrower's favour: for a non-negative principal, rate
/// and elapsed time, the accrued interest times the divisor never exceeds
/// principal * rate * elapsed, and falls short of it by less than one divisor.
pub proof fn lemma_accrual_rounds_down(principal: int, rate_bps: int, elapsed: int)
    requires
        principal >= 0,
        rate_bps >= 0,
        elapsed >= 0,
    ensures
        accrual(principal, rate_bps, elapsed) * INTEREST_DIVISOR <= principal * rate_bps * elapsed,
        principal * rate_bps * elapsed < (accrual(principal, rate_bps, elapsed) + 1) * INTEREST_DIVISOR,
{
    let p = principal * rate_bps * elapsed;
    assert(p >= 0) by (nonlinear_arith)
        requires principal >= 0, rate_bps >= 0, elapsed >= 0, p == principal * rate_bps * elapsed;
    let d = INTEREST_DIVISOR as int;
    vstd::arithmetic::div_mod::lemma_fundamental_div_mod(p, d);
    vstd::arithmetic::div_mod::lemma_mod_bound(p, d);
    assert((p / d) * d <= p < (p / d + 1) * d) by (nonlinear_arith)
        requires p == d * (p / d) + p % d, 0 <= p % d < d;
}

/// Interest never decreases as time passes, for a non-negative principal and rate.
pub proof fn lemma_accrual_monotone_in_time(principal: int, rate_bps: int, earlier: int, later: int)
    requires
        principal >= 0,
        rate_bps >= 0,
        0 <= earlier <= later,
    ensures
        accrual(principal, rate_bps, earlier) <= accrual(principal, rate_bps, later),
{
    assert(principal * rate_bps * earlier <= principal * rate_bps * later) by (nonlinear_arith)
        requires principal >= 0, rate_bps >= 0, earlier <= later;
    assert(principal * rate_bps * earlier >= 0) by (nonlinear_arith)
        requires principal >= 0, rate_bps >= 0, earlier >= 0;
    vstd::arithmetic::div_mod::lemma_div_is_ordered(
        principal * rate_bps * earlier,
        principal * rate_bps * later,
        INTEREST_DIVISOR as int,
    );
}

/// A successful borrow is backed by 150% collateral and stays under the debt ceiling: the
/// collateral deposited with it is at least 1.5 times the amount (exactly), the total
/// protocol debt grows by exactly the amount and does not exceed the ceiling, the user's
/// collateral grows by exactly the collateral amount, and the position's principal grows
/// by exactly the amount; the interest accrued on the position since its last update is
/// added to it before it is stamped with the ledger time, so principal plus interest grows
/// by exactly the amount plus that interest.
pub proof fn lemma_borrow_backed_and_capped(
    s: BorrowSettings,
    r: UserBorrowRecord,
    user: String,
    asset: String,
    amount: i128,
    collateral_asset: String,
    collateral_amount: i128,
    rate_type: RateType,
    paused: bool,
    now: u64,
    variable_rate: Result<i128, BorrowError>,
    peg: Option<PegQuote>,
)
    requires
        spec_borrow(s, r, user, asset, amount, collateral_asset, collateral_amount, rate_type, paused, now, variable_rate, peg) is Ok,
    ensures
        ({
            let (s2, r2, receipt) = spec_borrow(s, r, user, asset, amount, collateral_asset, collateral_amount,
                rate_type, paused, now, variable_rate, peg)->Ok_0;
            &&& amount > 0
            &&& !paused
            &&& collateral_amount * 10000 >= amount * COLLATERAL_RATIO_MIN
            &&& total_debt(s2) == total_debt(s) + amount
            &&& total_debt(s2) <= debt_ceiling(s)
            &&& receipt.new_total_debt == total_debt(s2)
            &&& spec_collateral_position(r2, user).amount == spec_collateral_position(r, user).amount + collateral_amount
            &&& stored_position(r2, rate_type) is Some
            &&& stored_position(r2, rate_type)->0.borrowed_amount
                == operated_position(r, user, asset, rate_type, now).borrowed_amount + amount
            &&& stored_position(r2, rate_type)->0.interest_accrued
                == operated_position(r, user, asset, rate_type, now).interest_accrued
                    + spec_interest(s, operated_position(r, user, asset, rate_type, now), now, variable_rate, peg)->Ok_0
            &&& stored_position(r2, rate_type)->0.borrowed_amount + stored_position(r2, rate_type)->0.interest_accrued
                == operated_position(r, user, asset, rate_type, now).borrowed_amount
                    + operated_position(r, user, asset, rate_type, now).interest_accrued + amount
                    + spec_interest(s, operated_position(r, user, asset, rate_type, now), now, variable_rate, peg)->Ok_0
            &&& stored_position(r2, rate_type)->0.last_update == now
            &&& stored_position(r2, rate_type)->0.asset == asset
        }),
{
}

/// Repayment pays interest before principal: after a successful repayment the debt
/// (principal plus interest) is what it was, plus the interest accrued, minus the amount
/// paid; the principal only shrinks once no interest is left; and the total protocol debt
/// shrinks by exactly the principal repaid.
pub proof fn lemma_repay_interest_first(
    s: BorrowSettings,
    r: UserBorrowRecord,
    user: String,
    asset: String,
    amount: i128,
    rate_type: RateType,
    now: u64,
    variable_rate: Result<i128, BorrowError>,
    peg: Option<PegQuote>,
)
    requires
        spec_repay_with_rate(s, r, user, asset, amount, rate_type, now, variable_rate, peg) is Ok,
    ensures
        ({
            let (s2, r2) = spec_repay_with_rate(s, r, user, asset, amount, rate_type, now, variable_rate, peg)->Ok_0;
            let p0 = operated_position(r, user, asset, rate_type, now);
            let acc = spec_interest(s, p0, now, variable_rate, peg)->Ok_0;
            let p1 = stored_position(r2, rate_type)->0;
            &&& stored_position(r2, rate_type) is Some
            &&& p1.borrowed_amount + p1.interest_accrued == p0.borrowed_amount + p0.interest_accrued + acc - amount
            &&& p1.interest_accrued >= 0
            &&& p1.borrowed_amount < p0.borrowed_amount ==> p1.interest_accrued == 0
            &&& p1.borrowed_amount >= 0 || p1.borrowed_amount == p0.borrowed_amount
            &&& total_debt(s2) == total_debt(s) - (p0.borrowed_amount - p1.borrowed_amount)
        }),
{
}

/// A rate switch moves the whole debt: the target position takes the source's principal,
/// and its interest is the source's interest plus what accrued plus the switch fee
/// (principal * fee_bps / 10000, rounded toward zero); the target is stamped with the
/// ledger time, so no interest accrues on the moved debt for time before the switch; the
/// source is left empty.
pub proof fn lemma_switch_moves_debt(
    s: BorrowSettings,
    r: UserBorrowRecord,
    user: String,
    asset: String,
    to: RateType,
    now: u64,
    variable_rate: Result<i128, BorrowError>,
    peg: Option<PegQuote>,
)
    requires
        spec_switch_rate_type(s, r, user, asset, to, now, variable_rate, peg) is Ok,
    ensures
        ({
            let (s2, r2) = spec_switch_rate_type(s, r, user, asset, to, now, variable_rate, peg)->Ok_0;
            let f0 = operated_position(r, user, asset, other_rate(to), now);
            let acc = spec_interest(s, f0, now, variable_rate, peg)->Ok_0;
            let fee_bps = s.rate_switch_fee_bps.unwrap_or(DEFAULT_SWITCH_FEE_BPS);
            &&& stored_position(r2, to) is Some
            &&& stored_position(r2, other_rate(to)) is Some
            &&& stored_position(r2, to)->0.borrowed_amount == f0.borrowed_amount
            &&& stored_position(r2, to)->0.interest_accrued
                == f0.interest_accrued + acc + trunc_div(f0.borrowed_amount * fee_bps, 10000)
            &&& stored_position(r2, to)->0.asset == asset
            &&& stored_position(r2, to)->0.last_update == now
            &&& stored_position(r2, to)->0.rate_type == to
            &&& !nonzero_debt(stored_position(r2, other_rate(to))->0)
            &&& total_debt(s2) == total_debt(s)
        }),
{
    let (s2, r2) = spec_switch_rate_type(s, r, user, asset, to, now, variable_rate, peg)->Ok_0;
    let f0 = operated_position(r, user, asset, other_rate(to), now);
    let s1 = settings_after_accrual(s, f0, now, variable_rate);
    assert(total_debt(s1) == total_debt(s));
}

/// The legacy single-position entry always mirrors the live positions: after any
/// position is stored, it is the variable position when that carries debt, else the
/// stable position.
pub proof fn lemma_legacy_entry_mirrors(r: UserBorrowRecord, user: String, p: DebtPosition, now: u64)
    ensures
        ({
            let r2 = record_after_save(r, user, p, now);
            &&& r2.legacy_debt is Some
            &&& (r2.variable_debt is Some && has_debt(r2.variable_debt->0)) ==> r2.legacy_debt == r2.variable_debt
            &&& !(r2.variable_debt is Some && has_debt(r2.variable_debt->0)) && r2.stable_debt is Some
                ==> r2.legacy_debt == r2.stable_debt
        }),
{
}

/// Repaying right away undoes a borrow: when a user with no variable-rate debt in `asset`
/// borrows `amount` at the variable rate and repays `amount` at the same ledger time,
/// the position's principal and interest are back to zero and the total protocol debt
/// is back to what it was.
pub proof fn lemma_repay_undoes_borrow(
    s: BorrowSettings,
    r: UserBorrowRecord,
    user: String,
    asset: String,
    amount: i128,
    collateral_asset: String,
    collateral_amount: i128,
    now: u64,
    rate: i128,
    peg: Option<PegQuote>,
)
    requires
        spec_borrow(s, r, user, asset, amount, collateral_asset, collateral_amount, RateType::Variable,
            false, now, Ok(rate), peg) is Ok,
        !nonzero_debt(operated_position(r, user, asset, RateType::Variable, now)),
    ensures
        ({
            let (s2, r2, receipt) = spec_borrow(s, r, user, asset, amount, collateral_asset, collateral_amount,
                RateType::Variable, false, now, Ok(rate), peg)->Ok_0;
            let repaid = spec_repay_with_rate(s2, r2, user, asset, amount, RateType::Variable, now, Ok(rate), peg);
            &&& repaid is Ok
            &&& stored_position(repaid->Ok_0.1, RateType::Variable) is Some
            &&& stored_position(repaid->Ok_0.1, RateType::Variable)->0.borrowed_amount == 0
            &&& stored_position(repaid->Ok_0.1, RateType::Variable)->0.interest_accrued == 0
            &&& total_debt(repaid->Ok_0.0) == total_debt(s)
        }),
{
    let (s2, r2, receipt) = spec_borrow(s, r, user, asset, amount, collateral_asset, collateral_amount,
        RateType::Variable, false, now, Ok(rate), peg)->Ok_0;
    let p0 = operated_position(r, user, asset, RateType::Variable, now);
    let p1 = stored_position(r2, RateType::Variable)->0;
    assert(r2.variable_debt is Some);
    assert(spec_debt_position(r2, user, Some(asset), RateType::Variable, now) == p1);
    assert(operated_position(r2, user, asset, RateType::Variable, now) == p1);
    assert(elapsed_since(p1, now) == 0);
    assert(p1.borrowed_amount * rate * 0 == 0);
    assert(accrual(p1.borrowed_amount as int, rate as int, 0) == 0);
    match peg {
        Some(q) => {
            assert(p1.borrowed_amount * q.config.stability_fee_bps * 0 == 0);
            assert(accrual(p1.borrowed_amount as int, q.config.stability_fee_bps as int, 0) == 0);
        },
        None => {},
    }
    assert(spec_interest(s2, p1, now, Ok(rate), peg) == Ok::<i128, BorrowError>(0));
}

/// Recalculating the stable average twice at the same ledger time changes nothing the
/// second time: the first recalculation stamps the state with that time.
pub proof fn lemma_refresh_idempotent(s: BorrowSettings, now: u64, variable_rate: Result<i128, BorrowError>)
    ensures
        settings_after_refresh(settings_after_refresh(s, now, variable_rate), now, variable_rate)
            == settings_after_refresh(s, now, variable_rate),
        refreshed_stable_state(settings_after_refresh(s, now, variable_rate), now, variable_rate)
            == refreshed_stable_state(s, now, variable_rate),
{
}

/// The stable average moves toward the current variable rate: one smoothing step lands
/// between the old average and the current rate (inclusive).
pub proof fn lemma_smoothing_between(avg: i128, current: i128)
    ensures
        ({
            let lo = if avg <= current { avg } else { current };
            let hi = if avg <= current { current } else { avg };
            lo <= smoothed_average(avg, current) <= hi
        }),
{
    if in_i128(avg * 9) && in_i128(avg * 9 + current) {
        let n = avg * 9 + current;
        let lo: int = if avg <= current { avg as int } else { current as int };
        let hi: int = if avg <= current { current as int } else { avg as int };
        assert(10 * lo <= n <= 10 * hi);
        if n >= 0 {
            vstd::arithmetic::div_mod::lemma_fundamental_div_mod(n, 10);
            vstd::arithmetic::div_mod::lemma_mod_bound(n, 10);
            assert(trunc_div(n, 10) == n / 10);
        } else {
            vstd::arithmetic::div_mod::lemma_fundamental_div_mod(-n, 10);
            vstd::arithmetic::div_mod::lemma_mod_bound(-n, 10);
            assert(trunc_div(n, 10) == -((-n) / 10));
        }
    }
}


/// Interest is simple interest at the position's rate: the fixed 5% for variable-rate
/// debt, the position's own rate for stable-rate debt that has one. Without a stability
/// fee it is `principal * rate * elapsed / (10000 * 31536000)` (that is, / 315360000000)
/// rounded toward zero, where
/// `elapsed` is the time since the last update (none when that lies in the future), and
/// `Overflow` when that does not fit an `i128`.
pub proof fn lemma_interest_formula(s: BorrowSettings, p: DebtPosition, now: u64)
    requires
        p.rate_type == RateType::Variable || p.stable_rate_bps > 0,
    ensures
        ({
            let rate: int = if p.rate_type == RateType::Variable { 500 } else { p.stable_rate_bps as int };
            let elapsed: int = if now >= p.last_update { now - p.last_update } else { 0 };
            let i = trunc_div(p.borrowed_amount * rate * elapsed, 315_360_000_000int);
            spec_interest(s, p, now, fixed_variable_rate(), None)
                == if i128::MIN <= i <= i128::MAX { Ok::<i128, BorrowError>(i as i128) } else { Err(BorrowError::Overflow) }
        }),
{
    if p.borrowed_amount == 0 {
        let rate: int = if p.rate_type == RateType::Variable { 500 } else { p.stable_rate_bps as int };
        let elapsed: int = if now >= p.last_update { now - p.last_update } else { 0 };
        assert(p.borrowed_amount * rate * elapsed == 0) by (nonlinear_arith)
            requires p.borrowed_amount == 0;
        assert(trunc_div(0, 315_360_000_000int) == 0);
    }
}

/// No stability fee is charged while the stablecoin trades at or above its peg: for a
/// quote whose price is at least the target (and a non-negative peg threshold), the
/// deviation is not positive, the interest is the same as without a quote, and no peg
/// event is reported.
pub proof fn lemma_no_fee_at_or_above_peg(
    s: BorrowSettings,
    p: DebtPosition,
    now: u64,
    variable_rate: Result<i128, BorrowError>,
    q: PegQuote,
)
    requires
        q.price >= q.config.target_price,
        q.config.peg_threshold_bps >= 0,
    ensures
        peg_deviation_bps(q) <= 0,
        !stability_fee_applies(Some(q)),
        spec_interest(s, p, now, variable_rate, Some(q)) == spec_interest(s, p, now, variable_rate, None),
        spec_peg_event(s, p, now, variable_rate, Some(q)) is None,
{
    let d = clamp_i128(q.config.target_price - q.price);
    assert(d <= 0);
    if q.config.target_price > 0 {
        let m = clamp_i128(d * 10000);
        assert(m <= 0);
        let t = q.config.target_price as int;
        if m < 0 {
            vstd::arithmetic::div_mod::lemma_div_pos_is_pos(-m, t);
        }
    }
}

/// A plain repayment goes to the stable position whenever the variable position carries
/// no debt (neither principal nor interest above zero), and to the variable one otherwise.
pub proof fn lemma_repay_targets_indebted_position(r: UserBorrowRecord, user: String, asset: String, now: u64)
    ensures
        ({
            let v = spec_debt_position(r, user, Some(asset), RateType::Variable, now);
            &&& (v.borrowed_amount <= 0 && v.interest_accrued <= 0) ==> spec_repay_rate_type(r, user, asset, now) == RateType::Stable
            &&& (v.borrowed_amount > 0 || v.interest_accrued > 0) ==> spec_repay_rate_type(r, user, asset, now) == RateType::Variable
        }),
{
}

} // verus!
