//! Verified core of a lending protocol: depositor-friendly rounding, reentrancy
//! guards, borrowing with interest accrual, vault deposits and flash loans.

pub mod locks;
pub mod lending;
pub mod hello_world;
