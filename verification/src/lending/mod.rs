pub mod arith;
pub mod wide;
pub mod rounding;
pub mod reentrancy;
pub mod borrow;
pub mod deposit;
pub mod flash_loan;
