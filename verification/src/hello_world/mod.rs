pub mod reentrancy;
