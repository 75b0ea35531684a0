//! Deposits into and withdrawals from a lending market.

pub mod deposit;
pub mod withdraw;
