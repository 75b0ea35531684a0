//! Deposits into a lending market made on this program's behalf.

pub mod deposit_earn;
