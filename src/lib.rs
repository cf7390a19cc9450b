//! Pricing of a multi-asset pool: fixed-point decimals, the deviation-curve
//! engine behind mint, burn and swap, and the builder of transaction
//! parameters.

pub mod uint256;
pub mod uint512;
pub mod utils;
pub mod strings;
pub mod num;
pub mod snum;
pub mod core_math;
pub mod actions;
pub mod laws;
pub mod decimal_laws;
