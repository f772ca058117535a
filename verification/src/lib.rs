//! Constant-product market-maker arithmetic: fee computation, the bare
//! `x * y = k` curve, and the swap and liquidity calculations built on both.
//!
//! Every amount is a `u128`; every fee rate is a numerator over
//! [`fees::FEE_RATE_DENOMINATOR_VALUE`]. No function here panics: a step that
//! would overflow, underflow or divide by zero yields `None`.

pub mod admin;
pub mod calculator;
pub mod constant_product;
pub mod fees;
pub mod math;
