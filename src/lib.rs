//! Arithmetic on unsigned 64-bit integers.
//!
//! `add`, `subtract` and `multiply` wrap around modulo 2^64, as native
//! fixed-width unsigned arithmetic does; `divide` reports a zero divisor as
//! `None` instead of failing.
pub mod arith;
pub mod sample;

pub use arith::{add, divide, multiply, subtract};
pub use sample::example_with_warnings;
