//! Two small numeric functions with exact contracts: signed 64-bit
//! addition and generation of the leading terms of the Fibonacci
//! sequence. The host-binding layer that exposes them to an external
//! interpreter lives outside this crate; the functions here are pure
//! and independently verified.

pub mod adder;
pub mod fib;

pub use adder::add;
pub use fib::fibonacci;
