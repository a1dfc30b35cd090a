//! A cell for memory-mapped registers.
//!
//! [`cell::VolatileCell`] holds one bitwise-copyable value and hands it out
//! and takes it in by whole-value copies, the access pattern of a hardware
//! register. [`bme`] holds the address arithmetic of the accelerated
//! bit-field-insert write path: the eligibility check and the alias-address
//! encoding, kept apart from any memory access so both can be reasoned about
//! and exercised on their own.

pub mod bme;
pub mod cell;

pub use cell::VolatileCell;
