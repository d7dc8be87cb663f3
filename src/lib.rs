//! Adapters between a cell-grid terminal model, a key-event model and the
//! text console of pre-boot firmware.
//!
//! The firmware calls themselves are made by the host program; this library
//! decides which calls to make, in which order, and what their replies mean.

pub mod color;
pub mod console;
pub mod draw;
pub mod error;
pub mod input;
pub mod session;
