//! Sans-IO driver core for the SX1261/SX1262 sub-GHz radio transceivers.
//!
//! The crate turns radio configuration into the exact bytes that the chip's
//! command processor expects, and puts the commands in sequence. It never
//! touches a bus or a pin itself: a host performs each [`sx::host::Action`]
//! and reports how it went.

pub mod bytes;
pub mod conf;
pub mod op;
pub mod reg;
pub mod sx;

pub use conf::{calc_rf_freq, Config, RfFrequency};
pub use sx::err::{DecodeError, PinError, SpiError};
