//! Driver core for a UWB transceiver chip behind a register-oriented bus.
//!
//! The chip's lifecycle is a typestate machine: a handle tagged
//! `Uninitialized` can be clocked up (`init`) and calibrated (`config`),
//! which yields a `Ready` handle; an issued transmission yields a `Sending`
//! handle whose completion is observed with `s_wait` and which returns to
//! `Ready` through `finish_sending`. Every register operation a phase
//! function performs is recorded in the bus's operation log, and the
//! contracts state the exact protocol: which registers are touched, in
//! what order, with which values, and what outcome each observation
//! produces.

pub mod bus;
pub mod configs;
pub mod driver;
pub mod mock;
pub mod time;

pub use crate::configs::{Channel, Config, PreambleLength, PulseRepetitionFrequency, SfdSequence};
pub use crate::driver::{
    apply_config, run_init, Error, PendingResult, Ready, Sending, Uninitialized, DW3000,
};
pub use crate::time::Instant;
