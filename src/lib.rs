//! A time-gated activation switch: a pool record that can be switched on
//! once the current time has reached its activation point.
//!
//! The record and the activation rule live in `pool`; the entry points that
//! work on a record handed over by the host live in `instructions`; the one
//! reading of the host's clock lives in `clock`.

pub mod clock;
pub mod instructions;
pub mod pool;
