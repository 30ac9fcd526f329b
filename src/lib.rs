//! Switching a machine's display topology, directly or on triggers received from a message
//! broker.
//!
//! - `topology`: the five display arrangements, their names and native flags, and what the
//!   platform's status after a switch means.
//! - `subscriber`: the subscriber loop as a state machine that a driver runs: it decides
//!   what to do after each outcome of the broker session and of the switch.
//! - `config`: where and as whom the broker session connects.

pub mod config;
pub mod subscriber;
pub mod topology;
