//! Control logic for a push-button exhaust blower.
//!
//! A press starts the blower for a fixed time, a second press shortly after the
//! first extends the run, and a press while the blower runs stops it at once.
//! The controller is a pure state machine: it is told which wait resolved and
//! answers with the levels to drive and the next wait to open. The caller owns
//! the pins, the timers and the scheduler.

pub mod config;
pub mod feedback;
pub mod machine;
pub mod outputs;
pub mod race;
pub mod replay;
pub mod signal;
