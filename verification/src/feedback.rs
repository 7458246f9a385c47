//! The blink sequences that report how a run ended.
//!
//! A sequence is built from the outcome alone, every time anew: a fixed number
//! of blinks, each one a lit step followed by a dark step of the same length.

use vstd::prelude::*;
use crate::config::Config;
use crate::signal::{Color, Outcome};

verus! {

/// One step of a blink sequence: show `color`, then hold it for `hold_ms`.
#[derive(Clone, Copy, Debug, PartialEq, Eq, Structural)]
pub struct BlinkStep {
    pub color: Color,
    pub hold_ms: u64,
}

/// The color that reports an outcome.
pub open spec fn signal_of(outcome: Outcome) -> Color {
    match outcome {
        Outcome::CompletedByTimeout => Color::Complete,
        Outcome::InterruptedByPress => Color::Interrupted,
    }
}

/// The color shown at position `index` of a sequence that blinks `color`:
/// lit on even positions, dark on odd ones.
pub open spec fn blink_color(color: Color, index: int) -> Color {
    if index % 2 == 0 {
        color
    } else {
        Color::Off
    }
}

/// The sequence that blinks `color` `count` times with steps of `step_ms`.
pub open spec fn blink_plan(color: Color, count: nat, step_ms: u64) -> Seq<BlinkStep> {
    Seq::new(2 * count, |i: int| BlinkStep { color: blink_color(color, i), hold_ms: step_ms })
}

/// The sequence that reports `outcome` under `config`.
pub open spec fn feedback_plan(outcome: Outcome, config: Config) -> Seq<BlinkStep> {
    blink_plan(signal_of(outcome), config.blink_count as nat, config.blink_step_ms)
}

/// The color that reports an outcome.
pub fn signal_color(outcome: Outcome) -> (c: Color)
    ensures
        c == signal_of(outcome),
        c != Color::Off,
{
    match outcome {
        Outcome::CompletedByTimeout => Color::Complete,
        Outcome::InterruptedByPress => Color::Interrupted,
    }
}

/// Builds the sequence that blinks `color` `count` times.
pub fn blink_sequence(color: Color, count: u32, step_ms: u64) -> (plan: Vec<BlinkStep>)
    ensures
        plan@ == blink_plan(color, count as nat, step_ms),
{
    let mut plan: Vec<BlinkStep> = Vec::new();
    let mut done: u32 = 0;
    while done < count
        invariant
            done <= count,
            plan@ == blink_plan(color, done as nat, step_ms),
        decreases count - done,
    {
        plan.push(BlinkStep { color, hold_ms: step_ms });
        plan.push(BlinkStep { color: Color::Off, hold_ms: step_ms });
        done = done + 1;
    }
    plan
}

/// Builds the sequence that reports `outcome`.
pub fn feedback_sequence(outcome: Outcome, config: &Config) -> (plan: Vec<BlinkStep>)
    ensures
        plan@ == feedback_plan(outcome, *config),
        plan@.len() == config.plan_len(),
{
    blink_sequence(signal_color(outcome), config.blink_count, config.blink_step_ms)
}

} // verus!
