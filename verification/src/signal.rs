//! The vocabulary exchanged between the controller and whoever drives it.

use vstd::prelude::*;

verus! {

/// What resolved the wait that the controller last asked for.
#[derive(Clone, Copy, Debug, PartialEq, Eq, Structural)]
pub enum Event {
    /// The button produced a rising edge.
    Edge,
    /// The timer that was opened for the wait ran out.
    Timeout,
}

/// The palette of the indicator light.
#[derive(Clone, Copy, Debug, PartialEq, Eq, Structural)]
pub enum Color {
    /// Dark: nothing is going on.
    Off,
    /// The blower runs for the base duration.
    Active,
    /// The blower runs for the extended duration.
    Extended,
    /// Blinked after a run that ended by itself.
    Complete,
    /// Blinked after a run that a press cut short.
    Interrupted,
}

/// How a run ended.
#[derive(Clone, Copy, Debug, PartialEq, Eq, Structural)]
pub enum Outcome {
    /// The run timer ran out.
    CompletedByTimeout,
    /// A press arrived while the blower was running.
    InterruptedByPress,
}

/// A status line for the diagnostic sink.
#[derive(Clone, Copy, Debug, PartialEq, Eq, Structural)]
pub enum Notice {
    ButtonPressed,
    DoublePress,
    TimerExpired,
    ButtonPressedAgain,
}

impl Notice {
    /// The wording of each notice.
    pub open spec fn wording(self) -> Seq<char> {
        match self {
            Notice::ButtonPressed => "Button pressed"@,
            Notice::DoublePress => "Double press"@,
            Notice::TimerExpired => "Timer expired"@,
            Notice::ButtonPressedAgain => "Button pressed again"@,
        }
    }

    /// The text to hand to the diagnostic sink.
    pub fn text(&self) -> (s: &'static str)
        ensures
            s@ == self.wording(),
    {
        match self {
            Notice::ButtonPressed => "Button pressed",
            Notice::DoublePress => "Double press",
            Notice::TimerExpired => "Timer expired",
            Notice::ButtonPressedAgain => "Button pressed again",
        }
    }
}

/// The wait that the driver has to open next. Durations are in milliseconds.
#[derive(Clone, Copy, Debug, PartialEq, Eq, Structural)]
pub enum Wait {
    /// Suspend until the next rising edge, however long it takes.
    Edge,
    /// Let the given time pass; the button is not listened to.
    Timer(u64),
    /// Open a timer of the given length and a fresh edge wait, and report
    /// whichever resolves first.
    Race(u64),
}

/// What the controller wants done after a transition: the levels of both
/// actuators, what to tell the diagnostic sink, and the next wait.
///
/// The levels are absolute, so a driver may apply them after every step.
#[derive(Clone, Copy, Debug, PartialEq, Eq)]
pub struct Command {
    /// Level of the blower.
    pub power_on: bool,
    /// Color of the indicator.
    pub color: Color,
    /// Set on the transitions that are worth a status line.
    pub notice: Option<Notice>,
    /// Set on the transition that ends a run.
    pub outcome: Option<Outcome>,
    /// The wait to open next.
    pub wait: Wait,
}

} // verus!
