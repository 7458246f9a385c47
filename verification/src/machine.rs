//! The control state machine.
//!
//! One cycle runs `Idle`, `Debouncing`, `AwaitingSecondPress`, `Running`,
//! `Feedback`, `Cooldown` and ends in `Idle` again. The blower is switched on
//! as soon as a press is confirmed, before it is known whether a second press
//! follows: the gesture only decides how long the run lasts.
//!
//! The machine never waits itself. Each state names the wait it needs, and
//! [`transition`] maps the state and the event that resolved the wait to the
//! next state and the command for the actuators.

use vstd::prelude::*;
use crate::config::{Config, ConfigError};
use crate::feedback::{blink_color, feedback_plan, signal_color, signal_of};
use crate::signal::{Color, Command, Event, Notice, Outcome, Wait};

verus! {

/// One timed run of the blower.
#[derive(Clone, Copy, Debug, PartialEq, Eq, Structural)]
pub struct RunSession {
    /// The instant at which the press was confirmed and the blower went on.
    pub started_at: u64,
    /// Length of the run timer in milliseconds.
    pub duration_ms: u64,
    /// Whether a second press extended the run.
    pub extended: bool,
}

/// Where the machine is in its cycle.
#[derive(Clone, Copy, Debug, PartialEq, Eq, Structural)]
pub enum State {
    /// Waiting for a press.
    Idle,
    /// A first edge was seen; the switch is given time to settle.
    Debouncing,
    /// The press is confirmed and the blower is on; a second press may follow.
    AwaitingSecondPress { session: RunSession },
    /// The run timer is open.
    Running { session: RunSession },
    /// The run is over; `index` is the position in the blink sequence.
    Feedback { outcome: Outcome, index: u64 },
    /// Everything is off while the button is allowed to settle.
    Cooldown,
}

impl State {
    /// The blower is driven while a press is confirmed and its run is not
    /// over, and at no other time.
    pub open spec fn powered(self) -> bool {
        self is AwaitingSecondPress || self is Running
    }

    /// The color that the indicator shows in this state.
    pub open spec fn shown(self) -> Color {
        match self {
            State::Idle => Color::Off,
            State::Debouncing => Color::Off,
            State::AwaitingSecondPress { .. } => Color::Active,
            State::Running { session } => if session.extended {
                Color::Extended
            } else {
                Color::Active
            },
            State::Feedback { outcome, index } => blink_color(signal_of(outcome), index as int),
            State::Cooldown => Color::Off,
        }
    }

    /// The wait that this state needs: idle waits for an edge alone, the
    /// double-press window and the run race their timer against the button,
    /// and every other state lets its timer pass without listening.
    pub open spec fn awaits(self, config: Config) -> Wait {
        match self {
            State::Idle => Wait::Edge,
            State::Debouncing => Wait::Timer(config.debounce_ms),
            State::AwaitingSecondPress { .. } => Wait::Race(config.double_press_ms),
            State::Running { session } => Wait::Race(session.duration_ms),
            State::Feedback { .. } => Wait::Timer(config.blink_step_ms),
            State::Cooldown => Wait::Timer(config.cooldown_ms),
        }
    }

    /// The states that the machine can be in under `config`.
    pub open spec fn fits(self, config: Config) -> bool {
        match self {
            State::AwaitingSecondPress { session } => {
                &&& !session.extended
                &&& session.duration_ms == config.base_run_ms
            },
            State::Running { session } => session.duration_ms == config.run_length(
                session.extended,
            ),
            State::Feedback { index, .. } => index < config.plan_len(),
            _ => true,
        }
    }

    /// The state that a run gives way to: the first step of the blink
    /// sequence, or the cooldown where the sequence is empty.
    pub open spec fn wind_down(config: Config, outcome: Outcome) -> State {
        if config.blink_count == 0 {
            State::Cooldown
        } else {
            State::Feedback { outcome, index: 0 }
        }
    }

    /// The transition function. `now` is the instant at which `event` was
    /// observed; it is recorded as the start of a session and decides nothing.
    ///
    /// An event that the state does not wait for leaves the state as it is.
    pub open spec fn after(self, config: Config, event: Event, now: u64) -> State {
        match (self, event) {
            (State::Idle, Event::Edge) => State::Debouncing,
            (State::Debouncing, Event::Timeout) => State::AwaitingSecondPress {
                session: RunSession {
                    started_at: now,
                    duration_ms: config.base_run_ms,
                    extended: false,
                },
            },
            (State::AwaitingSecondPress { session }, Event::Timeout) => State::Running {
                session: RunSession {
                    started_at: session.started_at,
                    duration_ms: config.base_run_ms,
                    extended: false,
                },
            },
            (State::AwaitingSecondPress { session }, Event::Edge) => State::Running {
                session: RunSession {
                    started_at: session.started_at,
                    duration_ms: config.extended_run() as u64,
                    extended: true,
                },
            },
            (State::Running { .. }, Event::Timeout) => State::wind_down(
                config,
                Outcome::CompletedByTimeout,
            ),
            (State::Running { .. }, Event::Edge) => State::wind_down(
                config,
                Outcome::InterruptedByPress,
            ),
            (State::Feedback { outcome, index }, Event::Timeout) => if index + 1
                < config.plan_len() {
                State::Feedback { outcome, index: (index + 1) as u64 }
            } else {
                State::Cooldown
            },
            (State::Cooldown, Event::Timeout) => State::Idle,
            _ => self,
        }
    }

    /// How a run ends: set on the two transitions that leave `Running`.
    pub open spec fn outcome_on(self, event: Event) -> Option<Outcome> {
        match (self, event) {
            (State::Running { .. }, Event::Timeout) => Some(Outcome::CompletedByTimeout),
            (State::Running { .. }, Event::Edge) => Some(Outcome::InterruptedByPress),
            _ => None,
        }
    }

    /// The status line that a transition is worth.
    pub open spec fn notice_on(self, event: Event) -> Option<Notice> {
        match (self, event) {
            (State::Debouncing, Event::Timeout) => Some(Notice::ButtonPressed),
            (State::AwaitingSecondPress { .. }, Event::Edge) => Some(Notice::DoublePress),
            (State::Running { .. }, Event::Timeout) => Some(Notice::TimerExpired),
            (State::Running { .. }, Event::Edge) => Some(Notice::ButtonPressedAgain),
            _ => None,
        }
    }

    /// The command that a transition issues: the levels and the wait of the
    /// state it leads to, and what the transition itself reports.
    pub open spec fn reply(self, config: Config, event: Event, now: u64) -> Command {
        let next = self.after(config, event, now);
        Command {
            power_on: next.powered(),
            color: next.shown(),
            notice: self.notice_on(event),
            outcome: self.outcome_on(event),
            wait: next.awaits(config),
        }
    }

    /// Whether the blower is driven in this state.
    pub fn power_on(&self) -> (on: bool)
        ensures
            on == self.powered(),
    {
        match self {
            State::AwaitingSecondPress { .. } => true,
            State::Running { .. } => true,
            _ => false,
        }
    }

    /// The color that the indicator shows in this state.
    pub fn color(&self) -> (c: Color)
        ensures
            c == self.shown(),
    {
        match self {
            State::Idle => Color::Off,
            State::Debouncing => Color::Off,
            State::AwaitingSecondPress { .. } => Color::Active,
            State::Running { session } => {
                if session.extended {
                    Color::Extended
                } else {
                    Color::Active
                }
            },
            State::Feedback { outcome, index } => {
                if *index % 2 == 0 {
                    signal_color(*outcome)
                } else {
                    Color::Off
                }
            },
            State::Cooldown => Color::Off,
        }
    }

    /// The wait that this state needs.
    pub fn wait(&self, config: &Config) -> (w: Wait)
        ensures
            w == self.awaits(*config),
    {
        match self {
            State::Idle => Wait::Edge,
            State::Debouncing => Wait::Timer(config.debounce_ms),
            State::AwaitingSecondPress { .. } => Wait::Race(config.double_press_ms),
            State::Running { session } => Wait::Race(session.duration_ms),
            State::Feedback { .. } => Wait::Timer(config.blink_step_ms),
            State::Cooldown => Wait::Timer(config.cooldown_ms),
        }
    }
}

/// The command that repeats what `state` already asks for.
fn hold(config: &Config, state: State) -> (r: (State, Command))
    ensures
        r.0 == state,
        r.1 == (Command {
            power_on: state.powered(),
            color: state.shown(),
            notice: None,
            outcome: None,
            wait: state.awaits(*config),
        }),
{
    let command = Command {
        power_on: state.power_on(),
        color: state.color(),
        notice: None,
        outcome: None,
        wait: state.wait(config),
    };
    (state, command)
}

/// Ends a run: the blower goes off at once and the outcome is reported.
fn finish(config: &Config, outcome: Outcome, notice: Notice) -> (r: (State, Command))
    requires
        config.valid(),
    ensures
        r.0 == State::wind_down(*config, outcome),
        r.0.fits(*config),
        r.1 == (Command {
            power_on: false,
            color: r.0.shown(),
            notice: Some(notice),
            outcome: Some(outcome),
            wait: r.0.awaits(*config),
        }),
{
    if config.blink_count == 0 {
        let command = Command {
            power_on: false,
            color: Color::Off,
            notice: Some(notice),
            outcome: Some(outcome),
            wait: Wait::Timer(config.cooldown_ms),
        };
        (State::Cooldown, command)
    } else {
        let command = Command {
            power_on: false,
            color: signal_color(outcome),
            notice: Some(notice),
            outcome: Some(outcome),
            wait: Wait::Timer(config.blink_step_ms),
        };
        (State::Feedback { outcome, index: 0 }, command)
    }
}

/// Takes one transition: from `state`, on `event` observed at `now`, to the
/// next state and the command to carry out.
pub fn transition(config: &Config, state: State, event: Event, now: u64) -> (r: (State, Command))
    requires
        config.valid(),
        state.fits(*config),
    ensures
        r.0 == state.after(*config, event, now),
        r.1 == state.reply(*config, event, now),
        r.0.fits(*config),
{
    match state {
        State::Idle => match event {
            Event::Edge => {
                let command = Command {
                    power_on: false,
                    color: Color::Off,
                    notice: None,
                    outcome: None,
                    wait: Wait::Timer(config.debounce_ms),
                };
                (State::Debouncing, command)
            },
            Event::Timeout => hold(config, state),
        },
        State::Debouncing => match event {
            Event::Timeout => {
                let session = RunSession {
                    started_at: now,
                    duration_ms: config.run_duration(false),
                    extended: false,
                };
                let command = Command {
                    power_on: true,
                    color: Color::Active,
                    notice: Some(Notice::ButtonPressed),
                    outcome: None,
                    wait: Wait::Race(config.double_press_ms),
                };
                (State::AwaitingSecondPress { session }, command)
            },
            Event::Edge => hold(config, state),
        },
        State::AwaitingSecondPress { session } => match event {
            Event::Timeout => {
                let run = RunSession {
                    started_at: session.started_at,
                    duration_ms: config.run_duration(false),
                    extended: false,
                };
                let command = Command {
                    power_on: true,
                    color: Color::Active,
                    notice: None,
                    outcome: None,
                    wait: Wait::Race(run.duration_ms),
                };
                (State::Running { session: run }, command)
            },
            Event::Edge => {
                let run = RunSession {
                    started_at: session.started_at,
                    duration_ms: config.run_duration(true),
                    extended: true,
                };
                let command = Command {
                    power_on: true,
                    color: Color::Extended,
                    notice: Some(Notice::DoublePress),
                    outcome: None,
                    wait: Wait::Race(run.duration_ms),
                };
                (State::Running { session: run }, command)
            },
        },
        State::Running { .. } => match event {
            Event::Timeout => finish(config, Outcome::CompletedByTimeout, Notice::TimerExpired),
            Event::Edge => finish(
                config,
                Outcome::InterruptedByPress,
                Notice::ButtonPressedAgain,
            ),
        },
        State::Feedback { outcome, index } => match event {
            Event::Timeout => {
                let steps: u64 = 2 * (config.blink_count as u64);
                if index + 1 < steps {
                    let next = State::Feedback { outcome, index: index + 1 };
                    let command = Command {
                        power_on: false,
                        color: next.color(),
                        notice: None,
                        outcome: None,
                        wait: Wait::Timer(config.blink_step_ms),
                    };
                    (next, command)
                } else {
                    let command = Command {
                        power_on: false,
                        color: Color::Off,
                        notice: None,
                        outcome: None,
                        wait: Wait::Timer(config.cooldown_ms),
                    };
                    (State::Cooldown, command)
                }
            },
            Event::Edge => hold(config, state),
        },
        State::Cooldown => match event {
            Event::Timeout => {
                let command = Command {
                    power_on: false,
                    color: Color::Off,
                    notice: None,
                    outcome: None,
                    wait: Wait::Edge,
                };
                (State::Idle, command)
            },
            Event::Edge => hold(config, state),
        },
    }
}

/// The controller: the single owner of the configuration and of the state.
///
/// It can only be made from a valid configuration and only changes through
/// [`Controller::step`], so it is well formed at all times.
#[derive(Clone, Copy, Debug, PartialEq, Eq)]
pub struct Controller {
    config: Config,
    state: State,
}

impl Controller {
    /// The configuration that the controller was made with.
    pub closed spec fn spec_config(&self) -> Config {
        self.config
    }

    /// The state that the controller is in.
    pub closed spec fn spec_state(&self) -> State {
        self.state
    }

    /// The configuration is valid and the state is one that it allows.
    pub open spec fn wf(&self) -> bool {
        &&& self.spec_config().valid()
        &&& self.spec_state().fits(self.spec_config())
    }

    /// A controller at rest, or the rule that `config` breaks.
    pub fn new(config: Config) -> (r: Result<Controller, ConfigError>)
        ensures
            match r {
                Ok(c) => {
                    &&& config.valid()
                    &&& c.spec_config() == config
                    &&& c.spec_state() == State::Idle
                    &&& c.wf()
                },
                Err(e) => config.verdict() == Err::<(), ConfigError>(e),
            },
            r is Ok <==> config.valid(),
    {
        match config.validate() {
            Ok(()) => Ok(Controller { config, state: State::Idle }),
            Err(e) => Err(e),
        }
    }

    /// The configuration that the controller was made with.
    #[verifier::when_used_as_spec(spec_config)]
    pub fn config(&self) -> (c: Config)
        ensures
            c == self.spec_config(),
    {
        self.config
    }

    /// The state that the controller is in.
    #[verifier::when_used_as_spec(spec_state)]
    pub fn state(&self) -> (s: State)
        ensures
            s == self.spec_state(),
    {
        self.state
    }

    /// The wait that the driver has to open for the current state.
    pub fn pending(&self) -> (w: Wait)
        ensures
            w == self.spec_state().awaits(self.spec_config()),
    {
        self.state.wait(&self.config)
    }

    /// Feeds the event that resolved the pending wait, observed at `now`, and
    /// returns the command to carry out.
    pub fn step(&mut self, event: Event, now: u64) -> (command: Command)
        requires
            old(self).wf(),
        ensures
            final(self).wf(),
            final(self).spec_config() == old(self).spec_config(),
            final(self).spec_state() == old(self).spec_state().after(
                old(self).spec_config(),
                event,
                now,
            ),
            command == old(self).spec_state().reply(old(self).spec_config(), event, now),
    {
        let (next, command) = transition(&self.config, self.state, event, now);
        self.state = next;
        command
    }
}

impl State {
    /// The state reached from `self` by taking `events` in order, each with
    /// the instant at which it was observed.
    pub open spec fn after_all(self, config: Config, events: Seq<(Event, u64)>) -> State
        decreases events.len(),
    {
        if events.len() == 0 {
            self
        } else {
            self.after(config, events[0].0, events[0].1).after_all(config, events.drop_first())
        }
    }
}

/// Every transition from a state that the configuration allows leads to a
/// state that it allows.
pub proof fn lemma_transitions_stay_fit(config: Config, state: State, event: Event, now: u64)
    requires
        config.valid(),
        state.fits(config),
    ensures
        state.after(config, event, now).fits(config),
{
}

/// A state that lets a timer pass does not react to the button: however many
/// edges arrive, and whenever, the state stays what it is and nothing is
/// reported. Bounce after the first edge is therefore never taken for a press.
pub proof fn lemma_edges_ignored_while_timing(config: Config, state: State, events: Seq<(Event, u64)>)
    requires
        state is Debouncing || state is Feedback || state is Cooldown,
        forall|i: int| 0 <= i < events.len() ==> (#[trigger] events[i]).0 == Event::Edge,
    ensures
        state.after_all(config, events) == state,
        forall|i: int|
            0 <= i < events.len() ==> {
                &&& state.reply(config, events[i].0, events[i].1).notice is None
                &&& state.reply(config, events[i].0, events[i].1).outcome is None
                &&& state.reply(config, events[i].0, events[i].1).power_on == state.powered()
                &&& state.reply(config, events[i].0, events[i].1).color == state.shown()
            },
    decreases events.len(),
{
    if events.len() > 0 {
        let rest = events.drop_first();
        assert(events[0].0 == Event::Edge);
        assert forall|i: int| 0 <= i < rest.len() implies (#[trigger] rest[i]).0 == Event::Edge by {
            assert(rest[i] == events[i + 1]);
        }
        lemma_edges_ignored_while_timing(config, state, rest);
    }
}

/// A press is confirmed once per settling time: after any number of edges,
/// the debounce timer leads to the double-press window, with the blower on, a
/// session that starts at that instant and a run of the base length.
pub proof fn lemma_one_confirmed_press(config: Config, bounces: Seq<(Event, u64)>, now: u64)
    requires
        forall|i: int| 0 <= i < bounces.len() ==> (#[trigger] bounces[i]).0 == Event::Edge,
    ensures
        State::Debouncing.after_all(config, bounces.push((Event::Timeout, now)))
            == (State::AwaitingSecondPress {
            session: RunSession {
                started_at: now,
                duration_ms: config.base_run_ms,
                extended: false,
            },
        }),
    decreases bounces.len(),
{
    let events = bounces.push((Event::Timeout, now));
    if bounces.len() == 0 {
        assert(events.drop_first() =~= Seq::<(Event, u64)>::empty());
        let confirmed = State::Debouncing.after(config, Event::Timeout, now);
        assert(confirmed.after_all(config, events.drop_first()) == confirmed);
    } else {
        let rest = bounces.drop_first();
        assert(events[0] == bounces[0]);
        assert(events.drop_first() =~= rest.push((Event::Timeout, now)));
        assert forall|i: int| 0 <= i < rest.len() implies (#[trigger] rest[i]).0 == Event::Edge by {
            assert(rest[i] == bounces[i + 1]);
        }
        lemma_one_confirmed_press(config, rest, now);
    }
}

/// When the double-press window closes in silence the run has the base
/// length and is not extended.
pub proof fn lemma_single_press_runs_base(config: Config, session: RunSession, now: u64)
    ensures
        (State::AwaitingSecondPress { session }).after(config, Event::Timeout, now)
            == (State::Running {
            session: RunSession {
                started_at: session.started_at,
                duration_ms: config.base_run_ms,
                extended: false,
            },
        }),
        (State::AwaitingSecondPress { session }).reply(config, Event::Timeout, now).wait
            == Wait::Race(config.base_run_ms),
        (State::AwaitingSecondPress { session }).reply(config, Event::Timeout, now).color
            == Color::Active,
{
}

/// A second press within the double-press window extends the run: its length
/// is the base length times the multiplier.
pub proof fn lemma_double_press_extends(config: Config, session: RunSession, now: u64)
    requires
        config.valid(),
    ensures
        (State::AwaitingSecondPress { session }).after(config, Event::Edge, now)
            matches State::Running { session: run } && {
            &&& run.extended
            &&& run.duration_ms == config.base_run_ms * config.extended_multiplier
            &&& run.started_at == session.started_at
        },
        (State::AwaitingSecondPress { session }).reply(config, Event::Edge, now).wait
            matches Wait::Race(length) && length == config.base_run_ms
            * config.extended_multiplier,
        (State::AwaitingSecondPress { session }).reply(config, Event::Edge, now).color
            == Color::Extended,
        (State::AwaitingSecondPress { session }).reply(config, Event::Edge, now).notice == Some(
            Notice::DoublePress,
        ),
{
}

/// A press during a run ends it at once: the blower goes off with that very
/// transition and the outcome is an interruption, whatever the session and
/// however much of its time was left.
pub proof fn lemma_press_interrupts_run(config: Config, session: RunSession, now: u64)
    ensures
        !(State::Running { session }).reply(config, Event::Edge, now).power_on,
        (State::Running { session }).reply(config, Event::Edge, now).outcome == Some(
            Outcome::InterruptedByPress,
        ),
        (State::Running { session }).reply(config, Event::Edge, now).notice == Some(
            Notice::ButtonPressedAgain,
        ),
        !((State::Running { session }).after(config, Event::Edge, now) is Running),
{
}

/// A run that is left alone ends when its timer does, with the blower off
/// and the outcome a completion.
pub proof fn lemma_timeout_completes_run(config: Config, session: RunSession, now: u64)
    ensures
        !(State::Running { session }).reply(config, Event::Timeout, now).power_on,
        (State::Running { session }).reply(config, Event::Timeout, now).outcome == Some(
            Outcome::CompletedByTimeout,
        ),
        (State::Running { session }).reply(config, Event::Timeout, now).notice == Some(
            Notice::TimerExpired,
        ),
        !((State::Running { session }).after(config, Event::Timeout, now) is Running),
{
}

/// The blower is commanded on exactly while a press is confirmed and its run
/// is not over: every command carries the level of the state it leads to.
pub proof fn lemma_power_follows_session(config: Config, state: State, event: Event, now: u64)
    ensures
        state.reply(config, event, now).power_on <==> {
            ||| state.after(config, event, now) is AwaitingSecondPress
            ||| state.after(config, event, now) is Running
        },
        state.reply(config, event, now).color == state.after(config, event, now).shown(),
        state.reply(config, event, now).wait == state.after(config, event, now).awaits(config),
{
}

/// There is one session at a time. A session begins only when a debounce
/// ends, a run only continues the session of the window before it, and the
/// next debounce can only begin from idle, which is entered from the cooldown
/// alone.
pub proof fn lemma_one_session_at_a_time(config: Config, state: State, event: Event, now: u64)
    ensures
        state.after(config, event, now) is AwaitingSecondPress ==> {
            ||| state is Debouncing
            ||| state.after(config, event, now) == state
        },
        state.after(config, event, now) matches State::Running { session: run } ==> {
            ||| state matches State::AwaitingSecondPress { session } && session.started_at
                == run.started_at
            ||| state.after(config, event, now) == state
        },
        state.after(config, event, now) is Debouncing ==> state is Idle || state is Debouncing,
        state.after(config, event, now) is Idle ==> state is Cooldown || state is Idle,
        state is Running && event == Event::Edge ==> !state.after(config, event, now).powered(),
        state is Running && event == Event::Timeout ==> !state.after(config, event, now).powered(),
{
}

/// The indicator follows the blink sequence of the outcome: at every position
/// of the feedback it shows the color that the sequence has there, and holds it
/// for the time that the sequence gives.
pub proof fn lemma_feedback_follows_plan(config: Config, outcome: Outcome, index: u64, now: u64)
    requires
        index < config.plan_len(),
    ensures
        (State::Feedback { outcome, index }).shown() == feedback_plan(outcome, config)[index as int].color,
        (State::Feedback { outcome, index }).awaits(config) == Wait::Timer(
            feedback_plan(outcome, config)[index as int].hold_ms,
        ),
        (State::Feedback { outcome, index }).after(config, Event::Timeout, now) == if index + 1
            < feedback_plan(outcome, config).len() {
            State::Feedback { outcome, index: (index + 1) as u64 }
        } else {
            State::Cooldown
        },
{
}

} // verus!
