//! Replays a schedule of presses against the controller on a logical clock.
//!
//! The schedule lists the instants, in milliseconds, at which the button
//! produces a rising edge. The replay opens each wait that the controller asks
//! for, decides from the schedule how the wait resolves, feeds the event to the
//! controller and drives the actuator models with its command. Every wait is
//! opened afresh: an edge is seen only by a wait that is open when it falls,
//! and by one wait at most.
//!
//! The schedule is read front to back and is meant to be in order of time: an
//! entry that lies before the instant at which a wait is opened is skipped.

use vstd::prelude::*;
use crate::config::Config;
use crate::machine::{Controller, RunSession, State};
use crate::outputs::{drive, IndicatorLight, PowerOutput};
use crate::race::{arbitrate, first_to_resolve};
use crate::signal::{Color, Event, Notice, Outcome, Wait};

verus! {

/// One transition of a replay and what could be observed right after it.
#[derive(Clone, Copy, Debug, PartialEq, Eq)]
pub struct Tick {
    /// The instant at which the wait resolved.
    pub at: u64,
    /// What resolved it.
    pub event: Event,
    /// The state that the controller entered.
    pub state: State,
    /// The status line of the transition, if it is worth one.
    pub notice: Option<Notice>,
    /// How the run ended, on the transition that ends one.
    pub outcome: Option<Outcome>,
    /// Level of the blower after the command was carried out.
    pub power_on: bool,
    /// Color of the indicator after the command was carried out.
    pub color: Color,
}

/// How a wait resolves against a schedule.
pub enum Resolution {
    /// The wait is for an edge and the schedule has none left.
    Never,
    /// The wait would end past the last instant that the clock can hold.
    Overflow,
    /// The wait resolves with `event` at `at`, and `pending` is what is left
    /// of the schedule.
    At { event: Event, at: u64, pending: Seq<u64> },
}

/// The schedule without the leading edges that fell before `now`: nothing
/// was listening when they fell, so no later wait sees them.
pub open spec fn upcoming(pending: Seq<u64>, now: u64) -> Seq<u64>
    decreases pending.len(),
{
    if pending.len() > 0 && pending[0] < now {
        upcoming(pending.drop_first(), now)
    } else {
        pending
    }
}

/// How `wait`, opened at `now`, resolves against the schedule `pending`.
///
/// A wait for an edge takes the next edge that is due. A timer runs out after
/// its length and consumes nothing. A race is decided by [`first_to_resolve`]:
/// the edge wins and is consumed if it falls strictly before the timer runs
/// out; otherwise the timer wins and the edge stays for the next wait.
pub open spec fn resolve(wait: Wait, now: u64, pending: Seq<u64>) -> Resolution {
    let due = upcoming(pending, now);
    match wait {
        Wait::Edge => if due.len() > 0 {
            Resolution::At { event: Event::Edge, at: due[0], pending: due.drop_first() }
        } else {
            Resolution::Never
        },
        Wait::Timer(length) => if now + length <= u64::MAX {
            Resolution::At { event: Event::Timeout, at: (now + length) as u64, pending }
        } else {
            Resolution::Overflow
        },
        Wait::Race(length) => {
            let lead = if due.len() > 0 {
                Some((due[0] - now) as u64)
            } else {
                None
            };
            if first_to_resolve(length, lead).winner == Event::Edge {
                Resolution::At { event: Event::Edge, at: due[0], pending: due.drop_first() }
            } else if now + length <= u64::MAX {
                Resolution::At { event: Event::Timeout, at: (now + length) as u64, pending: due }
            } else {
                Resolution::Overflow
            }
        },
    }
}

/// An upper bound on the number of waits between `state` and the next idle.
pub open spec fn distance_to_idle(state: State, config: Config) -> nat {
    match state {
        State::Idle => 0,
        State::Cooldown => 1,
        State::Feedback { index, .. } => if index < config.plan_len() {
            (2 + config.plan_len() - index) as nat
        } else {
            2
        },
        State::Running { .. } => (3 + config.plan_len()) as nat,
        State::AwaitingSecondPress { .. } => (4 + config.plan_len()) as nat,
        State::Debouncing => (5 + config.plan_len()) as nat,
    }
}

/// What is observed when `state` takes `event` at `at`.
pub open spec fn tick_of(config: Config, state: State, event: Event, at: u64) -> Tick {
    let next = state.after(config, event, at);
    Tick {
        at,
        event,
        state: next,
        notice: state.notice_on(event),
        outcome: state.outcome_on(event),
        power_on: next.powered(),
        color: next.shown(),
    }
}

/// `head` followed by `tail`, where there is a tail.
pub open spec fn prepend(head: Seq<Tick>, tail: Option<Seq<Tick>>) -> Option<Seq<Tick>> {
    match tail {
        Some(ticks) => Some(head + ticks),
        None => None,
    }
}

/// The leading edges that fell before `now` are dropped and nothing is added.
pub proof fn lemma_upcoming(pending: Seq<u64>, now: u64)
    ensures
        upcoming(pending, now).len() <= pending.len(),
        upcoming(pending, now) == pending.skip(pending.len() - upcoming(pending, now).len()),
        upcoming(pending, now).len() > 0 ==> upcoming(pending, now)[0] >= now,
        forall|i: int|
            0 <= i < pending.len() - upcoming(pending, now).len() ==> pending[i] < now,
    decreases pending.len(),
{
    if pending.len() > 0 && pending[0] < now {
        let rest = pending.drop_first();
        lemma_upcoming(rest, now);
        let kept = upcoming(rest, now);
        assert(rest.skip(rest.len() - kept.len()) =~= pending.skip(pending.len() - kept.len()));
        assert forall|i: int| 0 <= i < pending.len() - kept.len() implies pending[i] < now by {
            if i > 0 {
                assert(pending[i] == rest[i - 1]);
            }
        }
    } else {
        assert(pending.skip(0) =~= pending);
    }
}

/// The whole replay: the ticks from `state` at `now` until the controller
/// idles with no edge left, or `None` where the clock overflows on the way.
pub open spec fn unfold(config: Config, state: State, now: u64, pending: Seq<u64>) -> Option<
    Seq<Tick>,
>
    decreases pending.len(), distance_to_idle(state, config),
{
    match resolve(state.awaits(config), now, pending) {
        Resolution::Never => Some(Seq::empty()),
        Resolution::Overflow => None,
        Resolution::At { event, at, pending: rest } => {
            proof {
                lemma_upcoming(pending, now);
            }
            prepend(
                seq![tick_of(config, state, event, at)],
                unfold(config, state.after(config, event, at), at, rest),
            )
        },
    }
}

/// How a wait resolved, with the schedule kept as a position in the list.
enum Settled {
    Never,
    Overflow,
    At { event: Event, at: u64, cursor: usize },
}

impl Settled {
    /// The resolution that this stands for over the schedule `edges`.
    spec fn over(self, edges: Seq<u64>) -> Resolution {
        match self {
            Settled::Never => Resolution::Never,
            Settled::Overflow => Resolution::Overflow,
            Settled::At { event, at, cursor } => Resolution::At {
                event,
                at,
                pending: edges.skip(cursor as int),
            },
        }
    }
}

/// The position of the first edge from `from` on that does not fall before
/// `now`, or the length of the schedule if there is none.
fn skip_past(edges: &Vec<u64>, from: usize, now: u64) -> (to: usize)
    requires
        from <= edges.len(),
    ensures
        from <= to <= edges.len(),
        edges@.skip(to as int) == upcoming(edges@.skip(from as int), now),
        to < edges.len() ==> edges[to as int] >= now,
{
    let mut to: usize = from;
    while to < edges.len() && edges[to] < now
        invariant
            from <= to <= edges.len(),
            upcoming(edges@.skip(to as int), now) == upcoming(edges@.skip(from as int), now),
        decreases edges.len() - to,
    {
        proof {
            assert(edges@.skip(to as int).drop_first() =~= edges@.skip(to + 1));
        }
        to = to + 1;
    }
    to
}

/// Decides how `wait`, opened at `now`, resolves against the edges from
/// `cursor` on.
fn settle(wait: Wait, now: u64, edges: &Vec<u64>, cursor: usize) -> (r: Settled)
    requires
        cursor <= edges.len(),
    ensures
        r.over(edges@) == resolve(wait, now, edges@.skip(cursor as int)),
        r matches Settled::At { cursor: next, at, .. } ==> cursor <= next <= edges.len() && at
            >= now,
{
    let due: usize = skip_past(edges, cursor, now);
    proof {
        assert(edges@.skip(due as int).len() == edges.len() - due);
        if due < edges.len() {
            assert(edges@.skip(due as int)[0] == edges[due as int]);
            assert(edges@.skip(due as int).drop_first() =~= edges@.skip(due + 1));
        }
    }
    match wait {
        Wait::Edge => {
            if due < edges.len() {
                Settled::At { event: Event::Edge, at: edges[due], cursor: due + 1 }
            } else {
                Settled::Never
            }
        },
        Wait::Timer(length) => {
            match now.checked_add(length) {
                Some(at) => Settled::At { event: Event::Timeout, at, cursor },
                None => Settled::Overflow,
            }
        },
        Wait::Race(length) => {
            let lead: Option<u64> = if due < edges.len() {
                Some(edges[due] - now)
            } else {
                None
            };
            let verdict = arbitrate(length, lead);
            match verdict.winner {
                Event::Edge => Settled::At { event: Event::Edge, at: edges[due], cursor: due + 1 },
                Event::Timeout => {
                    match now.checked_add(length) {
                        Some(at) => Settled::At { event: Event::Timeout, at, cursor: due },
                        None => Settled::Overflow,
                    }
                },
            }
        },
    }
}

/// Replays the schedule `edges` from `start` on and returns one tick for each
/// transition that the controller takes, in order.
///
/// The replay ends when the controller waits for an edge and none is left. It
/// gives `None` where a wait would end after the last instant that the clock
/// can hold.
pub fn replay(controller: Controller, start: u64, edges: &Vec<u64>) -> (r: Option<Vec<Tick>>)
    requires
        controller.wf(),
    ensures
        match r {
            Some(trace) => unfold(controller.spec_config(), controller.spec_state(), start, edges@)
                == Some(trace@),
            None => unfold(controller.spec_config(), controller.spec_state(), start, edges@)
                is None,
        },
{
    let ghost config = controller.spec_config();
    let ghost whole = unfold(config, controller.spec_state(), start, edges@);
    let mut machine = controller;
    let mut power = PowerOutput::new();
    let mut light = IndicatorLight::new();
    let mut trace: Vec<Tick> = Vec::new();
    let mut now: u64 = start;
    let mut cursor: usize = 0;
    proof {
        assert(edges@.skip(0) =~= edges@);
        assert(Seq::<Tick>::empty() + unfold(config, machine.spec_state(), now, edges@)->0
            =~= unfold(config, machine.spec_state(), now, edges@)->0);
    }
    loop
        invariant
            machine.wf(),
            machine.spec_config() == config,
            cursor <= edges.len(),
            whole == unfold(controller.spec_config(), controller.spec_state(), start, edges@),
            whole == prepend(
                trace@,
                unfold(config, machine.spec_state(), now, edges@.skip(cursor as int)),
            ),
        decreases edges.len() - cursor, distance_to_idle(machine.spec_state(), config),
    {
        let ghost before = machine.spec_state();
        let ghost pending = edges@.skip(cursor as int);
        match settle(machine.pending(), now, edges, cursor) {
            Settled::Never => {
                proof {
                    assert(trace@ + Seq::<Tick>::empty() =~= trace@);
                }
                return Some(trace);
            },
            Settled::Overflow => {
                return None;
            },
            Settled::At { event, at, cursor: next } => {
                let command = machine.step(event, at);
                drive(&command, &mut power, &mut light);
                let tick = Tick {
                    at,
                    event,
                    state: machine.state(),
                    notice: command.notice,
                    outcome: command.outcome,
                    power_on: power.is_on(),
                    color: light.color(),
                };
                proof {
                    lemma_upcoming(pending, now);
                    let rest = unfold(config, machine.spec_state(), at, edges@.skip(next as int));
                    assert(tick == tick_of(config, before, event, at));
                    if rest is Some {
                        assert(trace@ + (seq![tick] + rest->0) =~= trace@.push(tick) + rest->0);
                    }
                }
                trace.push(tick);
                now = at;
                cursor = next;
            },
        }
    }
}

/// The next tick of a replay, where the pending wait resolves at all.
pub open spec fn next_tick(config: Config, state: State, now: u64, pending: Seq<u64>) -> Option<
    Tick,
> {
    match resolve(state.awaits(config), now, pending) {
        Resolution::At { event, at, .. } => Some(tick_of(config, state, event, at)),
        _ => None,
    }
}

/// A replay that has a next tick begins with it.
pub proof fn lemma_replay_begins_with_next_tick(
    config: Config,
    state: State,
    now: u64,
    pending: Seq<u64>,
)
    ensures
        unfold(config, state, now, pending) matches Some(trace) ==> match next_tick(
            config,
            state,
            now,
            pending,
        ) {
            Some(tick) => trace.len() > 0 && trace[0] == tick,
            None => trace.len() == 0,
        },
{
}

/// Edges that fell before `now` are dropped, however many lead the schedule.
pub proof fn lemma_overdue_edges_dropped(overdue: Seq<u64>, rest: Seq<u64>, now: u64)
    requires
        forall|i: int| 0 <= i < overdue.len() ==> overdue[i] < now,
    ensures
        upcoming(overdue + rest, now) == upcoming(rest, now),
    decreases overdue.len(),
{
    if overdue.len() == 0 {
        assert(overdue + rest =~= rest);
    } else {
        let all = overdue + rest;
        assert(all[0] == overdue[0]);
        assert(all.drop_first() =~= overdue.drop_first() + rest);
        lemma_overdue_edges_dropped(overdue.drop_first(), rest, now);
    }
}

/// Bounce is never taken for a press. Let the button produce an edge at
/// `first` and then bounce any number of times before the debounce time is
/// over: the replay is what it would be without the bounces. It confirms one
/// press, at the end of the debounce time.
pub proof fn lemma_bounces_change_nothing(
    config: Config,
    now: u64,
    first: u64,
    bounces: Seq<u64>,
    rest: Seq<u64>,
)
    requires
        now <= first,
        forall|i: int| 0 <= i < bounces.len() ==> bounces[i] < first + config.debounce_ms,
    ensures
        unfold(config, State::Idle, now, seq![first] + bounces + rest) == unfold(
            config,
            State::Idle,
            now,
            seq![first] + rest,
        ),
        unfold(config, State::Idle, now, seq![first] + bounces + rest) matches Some(trace) ==> {
            &&& trace.len() >= 2
            &&& trace[0].at == first
            &&& trace[0].state is Debouncing
            &&& trace[1].at == first + config.debounce_ms
            &&& trace[1].state is AwaitingSecondPress
            &&& trace[1].notice == Some(Notice::ButtonPressed)
            &&& forall|i: int| 2 <= i < trace.len() ==> trace[i].at >= first + config.debounce_ms
        },
{
    let with = seq![first] + bounces + rest;
    let without = seq![first] + rest;
    assert(with[0] == first && without[0] == first);
    assert(with.drop_first() =~= bounces + rest);
    assert(without.drop_first() =~= rest);
    assert(upcoming(with, now) == with);
    assert(upcoming(without, now) == without);
    let settling = State::Debouncing;
    assert(State::Idle.after(config, Event::Edge, first) == settling);
    assert(unfold(config, State::Idle, now, with) == prepend(
        seq![tick_of(config, State::Idle, Event::Edge, first)],
        unfold(config, settling, first, bounces + rest),
    ));
    assert(unfold(config, State::Idle, now, without) == prepend(
        seq![tick_of(config, State::Idle, Event::Edge, first)],
        unfold(config, settling, first, rest),
    ));
    if first + config.debounce_ms <= u64::MAX {
        let confirmed_at = (first + config.debounce_ms) as u64;
        let window = settling.after(config, Event::Timeout, confirmed_at);
        assert(unfold(config, settling, first, bounces + rest) == prepend(
            seq![tick_of(config, settling, Event::Timeout, confirmed_at)],
            unfold(config, window, confirmed_at, bounces + rest),
        ));
        assert(unfold(config, settling, first, rest) == prepend(
            seq![tick_of(config, settling, Event::Timeout, confirmed_at)],
            unfold(config, window, confirmed_at, rest),
        ));
        lemma_overdue_edges_dropped(bounces, rest, confirmed_at);
        assert(resolve(window.awaits(config), confirmed_at, bounces + rest) == resolve(
            window.awaits(config),
            confirmed_at,
            rest,
        ));
        assert(unfold(config, window, confirmed_at, bounces + rest) == unfold(
            config,
            window,
            confirmed_at,
            rest,
        ));
        lemma_replay_keeps_time(config, window, confirmed_at, rest);
    } else {
        assert(unfold(config, settling, first, bounces + rest) is None);
        assert(unfold(config, settling, first, rest) is None);
    }
}

/// The clock of a replay never runs backwards: no tick is earlier than the
/// start, and none is earlier than the tick before it.
pub proof fn lemma_replay_keeps_time(config: Config, state: State, now: u64, pending: Seq<u64>)
    ensures
        unfold(config, state, now, pending) matches Some(trace) ==> {
            &&& forall|i: int| 0 <= i < trace.len() ==> now <= #[trigger] trace[i].at
            &&& forall|i: int, j: int|
                0 <= i <= j < trace.len() ==> (#[trigger] trace[i]).at <= (#[trigger] trace[j]).at
        },
    decreases pending.len(), distance_to_idle(state, config),
{
    lemma_upcoming(pending, now);
    match resolve(state.awaits(config), now, pending) {
        Resolution::At { event, at, pending: rest } => {
            let next = state.after(config, event, at);
            lemma_replay_keeps_time(config, next, at, rest);
            match unfold(config, next, at, rest) {
                Some(tail) => {
                    let trace = seq![tick_of(config, state, event, at)] + tail;
                    assert(unfold(config, state, now, pending) == Some(trace));
                    assert forall|i: int| 0 <= i < trace.len() implies now
                        <= #[trigger] trace[i].at by {
                        if i > 0 {
                            assert(trace[i] == tail[i - 1]);
                        }
                    }
                    assert forall|i: int, j: int| 0 <= i <= j < trace.len() implies (
                    #[trigger] trace[i]).at <= (#[trigger] trace[j]).at by {
                        if i > 0 {
                            assert(trace[i] == tail[i - 1]);
                            assert(trace[j] == tail[j - 1]);
                        } else if j > 0 {
                            assert(trace[j] == tail[j - 1]);
                        }
                    }
                },
                None => {},
            }
        },
        _ => {},
    }
}

/// At every tick of a replay the blower is on exactly if the controller is
/// in the double-press window or in a run, the indicator shows the color of the
/// controller's state, and that state is one the configuration allows.
pub proof fn lemma_replay_levels_follow_state(
    config: Config,
    state: State,
    now: u64,
    pending: Seq<u64>,
)
    requires
        config.valid(),
        state.fits(config),
    ensures
        unfold(config, state, now, pending) matches Some(trace) ==> forall|i: int|
            0 <= i < trace.len() ==> {
                &&& (#[trigger] trace[i]).power_on <==> (trace[i].state is AwaitingSecondPress
                    || trace[i].state is Running)
                &&& trace[i].color == trace[i].state.shown()
                &&& trace[i].state.fits(config)
            },
    decreases pending.len(), distance_to_idle(state, config),
{
    lemma_upcoming(pending, now);
    match resolve(state.awaits(config), now, pending) {
        Resolution::At { event, at, pending: rest } => {
            let next = state.after(config, event, at);
            lemma_replay_levels_follow_state(config, next, at, rest);
            match unfold(config, next, at, rest) {
                Some(tail) => {
                    let trace = seq![tick_of(config, state, event, at)] + tail;
                    assert(unfold(config, state, now, pending) == Some(trace));
                    assert forall|i: int| 0 <= i < trace.len() implies {
                        &&& (#[trigger] trace[i]).power_on <==> (trace[i].state
                            is AwaitingSecondPress || trace[i].state is Running)
                        &&& trace[i].color == trace[i].state.shown()
                        &&& trace[i].state.fits(config)
                    } by {
                        if i > 0 {
                            assert(trace[i] == tail[i - 1]);
                        }
                    }
                },
                None => {},
            }
        },
        _ => {},
    }
}

/// Silence through the double-press window gives a run of the base length:
/// if no edge falls before the window closes, the window ends by its timer and
/// the run that begins is not extended.
pub proof fn lemma_silence_gives_base_run(
    config: Config,
    session: RunSession,
    now: u64,
    pending: Seq<u64>,
)
    requires
        now + config.double_press_ms <= u64::MAX,
        upcoming(pending, now).len() > 0 ==> upcoming(pending, now)[0] >= now
            + config.double_press_ms,
    ensures
        next_tick(config, State::AwaitingSecondPress { session }, now, pending) == Some(
            Tick {
                at: (now + config.double_press_ms) as u64,
                event: Event::Timeout,
                state: State::Running {
                    session: RunSession {
                        started_at: session.started_at,
                        duration_ms: config.base_run_ms,
                        extended: false,
                    },
                },
                notice: None,
                outcome: None,
                power_on: true,
                color: Color::Active,
            },
        ),
{
    lemma_upcoming(pending, now);
}

/// A second press that falls strictly before the double-press window closes
/// extends the run: the window ends at the instant of the press, and the run
/// that begins there lasts the base length times the multiplier.
pub proof fn lemma_second_press_extends_run(
    config: Config,
    session: RunSession,
    now: u64,
    pending: Seq<u64>,
)
    requires
        config.valid(),
        upcoming(pending, now).len() > 0,
        upcoming(pending, now)[0] < now + config.double_press_ms,
    ensures
        next_tick(config, State::AwaitingSecondPress { session }, now, pending) == Some(
            Tick {
                at: upcoming(pending, now)[0],
                event: Event::Edge,
                state: State::Running {
                    session: RunSession {
                        started_at: session.started_at,
                        duration_ms: (config.base_run_ms * config.extended_multiplier) as u64,
                        extended: true,
                    },
                },
                notice: Some(Notice::DoublePress),
                outcome: None,
                power_on: true,
                color: Color::Extended,
            },
        ),
        config.base_run_ms * config.extended_multiplier <= u64::MAX,
{
    lemma_upcoming(pending, now);
}

/// A press during a run stops the blower at the instant of the press, not at
/// the end of the run timer, however much of the run was left.
pub proof fn lemma_press_stops_run_at_once(
    config: Config,
    session: RunSession,
    now: u64,
    pending: Seq<u64>,
)
    requires
        upcoming(pending, now).len() > 0,
        upcoming(pending, now)[0] < now + session.duration_ms,
    ensures
        next_tick(config, State::Running { session }, now, pending) == Some(
            Tick {
                at: upcoming(pending, now)[0],
                event: Event::Edge,
                state: State::wind_down(config, Outcome::InterruptedByPress),
                notice: Some(Notice::ButtonPressedAgain),
                outcome: Some(Outcome::InterruptedByPress),
                power_on: false,
                color: State::wind_down(config, Outcome::InterruptedByPress).shown(),
            },
        ),
{
    lemma_upcoming(pending, now);
}

/// A run that no press cuts short ends when its timer does.
pub proof fn lemma_undisturbed_run_completes(
    config: Config,
    session: RunSession,
    now: u64,
    pending: Seq<u64>,
)
    requires
        now + session.duration_ms <= u64::MAX,
        upcoming(pending, now).len() > 0 ==> upcoming(pending, now)[0] >= now
            + session.duration_ms,
    ensures
        next_tick(config, State::Running { session }, now, pending) == Some(
            Tick {
                at: (now + session.duration_ms) as u64,
                event: Event::Timeout,
                state: State::wind_down(config, Outcome::CompletedByTimeout),
                notice: Some(Notice::TimerExpired),
                outcome: Some(Outcome::CompletedByTimeout),
                power_on: false,
                color: State::wind_down(config, Outcome::CompletedByTimeout).shown(),
            },
        ),
{
    lemma_upcoming(pending, now);
}

/// No wait that is opened at `from` sees an edge before `until`.
pub open spec fn quiet(pending: Seq<u64>, from: u64, until: int) -> bool {
    upcoming(pending, from).len() > 0 ==> upcoming(pending, from)[0] >= until
}

/// The session of a press that was confirmed at `at`, before the gesture is
/// known.
pub open spec fn fresh_session(config: Config, at: u64) -> RunSession {
    RunSession { started_at: at, duration_ms: config.base_run_ms, extended: false }
}

/// A replay is its next tick followed by the replay from there.
proof fn lemma_unfold_once(config: Config, state: State, now: u64, pending: Seq<u64>)
    ensures
        match resolve(state.awaits(config), now, pending) {
            Resolution::Never => unfold(config, state, now, pending) == Some(Seq::<Tick>::empty()),
            Resolution::Overflow => unfold(config, state, now, pending) is None,
            Resolution::At { event, at, pending: rest } => {
                &&& unfold(config, state, now, pending) == prepend(
                    seq![tick_of(config, state, event, at)],
                    unfold(config, state.after(config, event, at), at, rest),
                )
                &&& unfold(config, state, now, pending) matches Some(trace) ==> {
                    &&& unfold(config, state.after(config, event, at), at, rest) matches Some(
                        tail,
                    )
                    &&& trace.len() == tail.len() + 1
                    &&& trace[0] == tick_of(config, state, event, at)
                    &&& forall|i: int| 0 <= i < tail.len() ==> trace[i + 1] == tail[i]
                }
            },
        },
{
}

/// An edge that the idle controller sees is a confirmed press one debounce
/// time later: the replay begins with the edge and with the end of the
/// debounce, where the blower goes on, and goes on from the double-press window.
pub proof fn lemma_press_is_confirmed(config: Config, now: u64, first: u64, rest: Seq<u64>)
    requires
        now <= first,
        first + config.debounce_ms <= u64::MAX,
    ensures
        unfold(config, State::Idle, now, seq![first] + rest) matches Some(trace) ==> {
            let confirmed_at = (first + config.debounce_ms) as u64;
            let window = State::AwaitingSecondPress {
                session: fresh_session(config, confirmed_at),
            };
            &&& unfold(config, window, confirmed_at, rest) matches Some(tail)
            &&& trace.len() == tail.len() + 2
            &&& forall|i: int| 0 <= i < tail.len() ==> trace[i + 2] == tail[i]
            &&& trace[0] == (Tick {
                at: first,
                event: Event::Edge,
                state: State::Debouncing,
                notice: None,
                outcome: None,
                power_on: false,
                color: Color::Off,
            })
            &&& trace[1] == (Tick {
                at: confirmed_at,
                event: Event::Timeout,
                state: window,
                notice: Some(Notice::ButtonPressed),
                outcome: None,
                power_on: true,
                color: Color::Active,
            })
        },
{
    let schedule = seq![first] + rest;
    assert(schedule[0] == first);
    assert(schedule.drop_first() =~= rest);
    assert(upcoming(schedule, now) == schedule);
    lemma_unfold_once(config, State::Idle, now, schedule);
    lemma_unfold_once(config, State::Debouncing, first, rest);
}

/// A single press, left alone, powers the blower from the end of the
/// debounce to the end of the double-press window plus the base run, and the
/// run completes by its timer.
pub proof fn lemma_single_press_cycle(config: Config, now: u64, first: u64, rest: Seq<u64>)
    requires
        now <= first,
        first + config.debounce_ms + config.double_press_ms + config.base_run_ms <= u64::MAX,
        quiet(
            rest,
            (first + config.debounce_ms) as u64,
            first + config.debounce_ms + config.double_press_ms + config.base_run_ms,
        ),
    ensures
        unfold(config, State::Idle, now, seq![first] + rest) matches Some(trace) ==> {
            let on_at = (first + config.debounce_ms) as u64;
            let run_at = (on_at + config.double_press_ms) as u64;
            let off_at = (run_at + config.base_run_ms) as u64;
            let session = fresh_session(config, on_at);
            &&& trace.len() >= 4
            &&& !trace[0].power_on
            &&& trace[1].at == on_at && trace[1].power_on
            &&& trace[2] == (Tick {
                at: run_at,
                event: Event::Timeout,
                state: State::Running { session },
                notice: None,
                outcome: None,
                power_on: true,
                color: Color::Active,
            })
            &&& trace[3] == (Tick {
                at: off_at,
                event: Event::Timeout,
                state: State::wind_down(config, Outcome::CompletedByTimeout),
                notice: Some(Notice::TimerExpired),
                outcome: Some(Outcome::CompletedByTimeout),
                power_on: false,
                color: State::wind_down(config, Outcome::CompletedByTimeout).shown(),
            })
        },
{
    let on_at = (first + config.debounce_ms) as u64;
    let run_at = (on_at + config.double_press_ms) as u64;
    let session = fresh_session(config, on_at);
    let window = State::AwaitingSecondPress { session };
    let run = State::Running { session };
    let due = upcoming(rest, on_at);
    lemma_press_is_confirmed(config, now, first, rest);
    lemma_upcoming(rest, on_at);
    lemma_unfold_once(config, window, on_at, rest);
    lemma_silence_gives_base_run(config, session, on_at, rest);
    assert(upcoming(due, run_at) == due);
    lemma_unfold_once(config, run, run_at, due);
    lemma_undisturbed_run_completes(config, session, run_at, due);
}

/// A second press within the double-press window makes the run last the
/// base length times the multiplier, counted from the second press.
pub proof fn lemma_double_press_cycle(config: Config, now: u64, first: u64, rest: Seq<u64>)
    requires
        config.valid(),
        now <= first,
        first + config.debounce_ms <= u64::MAX,
        upcoming(rest, (first + config.debounce_ms) as u64).len() > 0,
        upcoming(rest, (first + config.debounce_ms) as u64)[0] < first + config.debounce_ms
            + config.double_press_ms,
        upcoming(rest, (first + config.debounce_ms) as u64)[0] + config.extended_run()
            <= u64::MAX,
        quiet(
            upcoming(rest, (first + config.debounce_ms) as u64).drop_first(),
            upcoming(rest, (first + config.debounce_ms) as u64)[0],
            upcoming(rest, (first + config.debounce_ms) as u64)[0] + config.extended_run(),
        ),
    ensures
        unfold(config, State::Idle, now, seq![first] + rest) matches Some(trace) ==> {
            let on_at = (first + config.debounce_ms) as u64;
            let second = upcoming(rest, on_at)[0];
            let session = RunSession {
                started_at: on_at,
                duration_ms: config.extended_run() as u64,
                extended: true,
            };
            &&& trace.len() >= 4
            &&& trace[1].at == on_at && trace[1].power_on
            &&& trace[2] == (Tick {
                at: second,
                event: Event::Edge,
                state: State::Running { session },
                notice: Some(Notice::DoublePress),
                outcome: None,
                power_on: true,
                color: Color::Extended,
            })
            &&& trace[3] == (Tick {
                at: (second + config.extended_run()) as u64,
                event: Event::Timeout,
                state: State::wind_down(config, Outcome::CompletedByTimeout),
                notice: Some(Notice::TimerExpired),
                outcome: Some(Outcome::CompletedByTimeout),
                power_on: false,
                color: State::wind_down(config, Outcome::CompletedByTimeout).shown(),
            })
            &&& trace[3].at - trace[2].at == config.base_run_ms * config.extended_multiplier
        },
{
    let on_at = (first + config.debounce_ms) as u64;
    let due = upcoming(rest, on_at);
    let second = due[0];
    let early = fresh_session(config, on_at);
    let session = RunSession {
        started_at: on_at,
        duration_ms: config.extended_run() as u64,
        extended: true,
    };
    lemma_press_is_confirmed(config, now, first, rest);
    lemma_upcoming(rest, on_at);
    lemma_unfold_once(config, State::AwaitingSecondPress { session: early }, on_at, rest);
    lemma_second_press_extends_run(config, early, on_at, rest);
    lemma_unfold_once(config, State::Running { session }, second, due.drop_first());
    lemma_undisturbed_run_completes(config, session, second, due.drop_first());
}

/// A press during the run of a single press stops the blower at the instant
/// of that press, before the run timer would have.
pub proof fn lemma_interrupted_cycle(config: Config, now: u64, first: u64, rest: Seq<u64>)
    requires
        now <= first,
        first + config.debounce_ms + config.double_press_ms <= u64::MAX,
        upcoming(rest, (first + config.debounce_ms) as u64).len() > 0,
        first + config.debounce_ms + config.double_press_ms <= upcoming(
            rest,
            (first + config.debounce_ms) as u64,
        )[0] < first + config.debounce_ms + config.double_press_ms + config.base_run_ms,
    ensures
        unfold(config, State::Idle, now, seq![first] + rest) matches Some(trace) ==> {
            let on_at = (first + config.debounce_ms) as u64;
            let third = upcoming(rest, on_at)[0];
            &&& trace.len() >= 4
            &&& trace[1].at == on_at && trace[1].power_on
            &&& trace[2].at == on_at + config.double_press_ms && trace[2].power_on
            &&& trace[3] == (Tick {
                at: third,
                event: Event::Edge,
                state: State::wind_down(config, Outcome::InterruptedByPress),
                notice: Some(Notice::ButtonPressedAgain),
                outcome: Some(Outcome::InterruptedByPress),
                power_on: false,
                color: State::wind_down(config, Outcome::InterruptedByPress).shown(),
            })
            &&& trace[3].at < on_at + config.double_press_ms + config.base_run_ms
        },
{
    let on_at = (first + config.debounce_ms) as u64;
    let run_at = (on_at + config.double_press_ms) as u64;
    let session = fresh_session(config, on_at);
    let due = upcoming(rest, on_at);
    lemma_press_is_confirmed(config, now, first, rest);
    lemma_upcoming(rest, on_at);
    lemma_unfold_once(config, State::AwaitingSecondPress { session }, on_at, rest);
    lemma_silence_gives_base_run(config, session, on_at, rest);
    assert(upcoming(due, run_at) == due);
    lemma_unfold_once(config, State::Running { session }, run_at, due);
    lemma_press_stops_run_at_once(config, session, run_at, due);
}

} // verus!
