use blower::config::Config;
use blower::machine::{transition, Controller, RunSession, State};
use blower::signal::{Color, Command, Event, Notice, Outcome, Wait};

fn cfg() -> Config {
    Config::default()
}

fn confirmed(at: u64) -> Controller {
    let mut ctl = Controller::new(cfg()).unwrap();
    ctl.step(Event::Edge, at);
    ctl.step(Event::Timeout, at + 250);
    ctl
}

#[test]
fn idle_waits_for_an_edge() {
    let ctl = Controller::new(cfg()).unwrap();
    assert_eq!(ctl.pending(), Wait::Edge);
    assert!(!ctl.state().power_on());
    assert_eq!(ctl.state().color(), Color::Off);
}

#[test]
fn an_edge_starts_the_debounce() {
    let mut ctl = Controller::new(cfg()).unwrap();
    let cmd = ctl.step(Event::Edge, 0);
    assert_eq!(ctl.state(), State::Debouncing);
    assert_eq!(
        cmd,
        Command {
            power_on: false,
            color: Color::Off,
            notice: None,
            outcome: None,
            wait: Wait::Timer(250),
        }
    );
}

#[test]
fn a_timeout_in_idle_changes_nothing() {
    let mut ctl = Controller::new(cfg()).unwrap();
    let cmd = ctl.step(Event::Timeout, 5);
    assert_eq!(ctl.state(), State::Idle);
    assert_eq!(
        cmd,
        Command { power_on: false, color: Color::Off, notice: None, outcome: None, wait: Wait::Edge }
    );
}

#[test]
fn bounces_during_debounce_yield_one_confirmed_press() {
    let mut ctl = Controller::new(cfg()).unwrap();
    ctl.step(Event::Edge, 0);
    let mut confirmed_presses = 0;
    for n in 1..=20u64 {
        let cmd = ctl.step(Event::Edge, n * 10);
        assert_eq!(ctl.state(), State::Debouncing);
        assert_eq!(cmd.notice, None);
        assert!(!cmd.power_on);
        assert_eq!(cmd.wait, Wait::Timer(250));
        if cmd.notice == Some(Notice::ButtonPressed) {
            confirmed_presses += 1;
        }
    }
    let cmd = ctl.step(Event::Timeout, 250);
    if cmd.notice == Some(Notice::ButtonPressed) {
        confirmed_presses += 1;
    }
    assert_eq!(confirmed_presses, 1);
    assert!(matches!(ctl.state(), State::AwaitingSecondPress { .. }));
}

#[test]
fn the_end_of_the_debounce_switches_the_blower_on() {
    let mut ctl = Controller::new(cfg()).unwrap();
    ctl.step(Event::Edge, 40);
    let cmd = ctl.step(Event::Timeout, 290);
    assert_eq!(
        ctl.state(),
        State::AwaitingSecondPress {
            session: RunSession { started_at: 290, duration_ms: 210_000, extended: false },
        }
    );
    assert_eq!(
        cmd,
        Command {
            power_on: true,
            color: Color::Active,
            notice: Some(Notice::ButtonPressed),
            outcome: None,
            wait: Wait::Race(2000),
        }
    );
}

#[test]
fn single_press_runs_for_the_base_duration() {
    let mut ctl = confirmed(0);
    let cmd = ctl.step(Event::Timeout, 2250);
    assert_eq!(
        ctl.state(),
        State::Running {
            session: RunSession { started_at: 250, duration_ms: 210_000, extended: false },
        }
    );
    assert_eq!(
        cmd,
        Command {
            power_on: true,
            color: Color::Active,
            notice: None,
            outcome: None,
            wait: Wait::Race(210_000),
        }
    );
}

#[test]
fn double_press_runs_for_the_extended_duration() {
    let mut ctl = confirmed(0);
    let cmd = ctl.step(Event::Edge, 260);
    assert_eq!(
        ctl.state(),
        State::Running {
            session: RunSession { started_at: 250, duration_ms: 420_000, extended: true },
        }
    );
    assert_eq!(
        cmd,
        Command {
            power_on: true,
            color: Color::Extended,
            notice: Some(Notice::DoublePress),
            outcome: None,
            wait: Wait::Race(420_000),
        }
    );
}

#[test]
fn the_multiplier_scales_the_extended_run() {
    let c = Config { base_run_ms: 1000, extended_multiplier: 5, ..cfg() };
    let mut ctl = Controller::new(c).unwrap();
    ctl.step(Event::Edge, 0);
    ctl.step(Event::Timeout, 250);
    let cmd = ctl.step(Event::Edge, 300);
    assert_eq!(cmd.wait, Wait::Race(5000));
}

#[test]
fn a_press_during_the_run_switches_the_blower_off() {
    let mut ctl = confirmed(0);
    ctl.step(Event::Timeout, 2250);
    let cmd = ctl.step(Event::Edge, 2251);
    assert_eq!(ctl.state(), State::Feedback { outcome: Outcome::InterruptedByPress, index: 0 });
    assert_eq!(
        cmd,
        Command {
            power_on: false,
            color: Color::Interrupted,
            notice: Some(Notice::ButtonPressedAgain),
            outcome: Some(Outcome::InterruptedByPress),
            wait: Wait::Timer(500),
        }
    );
}

#[test]
fn a_press_interrupts_an_extended_run_too() {
    let mut ctl = confirmed(0);
    ctl.step(Event::Edge, 1000);
    let cmd = ctl.step(Event::Edge, 400_000);
    assert!(!cmd.power_on);
    assert_eq!(cmd.outcome, Some(Outcome::InterruptedByPress));
}

#[test]
fn the_run_timer_completes_the_run() {
    let mut ctl = confirmed(0);
    ctl.step(Event::Timeout, 2250);
    let cmd = ctl.step(Event::Timeout, 212_250);
    assert_eq!(ctl.state(), State::Feedback { outcome: Outcome::CompletedByTimeout, index: 0 });
    assert_eq!(
        cmd,
        Command {
            power_on: false,
            color: Color::Complete,
            notice: Some(Notice::TimerExpired),
            outcome: Some(Outcome::CompletedByTimeout),
            wait: Wait::Timer(500),
        }
    );
}

#[test]
fn feedback_blinks_three_times_then_cools_down() {
    let mut ctl = confirmed(0);
    ctl.step(Event::Timeout, 2250);
    let first = ctl.step(Event::Timeout, 212_250);
    let mut colors = vec![first.color];
    let mut now = 212_250;
    loop {
        now += 500;
        let cmd = ctl.step(Event::Timeout, now);
        assert!(!cmd.power_on);
        assert_eq!(cmd.notice, None);
        assert_eq!(cmd.outcome, None);
        if ctl.state() == State::Cooldown {
            assert_eq!(cmd.color, Color::Off);
            assert_eq!(cmd.wait, Wait::Timer(500));
            break;
        }
        assert_eq!(cmd.wait, Wait::Timer(500));
        colors.push(cmd.color);
    }
    assert_eq!(
        colors,
        vec![
            Color::Complete,
            Color::Off,
            Color::Complete,
            Color::Off,
            Color::Complete,
            Color::Off
        ]
    );
    let cmd = ctl.step(Event::Timeout, now + 500);
    assert_eq!(ctl.state(), State::Idle);
    assert_eq!(cmd.wait, Wait::Edge);
    assert_eq!(cmd.color, Color::Off);
}

#[test]
fn edges_during_feedback_and_cooldown_are_ignored() {
    let mut ctl = confirmed(0);
    ctl.step(Event::Timeout, 2250);
    ctl.step(Event::Edge, 3000);
    let state = ctl.state();
    let cmd = ctl.step(Event::Edge, 3001);
    assert_eq!(ctl.state(), state);
    assert_eq!(
        cmd,
        Command {
            power_on: false,
            color: Color::Interrupted,
            notice: None,
            outcome: None,
            wait: Wait::Timer(500),
        }
    );
    for _ in 0..6 {
        ctl.step(Event::Timeout, 4000);
    }
    assert_eq!(ctl.state(), State::Cooldown);
    let cmd = ctl.step(Event::Edge, 7000);
    assert_eq!(ctl.state(), State::Cooldown);
    assert_eq!(cmd.wait, Wait::Timer(500));
    assert_eq!(cmd.notice, None);
}

#[test]
fn without_blinks_a_run_ends_in_the_cooldown() {
    let c = Config { blink_count: 0, ..cfg() };
    let mut ctl = Controller::new(c).unwrap();
    ctl.step(Event::Edge, 0);
    ctl.step(Event::Timeout, 250);
    ctl.step(Event::Timeout, 2250);
    let cmd = ctl.step(Event::Timeout, 212_250);
    assert_eq!(ctl.state(), State::Cooldown);
    assert_eq!(
        cmd,
        Command {
            power_on: false,
            color: Color::Off,
            notice: Some(Notice::TimerExpired),
            outcome: Some(Outcome::CompletedByTimeout),
            wait: Wait::Timer(500),
        }
    );
}

#[test]
fn the_blower_is_on_exactly_in_the_window_and_the_run() {
    let mut ctl = Controller::new(cfg()).unwrap();
    let events = [
        Event::Timeout,
        Event::Edge,
        Event::Edge,
        Event::Timeout,
        Event::Edge,
        Event::Timeout,
        Event::Edge,
        Event::Timeout,
        Event::Timeout,
        Event::Timeout,
        Event::Timeout,
        Event::Timeout,
        Event::Timeout,
        Event::Edge,
        Event::Edge,
        Event::Timeout,
        Event::Timeout,
        Event::Edge,
    ];
    let mut now = 0;
    for e in events {
        now += 100;
        let cmd = ctl.step(e, now);
        let in_session = matches!(
            ctl.state(),
            State::AwaitingSecondPress { .. } | State::Running { .. }
        );
        assert_eq!(cmd.power_on, in_session);
        assert_eq!(ctl.state().power_on(), in_session);
        assert_eq!(cmd.color, ctl.state().color());
        assert_eq!(cmd.wait, ctl.pending());
    }
}

#[test]
fn transition_is_what_step_does() {
    let c = cfg();
    let (s1, c1) = transition(&c, State::Idle, Event::Edge, 9);
    assert_eq!(s1, State::Debouncing);
    assert_eq!(c1.wait, Wait::Timer(250));
    let (s2, c2) = transition(&c, s1, Event::Timeout, 259);
    assert_eq!(
        s2,
        State::AwaitingSecondPress {
            session: RunSession { started_at: 259, duration_ms: 210_000, extended: false },
        }
    );
    assert!(c2.power_on);
    let mut ctl = Controller::new(c).unwrap();
    assert_eq!(ctl.step(Event::Edge, 9), c1);
    assert_eq!(ctl.step(Event::Timeout, 259), c2);
    assert_eq!(ctl.state(), s2);
}

#[test]
fn each_state_names_its_wait() {
    let c = cfg();
    let s = RunSession { started_at: 0, duration_ms: 420_000, extended: true };
    assert_eq!(State::Idle.wait(&c), Wait::Edge);
    assert_eq!(State::Debouncing.wait(&c), Wait::Timer(250));
    assert_eq!(State::AwaitingSecondPress { session: s }.wait(&c), Wait::Race(2000));
    assert_eq!(State::Running { session: s }.wait(&c), Wait::Race(420_000));
    assert_eq!(
        State::Feedback { outcome: Outcome::CompletedByTimeout, index: 1 }.wait(&c),
        Wait::Timer(500)
    );
    assert_eq!(State::Cooldown.wait(&c), Wait::Timer(500));
}

#[test]
fn each_state_has_its_color() {
    let base = RunSession { started_at: 0, duration_ms: 210_000, extended: false };
    let long = RunSession { started_at: 0, duration_ms: 420_000, extended: true };
    assert_eq!(State::Idle.color(), Color::Off);
    assert_eq!(State::Debouncing.color(), Color::Off);
    assert_eq!(State::AwaitingSecondPress { session: base }.color(), Color::Active);
    assert_eq!(State::Running { session: base }.color(), Color::Active);
    assert_eq!(State::Running { session: long }.color(), Color::Extended);
    assert_eq!(
        State::Feedback { outcome: Outcome::InterruptedByPress, index: 4 }.color(),
        Color::Interrupted
    );
    assert_eq!(
        State::Feedback { outcome: Outcome::InterruptedByPress, index: 5 }.color(),
        Color::Off
    );
    assert_eq!(State::Cooldown.color(), Color::Off);
}

#[test]
fn notices_have_their_wording() {
    assert_eq!(Notice::ButtonPressed.text(), "Button pressed");
    assert_eq!(Notice::DoublePress.text(), "Double press");
    assert_eq!(Notice::TimerExpired.text(), "Timer expired");
    assert_eq!(Notice::ButtonPressedAgain.text(), "Button pressed again");
}
