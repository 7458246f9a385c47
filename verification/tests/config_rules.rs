use blower::config::{Config, ConfigError};
use blower::machine::{Controller, State};

fn shipped() -> Config {
    Config::default()
}

#[test]
fn default_holds_the_shipped_timings() {
    let c = Config::default();
    assert_eq!(c.debounce_ms, 250);
    assert_eq!(c.double_press_ms, 2000);
    assert_eq!(c.base_run_ms, 210_000);
    assert_eq!(c.extended_multiplier, 2);
    assert_eq!(c.cooldown_ms, 500);
    assert_eq!(c.blink_count, 3);
    assert_eq!(c.blink_step_ms, 500);
    assert_eq!(c.validate(), Ok(()));
}

#[test]
fn run_duration_is_base_or_base_times_multiplier() {
    let c = shipped();
    assert_eq!(c.run_duration(false), 210_000);
    assert_eq!(c.run_duration(true), 420_000);
    let triple = Config { base_run_ms: 7, extended_multiplier: 3, ..shipped() };
    assert_eq!(triple.run_duration(false), 7);
    assert_eq!(triple.run_duration(true), 21);
    let same = Config { extended_multiplier: 1, ..shipped() };
    assert_eq!(same.run_duration(true), same.run_duration(false));
}

#[test]
fn zero_debounce_is_rejected() {
    let c = Config { debounce_ms: 0, ..shipped() };
    assert_eq!(c.validate(), Err(ConfigError::ZeroDebounce));
    assert_eq!(Controller::new(c), Err(ConfigError::ZeroDebounce));
}

#[test]
fn zero_double_press_window_is_rejected() {
    let c = Config { double_press_ms: 0, ..shipped() };
    assert_eq!(c.validate(), Err(ConfigError::ZeroDoublePressWindow));
}

#[test]
fn zero_base_run_is_rejected() {
    let c = Config { base_run_ms: 0, ..shipped() };
    assert_eq!(c.validate(), Err(ConfigError::ZeroBaseRun));
}

#[test]
fn zero_multiplier_is_rejected() {
    let c = Config { extended_multiplier: 0, ..shipped() };
    assert_eq!(c.validate(), Err(ConfigError::ZeroMultiplier));
}

#[test]
fn zero_cooldown_is_rejected() {
    let c = Config { cooldown_ms: 0, ..shipped() };
    assert_eq!(c.validate(), Err(ConfigError::ZeroCooldown));
}

#[test]
fn zero_blink_step_is_rejected() {
    let c = Config { blink_step_ms: 0, ..shipped() };
    assert_eq!(c.validate(), Err(ConfigError::ZeroBlinkStep));
}

#[test]
fn extended_run_that_overflows_is_rejected() {
    let c = Config { base_run_ms: u64::MAX / 2 + 1, extended_multiplier: 2, ..shipped() };
    assert_eq!(c.validate(), Err(ConfigError::ExtendedRunTooLong));
    let fits = Config { base_run_ms: u64::MAX / 2, extended_multiplier: 2, ..shipped() };
    assert_eq!(fits.validate(), Ok(()));
    assert_eq!(fits.run_duration(true), u64::MAX - 1);
}

#[test]
fn the_first_broken_rule_is_reported() {
    let c = Config { debounce_ms: 0, cooldown_ms: 0, base_run_ms: 0, ..shipped() };
    assert_eq!(c.validate(), Err(ConfigError::ZeroDebounce));
    let d = Config { cooldown_ms: 0, base_run_ms: 0, ..shipped() };
    assert_eq!(d.validate(), Err(ConfigError::ZeroBaseRun));
}

#[test]
fn zero_blinks_are_allowed() {
    let c = Config { blink_count: 0, ..shipped() };
    assert_eq!(c.validate(), Ok(()));
    assert!(Controller::new(c).is_ok());
}

#[test]
fn a_new_controller_is_idle_and_keeps_its_config() {
    let c = Config { debounce_ms: 17, ..shipped() };
    let ctl = Controller::new(c).unwrap();
    assert_eq!(ctl.state(), State::Idle);
    assert_eq!(ctl.config(), c);
}
