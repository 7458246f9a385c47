//! Timing constants of the controller and the rules they have to obey.

use vstd::prelude::*;

verus! {

/// The timing constants. Every duration is in milliseconds.
#[derive(Clone, Copy, Debug, PartialEq, Eq)]
pub struct Config {
    /// Settle time after the first edge, waited out unconditionally.
    pub debounce_ms: u64,
    /// How long after a confirmed press a second press extends the run.
    pub double_press_ms: u64,
    /// Length of a run after a single press.
    pub base_run_ms: u64,
    /// Factor applied to the base length after a double press.
    pub extended_multiplier: u64,
    /// Pause at the end of a cycle before the next press is accepted.
    pub cooldown_ms: u64,
    /// Number of blinks that report how a run ended.
    pub blink_count: u32,
    /// How long each half of a blink is held.
    pub blink_step_ms: u64,
}

/// The rule that a configuration breaks.
#[derive(Clone, Copy, Debug, PartialEq, Eq, Structural)]
pub enum ConfigError {
    ZeroDebounce,
    ZeroDoublePressWindow,
    ZeroBaseRun,
    ZeroMultiplier,
    ZeroCooldown,
    ZeroBlinkStep,
    /// The extended run does not fit in 64 bits of milliseconds.
    ExtendedRunTooLong,
}

impl Config {
    /// Length of an extended run, as a mathematical integer.
    pub open spec fn extended_run(self) -> int {
        self.base_run_ms * self.extended_multiplier
    }

    /// The first rule that the configuration breaks, if any: every duration
    /// is positive, the multiplier is at least one, and the extended run is
    /// representable.
    pub open spec fn verdict(self) -> Result<(), ConfigError> {
        if self.debounce_ms == 0 {
            Err(ConfigError::ZeroDebounce)
        } else if self.double_press_ms == 0 {
            Err(ConfigError::ZeroDoublePressWindow)
        } else if self.base_run_ms == 0 {
            Err(ConfigError::ZeroBaseRun)
        } else if self.extended_multiplier == 0 {
            Err(ConfigError::ZeroMultiplier)
        } else if self.cooldown_ms == 0 {
            Err(ConfigError::ZeroCooldown)
        } else if self.blink_step_ms == 0 {
            Err(ConfigError::ZeroBlinkStep)
        } else if self.extended_run() > u64::MAX {
            Err(ConfigError::ExtendedRunTooLong)
        } else {
            Ok(())
        }
    }

    /// A configuration that the controller accepts.
    pub open spec fn valid(self) -> bool {
        &&& self.debounce_ms > 0
        &&& self.double_press_ms > 0
        &&& self.base_run_ms > 0
        &&& self.extended_multiplier >= 1
        &&& self.cooldown_ms > 0
        &&& self.blink_step_ms > 0
        &&& self.extended_run() <= u64::MAX
    }

    /// Length of the run timer for either gesture.
    pub open spec fn run_length(self, extended: bool) -> int {
        if extended {
            self.extended_run()
        } else {
            self.base_run_ms as int
        }
    }

    /// Number of light changes in the blink sequence that ends a cycle: each
    /// blink is one lit step and one dark step.
    pub open spec fn plan_len(self) -> int {
        2 * self.blink_count
    }

    /// Checks the configuration and names the first rule it breaks.
    pub fn validate(&self) -> (r: Result<(), ConfigError>)
        ensures
            r == self.verdict(),
            r is Ok <==> self.valid(),
    {
        if self.debounce_ms == 0 {
            Err(ConfigError::ZeroDebounce)
        } else if self.double_press_ms == 0 {
            Err(ConfigError::ZeroDoublePressWindow)
        } else if self.base_run_ms == 0 {
            Err(ConfigError::ZeroBaseRun)
        } else if self.extended_multiplier == 0 {
            Err(ConfigError::ZeroMultiplier)
        } else if self.cooldown_ms == 0 {
            Err(ConfigError::ZeroCooldown)
        } else if self.blink_step_ms == 0 {
            Err(ConfigError::ZeroBlinkStep)
        } else if self.base_run_ms.checked_mul(self.extended_multiplier).is_none() {
            Err(ConfigError::ExtendedRunTooLong)
        } else {
            Ok(())
        }
    }

    /// The run timer's length in milliseconds: the base length after a single
    /// press, the base length times the multiplier after a double press.
    pub fn run_duration(&self, extended: bool) -> (d: u64)
        requires
            self.valid(),
        ensures
            d == self.run_length(extended),
            d >= self.base_run_ms,
            d > 0,
    {
        if extended {
            proof {
                assert(self.base_run_ms * self.extended_multiplier >= self.base_run_ms)
                    by (nonlinear_arith)
                    requires
                        self.extended_multiplier >= 1,
                ;
            }
            self.base_run_ms * self.extended_multiplier
        } else {
            self.base_run_ms
        }
    }
}

impl Default for Config {
    /// The timings the blower ships with: a quarter second of debounce, two
    /// seconds to press again, three and a half minutes of run, doubled by a
    /// second press, and three half-second blinks before a half-second pause.
    fn default() -> (c: Config)
        ensures
            c == (Config {
                debounce_ms: 250,
                double_press_ms: 2000,
                base_run_ms: 210_000,
                extended_multiplier: 2,
                cooldown_ms: 500,
                blink_count: 3,
                blink_step_ms: 500,
            }),
            c.valid(),
    {
        Config {
            debounce_ms: 250,
            double_press_ms: 2000,
            base_run_ms: 210_000,
            extended_multiplier: 2,
            cooldown_ms: 500,
            blink_count: 3,
            blink_step_ms: 500,
        }
    }
}

} // verus!
