//! The difficulty configuration of a session.
//!
//! Chances and thresholds are fixed-point numbers in hundredths of a percent:
//! `10_000` stands for 100 %, `1_250` for 12.5 %.

use vstd::arithmetic::power::{lemma0_pow, lemma1_pow, lemma_pow0, lemma_pow_increases, pow};
use vstd::prelude::*;

verus! {

/// The value that stands for 100 % on the scale of chances and thresholds.
pub const FULL_SCALE: u32 = 10_000;

/// Who decides the level of the next session: the engine, from the score of
/// the last one, or the player.
#[derive(Clone, Copy, Debug, PartialEq, Eq, Structural)]
pub enum Mode {
    Auto,
    Manual,
}

impl Default for Mode {
    fn default() -> (mode: Mode)
        ensures
            mode == Mode::Auto,
    {
        Mode::Auto
    }
}

/// The configuration a session is started with. The engine only reads it.
#[derive(Clone, Copy, Debug, PartialEq, Eq, Structural)]
pub struct SettingValues {
    /// Trials of a session at any level.
    pub base_trials: u32,
    /// Weight of the level-dependent part of the trial count.
    pub trial_factor: u32,
    /// Exponent the level is raised to in the trial count.
    pub trial_exponent: u32,
    pub mode: Mode,
    /// A score strictly above this raises the level.
    pub raise_threshold: u32,
    /// A score strictly below this lowers the level.
    pub lower_threshold: u32,
    /// Chance that a coordinate repeats the one shown `level` trials earlier.
    pub chance_of_guaranteed_match: u32,
    /// Chance that a coordinate repeats a neighbour of the one shown `level`
    /// trials earlier.
    pub chance_of_interference: u32,
}

/// The values the settings editor works on until the player saves them.
#[derive(Clone, Copy, Debug, PartialEq, Eq, Structural)]
pub struct StagedSettingValues {
    pub base_trials: u32,
    pub trial_factor: u32,
    pub trial_exponent: u32,
    pub mode: Mode,
    pub raise_threshold: u32,
    pub lower_threshold: u32,
    pub chance_of_guaranteed_match: u32,
    pub chance_of_interference: u32,
}

impl Default for SettingValues {
    fn default() -> (settings: SettingValues)
        ensures
            settings == SettingValues::standard(),
    {
        SettingValues {
            base_trials: 20,
            trial_factor: 1,
            trial_exponent: 2,
            mode: Mode::Auto,
            raise_threshold: 8_000,
            lower_threshold: 5_000,
            chance_of_guaranteed_match: 1_250,
            chance_of_interference: 0,
        }
    }
}

/// `base` raised to the power `exp`, or `None` when that does not fit in a
/// `u32`.
pub fn checked_power(base: u32, exp: u32) -> (power: Option<u32>)
    ensures
        match power {
            Some(p) => p == pow(base as int, exp as nat),
            None => pow(base as int, exp as nat) > u32::MAX,
        },
{
    if exp == 0 {
        proof {
            lemma_pow0(base as int);
        }
        return Some(1);
    }
    if base == 0 {
        proof {
            lemma0_pow(exp as nat);
        }
        return Some(0);
    }
    if base == 1 {
        proof {
            lemma1_pow(exp as nat);
        }
        return Some(1);
    }
    let mut acc: u32 = 1;
    let mut done: u32 = 0;
    proof {
        lemma_pow0(base as int);
    }
    while done < exp
        invariant
            base >= 2,
            done <= exp,
            acc == pow(base as int, done as nat),
        decreases exp - done,
    {
        assert(pow(base as int, (done + 1) as nat) == base * pow(base as int, done as nat)) by {
            reveal(pow);
        }
        match acc.checked_mul(base) {
            Some(next) => {
                assert(next == base * acc) by (nonlinear_arith)
                    requires
                        next == acc * base,
                ;
                acc = next;
                done = done + 1;
            },
            None => {
                proof {
                    assert(base * acc == acc * base) by (nonlinear_arith);
                    lemma_pow_increases(base as nat, (done + 1) as nat, exp as nat);
                }
                return None;
            },
        }
    }
    Some(acc)
}

impl SettingValues {
    /// The configuration a fresh installation starts with: 20 trials plus the
    /// square of the level, a raise above 80 %, a drop below 50 %, one
    /// coordinate in eight a guaranteed match and no interference.
    pub open spec fn standard() -> SettingValues {
        SettingValues {
            base_trials: 20,
            trial_factor: 1,
            trial_exponent: 2,
            mode: Mode::Auto,
            raise_threshold: 8_000,
            lower_threshold: 5_000,
            chance_of_guaranteed_match: 1_250,
            chance_of_interference: 0,
        }
    }

    /// Trials in a session at `level`:
    /// `base_trials + trial_factor * level ^ trial_exponent`.
    pub open spec fn total_trials(&self, level: u32) -> int {
        self.base_trials + self.trial_factor * pow(level as int, self.trial_exponent as nat)
    }

    /// Every chance and threshold lies between 0 % and 100 %.
    pub open spec fn in_range(&self) -> bool {
        &&& self.raise_threshold <= FULL_SCALE
        &&& self.lower_threshold <= FULL_SCALE
        &&& self.chance_of_guaranteed_match <= FULL_SCALE
        &&& self.chance_of_interference <= FULL_SCALE
    }

    /// The number of trials in a session at `level`, or `None` when it does
    /// not fit in a `u32`.
    pub fn total_trial_count(&self, level: u32) -> (total: Option<u32>)
        ensures
            match total {
                Some(t) => t == self.total_trials(level),
                None => self.total_trials(level) > u32::MAX,
            },
    {
        if self.trial_factor == 0 {
            assert(self.trial_factor * pow(level as int, self.trial_exponent as nat) == 0)
                by (nonlinear_arith)
                requires
                    self.trial_factor == 0,
            ;
            return Some(self.base_trials);
        }
        let ghost power = pow(level as int, self.trial_exponent as nat);
        match checked_power(level, self.trial_exponent) {
            None => {
                assert(self.trial_factor * power >= power) by (nonlinear_arith)
                    requires
                        self.trial_factor >= 1,
                        power >= 0,
                ;
                None
            },
            Some(p) => match self.trial_factor.checked_mul(p) {
                None => None,
                Some(weighted) => self.base_trials.checked_add(weighted),
            },
        }
    }

    /// Whether every chance and threshold is within its range.
    pub fn is_in_range(&self) -> (ok: bool)
        ensures
            ok == self.in_range(),
    {
        self.raise_threshold <= FULL_SCALE && self.lower_threshold <= FULL_SCALE
            && self.chance_of_guaranteed_match <= FULL_SCALE && self.chance_of_interference
            <= FULL_SCALE
    }
}

impl Default for StagedSettingValues {
    fn default() -> (staged: StagedSettingValues)
        ensures
            staged == StagedSettingValues::standard(),
    {
        StagedSettingValues {
            base_trials: 20,
            trial_factor: 2,
            trial_exponent: 2,
            mode: Mode::Auto,
            raise_threshold: 8_000,
            lower_threshold: 2_000,
            chance_of_guaranteed_match: 5_000,
            chance_of_interference: 0,
        }
    }
}

impl StagedSettingValues {
    /// What the editor shows after a reset: 20 trials plus twice the square
    /// of the level, a raise above 80 %, a drop below 20 %, every other
    /// coordinate a guaranteed match and no interference.
    pub open spec fn standard() -> StagedSettingValues {
        StagedSettingValues {
            base_trials: 20,
            trial_factor: 2,
            trial_exponent: 2,
            mode: Mode::Auto,
            raise_threshold: 8_000,
            lower_threshold: 2_000,
            chance_of_guaranteed_match: 5_000,
            chance_of_interference: 0,
        }
    }

    /// The settings these values stand for.
    pub open spec fn committed(&self) -> SettingValues {
        SettingValues {
            base_trials: self.base_trials,
            trial_factor: self.trial_factor,
            trial_exponent: self.trial_exponent,
            mode: self.mode,
            raise_threshold: self.raise_threshold,
            lower_threshold: self.lower_threshold,
            chance_of_guaranteed_match: self.chance_of_guaranteed_match,
            chance_of_interference: self.chance_of_interference,
        }
    }

    /// Opens the editor on the settings in force.
    pub fn stage(settings: &SettingValues) -> (staged: StagedSettingValues)
        ensures
            staged.committed() == *settings,
    {
        StagedSettingValues {
            base_trials: settings.base_trials,
            trial_factor: settings.trial_factor,
            trial_exponent: settings.trial_exponent,
            mode: settings.mode,
            raise_threshold: settings.raise_threshold,
            lower_threshold: settings.lower_threshold,
            chance_of_guaranteed_match: settings.chance_of_guaranteed_match,
            chance_of_interference: settings.chance_of_interference,
        }
    }

    /// The settings to put in force when the player saves.
    pub fn commit(&self) -> (settings: SettingValues)
        ensures
            settings == self.committed(),
    {
        SettingValues {
            base_trials: self.base_trials,
            trial_factor: self.trial_factor,
            trial_exponent: self.trial_exponent,
            mode: self.mode,
            raise_threshold: self.raise_threshold,
            lower_threshold: self.lower_threshold,
            chance_of_guaranteed_match: self.chance_of_guaranteed_match,
            chance_of_interference: self.chance_of_interference,
        }
    }
}

} // verus!
