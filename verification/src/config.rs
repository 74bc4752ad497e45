//! The values the simulation is built with, and their validation.

use vstd::prelude::*;

verus! {

/// What the simulation is configured with. Durations are in milliseconds,
/// distances in units, the speed in units per tick.
#[derive(Clone, Copy, Debug, PartialEq, Eq, Structural)]
pub struct Config {
    /// Distance a vehicle covers in one tick.
    pub speed: i16,
    /// How long a light stays green before every light turns red.
    pub green_hold_duration: i64,
    /// How long every light stays red before the next one turns green.
    pub all_red_duration: i64,
    /// A vehicle holds while another with its heading is ahead of it by less
    /// than this.
    pub min_following_distance: i32,
    /// A vehicle may enter only if its lane is free this far ahead of its
    /// entry point.
    pub min_spawn_clearance: i32,
}

/// Why a configuration was turned down.
#[derive(Clone, Copy, Debug, PartialEq, Eq, Structural)]
pub enum ConfigError {
    /// The speed is zero or negative.
    NonPositiveSpeed,
    /// The green hold is zero or negative.
    NonPositiveGreenHold,
    /// The all-red dwell is zero or negative.
    NonPositiveAllRed,
}

impl Config {
    /// Whether speed and both durations are positive.
    pub open spec fn valid(self) -> bool {
        self.speed > 0 && self.green_hold_duration > 0 && self.all_red_duration > 0
    }

    /// The verdict on a configuration: the first of speed, green hold and
    /// all-red dwell that is not positive is reported.
    pub open spec fn verdict(self) -> Result<(), ConfigError> {
        if self.speed <= 0 {
            Err(ConfigError::NonPositiveSpeed)
        } else if self.green_hold_duration <= 0 {
            Err(ConfigError::NonPositiveGreenHold)
        } else if self.all_red_duration <= 0 {
            Err(ConfigError::NonPositiveAllRed)
        } else {
            Ok(())
        }
    }

    /// The built-in values: five units per tick, one second of green, half a
    /// second of red all round, ninety units between vehicles, fifty units of
    /// free lane to enter.
    pub open spec fn standard() -> Config {
        Config {
            speed: 5,
            green_hold_duration: 1000,
            all_red_duration: 500,
            min_following_distance: 90,
            min_spawn_clearance: 50,
        }
    }

    /// Checks the configuration.
    pub fn validate(&self) -> (r: Result<(), ConfigError>)
        ensures
            r == self.verdict(),
            r is Ok <==> self.valid(),
    {
        if self.speed <= 0 {
            Err(ConfigError::NonPositiveSpeed)
        } else if self.green_hold_duration <= 0 {
            Err(ConfigError::NonPositiveGreenHold)
        } else if self.all_red_duration <= 0 {
            Err(ConfigError::NonPositiveAllRed)
        } else {
            Ok(())
        }
    }
}

impl Default for Config {
    fn default() -> (config: Self)
        ensures
            config == Config::standard(),
            config.valid(),
    {
        Config {
            speed: 5,
            green_hold_duration: 1000,
            all_red_duration: 500,
            min_following_distance: 90,
            min_spawn_clearance: 50,
        }
    }
}

} // verus!
