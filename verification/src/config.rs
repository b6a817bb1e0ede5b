//! The settings record.

use vstd::prelude::*;

verus! {

/// The settings of the program, as the configuration file holds them.
#[derive(Clone, Copy, Debug, PartialEq, Eq, Structural)]
pub struct Config {
    /// Seconds between two checks of the movement loop.
    pub heartbeat_interval: u64,
    /// Seconds between two runs of the worker. The movement loop does not
    /// read it.
    pub worker_interval: u64,
    /// Seconds without input after which the pointer is moved.
    pub inactivity_threshold: u64,
    /// Pixels of one pointer displacement.
    pub movement_delta: i32,
    /// Failures in a row after which the user is warned.
    pub max_errors: u32,
    /// Whether monitoring starts with the program.
    pub auto_start: bool,
}

impl Config {
    /// The settings used where no configuration file exists: a check every
    /// sixty seconds, a worker interval of ten, a move after sixty seconds
    /// without input, ten pixels, ten errors, no automatic start.
    pub open spec fn defaults() -> Config {
        Config {
            heartbeat_interval: 60,
            worker_interval: 10,
            inactivity_threshold: 60,
            movement_delta: 10,
            max_errors: 10,
            auto_start: false,
        }
    }

    /// The settings to run with: those that were loaded, or the defaults
    /// where there was no file to load.
    pub fn loaded_or_default(loaded: Option<Config>) -> (config: Config)
        ensures
            config == match loaded {
                Some(found) => found,
                None => Config::defaults(),
            },
    {
        match loaded {
            Some(found) => found,
            None => Config::default(),
        }
    }
}

impl Default for Config {
    fn default() -> (config: Config)
        ensures
            config == Config::defaults(),
    {
        Config {
            heartbeat_interval: 60,
            worker_interval: 10,
            inactivity_threshold: 60,
            movement_delta: 10,
            max_errors: 10,
            auto_start: false,
        }
    }
}

} // verus!
