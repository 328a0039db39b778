//! How much the surrounding tool reports about its own progress.

use vstd::prelude::*;

verus! {

/// Settings that travel with one invocation.
#[derive(Clone, Copy, Debug, PartialEq, Eq)]
pub struct Config {
    /// How often the verbosity flag was given.
    pub verbosity: u8,
}

impl Config {
    /// A configuration that reports nothing.
    pub fn new() -> (config: Config)
        ensures
            config.verbosity == 0,
    {
        Config { verbosity: 0 }
    }
}

/// The verbosity recorded in `config`.
pub fn verbosity(config: &Config) -> (level: u8)
    ensures
        level == config.verbosity,
{
    config.verbosity
}

/// Records `value` as the verbosity of `config`.
pub fn set_verbosity(config: &mut Config, value: u8)
    ensures
        final(config).verbosity == value,
{
    config.verbosity = value;
}

} // verus!
