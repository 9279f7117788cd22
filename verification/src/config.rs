//! The settings read from `.strand/config.toml`.

use vstd::prelude::*;

use crate::bd::{clone_opt_string, opt_view};

verus! {

/// The whole configuration.
pub struct Config {
    pub enrich: EnrichConfig,
}

/// Settings of the enrich workflow: the agent skill to use instead of the built-in prompt.
pub struct EnrichConfig {
    pub skill: Option<String>,
}

impl Default for EnrichConfig {
    /// No skill: the built-in prompt.
    fn default() -> (r: Self)
        ensures
            r.skill is None,
    {
        EnrichConfig { skill: None }
    }
}

impl Default for Config {
    /// The configuration when no file is there.
    fn default() -> (r: Self)
        ensures
            r.enrich.skill is None,
    {
        Config { enrich: EnrichConfig { skill: None } }
    }
}

impl Clone for EnrichConfig {
    fn clone(&self) -> (r: Self)
        ensures
            opt_view(r.skill) == opt_view(self.skill),
    {
        EnrichConfig { skill: clone_opt_string(&self.skill) }
    }
}

} // verus!
