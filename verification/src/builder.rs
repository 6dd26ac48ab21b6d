use vstd::prelude::*;

use crate::phase::{LoopStrategy, Phase};
use crate::text::owned;
use crate::types::{is_default_config, HarnessConfig};

verus! {

/// Why a harness could not be built.
#[derive(Debug, Clone, Copy, PartialEq, Eq, Structural)]
pub enum BuildError {
    /// No agent was given
    AgentRequired,
}

impl BuildError {
    /// The message of the error.
    pub fn message(&self) -> (r: String)
        ensures
            r@ == "Agent is required"@,
    {
        owned("Agent is required")
    }
}

/// Builder for the parts a harness engine is made of: its configuration,
/// its agent `A`, and its plugins `P`.
pub struct HarnessBuilder<A, P> {
    config: HarnessConfig,
    agent: Option<A>,
    plugins: Vec<P>,
}

impl<A, P> HarnessBuilder<A, P> {
    /// The configuration built so far.
    pub closed spec fn spec_config(&self) -> HarnessConfig {
        self.config
    }

    /// The agent, if one was given.
    pub closed spec fn spec_agent(&self) -> Option<A> {
        self.agent
    }

    /// The plugins given so far, in order.
    pub closed spec fn spec_plugins(&self) -> Seq<P> {
        self.plugins@
    }

    /// Create a new builder with the default config, no agent and no plugins.
    pub fn new() -> (r: Self)
        ensures
            is_default_config(r.spec_config()),
            r.spec_agent() is None,
            r.spec_plugins().len() == 0,
    {
        HarnessBuilder { config: HarnessConfig::default(), agent: None, plugins: Vec::new() }
    }

    /// Set the harness name.
    pub fn name(self, name: String) -> (r: Self)
        ensures
            r.spec_config() == (HarnessConfig { name, ..self.spec_config() }),
            r.spec_agent() == self.spec_agent(),
            r.spec_plugins() == self.spec_plugins(),
    {
        let mut b = self;
        b.config.name = name;
        b
    }

    /// Set the version.
    pub fn version(self, version: String) -> (r: Self)
        ensures
            r.spec_config() == (HarnessConfig { version, ..self.spec_config() }),
            r.spec_agent() == self.spec_agent(),
            r.spec_plugins() == self.spec_plugins(),
    {
        let mut b = self;
        b.config.version = version;
        b
    }

    /// Replace the whole harness config.
    pub fn config(self, config: HarnessConfig) -> (r: Self)
        ensures
            r.spec_config() == config,
            r.spec_agent() == self.spec_agent(),
            r.spec_plugins() == self.spec_plugins(),
    {
        let mut b = self;
        b.config = config;
        b
    }

    /// Set the loop strategy.
    pub fn loop_strategy(self, strategy: LoopStrategy) -> (r: Self)
        ensures
            r.spec_config() == (HarnessConfig { loop_strategy: strategy, ..self.spec_config() }),
            r.spec_agent() == self.spec_agent(),
            r.spec_plugins() == self.spec_plugins(),
    {
        let mut b = self;
        b.config.loop_strategy = strategy;
        b
    }

    /// Set the agent.
    pub fn agent(self, agent: A) -> (r: Self)
        ensures
            r.spec_config() == self.spec_config(),
            r.spec_agent() == Some(agent),
            r.spec_plugins() == self.spec_plugins(),
    {
        let mut b = self;
        b.agent = Some(agent);
        b
    }

    /// Add a plugin.
    pub fn plugin(self, plugin: P) -> (r: Self)
        ensures
            r.spec_config() == self.spec_config(),
            r.spec_agent() == self.spec_agent(),
            r.spec_plugins() == self.spec_plugins().push(plugin),
    {
        let mut b = self;
        b.plugins.push(plugin);
        b
    }

    /// Set phases.
    pub fn phases(self, phases: Vec<Phase>) -> (r: Self)
        ensures
            r.spec_config() == (HarnessConfig { phases, ..self.spec_config() }),
            r.spec_agent() == self.spec_agent(),
            r.spec_plugins() == self.spec_plugins(),
    {
        let mut b = self;
        b.config.phases = phases;
        b
    }

    /// Set max iterations.
    pub fn max_iterations(self, max: u32) -> (r: Self)
        ensures
            r.spec_config() == (HarnessConfig { max_iterations: max, ..self.spec_config() }),
            r.spec_agent() == self.spec_agent(),
            r.spec_plugins() == self.spec_plugins(),
    {
        let mut b = self;
        b.config.max_iterations = max;
        b
    }

    /// Set phase timeout.
    pub fn phase_timeout(self, secs: u64) -> (r: Self)
        ensures
            r.spec_config() == (HarnessConfig { phase_timeout_secs: secs, ..self.spec_config() }),
            r.spec_agent() == self.spec_agent(),
            r.spec_plugins() == self.spec_plugins(),
    {
        let mut b = self;
        b.config.phase_timeout_secs = secs;
        b
    }

    /// Set global timeout.
    pub fn global_timeout(self, secs: u64) -> (r: Self)
        ensures
            r.spec_config() == (HarnessConfig { global_timeout_secs: secs, ..self.spec_config() }),
            r.spec_agent() == self.spec_agent(),
            r.spec_plugins() == self.spec_plugins(),
    {
        let mut b = self;
        b.config.global_timeout_secs = secs;
        b
    }

    /// Hand over the parts of the engine: refused without an agent;
    /// otherwise the configuration, the agent and the plugins in the order
    /// they were added.
    pub fn build(self) -> (r: Result<(HarnessConfig, A, Vec<P>), BuildError>)
        ensures
            self.spec_agent() is None ==> r == Err::<(HarnessConfig, A, Vec<P>), BuildError>(
                BuildError::AgentRequired,
            ),
            self.spec_agent() matches Some(a) ==> (r matches Ok(parts) && parts.0
                == self.spec_config() && parts.1 == a && parts.2@ == self.spec_plugins()),
    {
        match self.agent {
            Some(a) => Ok((self.config, a, self.plugins)),
            None => Err(BuildError::AgentRequired),
        }
    }
}

impl<A, P> Default for HarnessBuilder<A, P> {
    fn default() -> (r: Self)
        ensures
            is_default_config(r.spec_config()),
            r.spec_agent() is None,
            r.spec_plugins().len() == 0,
    {
        Self::new()
    }
}

} // verus!
