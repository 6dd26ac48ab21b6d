use vstd::prelude::*;

use crate::phase::{LoopStrategy, RunStatus};
use crate::text::owned;
use crate::types::{default_settings, HarnessConfig};

verus! {

/// The loop strategy chosen on the command line.
#[derive(Debug, Clone, Copy, PartialEq, Eq, Structural)]
pub enum StrategyChoice {
    FinishFirst,
    SinglePass,
    Fixed,
}

/// The configuration of a run after the command-line options are applied:
/// the chosen strategy (a fixed strategy iterates `max_iterations` times),
/// the iteration limit and both timeouts; everything else is kept.
pub fn apply_run_options(
    config: HarnessConfig,
    strategy: StrategyChoice,
    max_iterations: u32,
    phase_timeout: u64,
    global_timeout: u64,
) -> (r: HarnessConfig)
    ensures
        r == (HarnessConfig {
            loop_strategy: match strategy {
                StrategyChoice::FinishFirst => LoopStrategy::FinishFirst,
                StrategyChoice::SinglePass => LoopStrategy::SinglePass,
                StrategyChoice::Fixed => LoopStrategy::FixedIterations(max_iterations),
            },
            max_iterations,
            phase_timeout_secs: phase_timeout,
            global_timeout_secs: global_timeout,
            ..config
        }),
{
    let mut c = config;
    c.loop_strategy = match strategy {
        StrategyChoice::FinishFirst => LoopStrategy::FinishFirst,
        StrategyChoice::SinglePass => LoopStrategy::SinglePass,
        StrategyChoice::Fixed => LoopStrategy::FixedIterations(max_iterations),
    };
    c.max_iterations = max_iterations;
    c.phase_timeout_secs = phase_timeout;
    c.global_timeout_secs = global_timeout;
    c
}

/// Whether the command that ran a harness exits with failure: every run
/// that did not complete does.
pub fn run_failed(status: RunStatus) -> (r: bool)
    ensures
        r == (status != RunStatus::Completed),
{
    status != RunStatus::Completed
}

/// The name of a new project: the one given, else the name of its
/// directory, else `mythos-project`.
pub fn project_name(explicit: Option<String>, dir_name: Option<String>) -> (r: String)
    ensures
        explicit matches Some(n) ==> r == n,
        explicit is None ==> (dir_name matches Some(d) ==> r == d),
        explicit is None && dir_name is None ==> r@ == "mythos-project"@,
{
    match explicit {
        Some(n) => n,
        None => match dir_name {
            Some(d) => d,
            None => owned("mythos-project"),
        },
    }
}

/// The configuration a new project starts with: the default one, under the
/// project's name.
pub fn project_config(name: String) -> (r: HarnessConfig)
    ensures
        default_settings(r),
        r.name == name,
{
    let mut c = HarnessConfig::default();
    c.name = name;
    c
}

} // verus!
