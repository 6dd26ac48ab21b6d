use vstd::prelude::*;

use crate::phase::Phase;
use crate::text::concat;
use crate::types::{has_artifact_named, Artifact, EventType, PhaseContext, PhaseResult, Timestamp};

verus! {

/// Whether a plugin takes part in a phase: the phases it supports hold it.
pub fn plugin_participates(supported: &Vec<Phase>, phase: Phase) -> (r: bool)
    ensures
        r == supported@.contains(phase),
{
    let mut i: usize = 0;
    while i < supported.len()
        invariant
            i <= supported@.len(),
            forall|j: int| 0 <= j < i ==> supported@[j] != phase,
        decreases supported@.len() - i,
    {
        if supported[i] == phase {
            assert(supported@[i as int] == phase);
            return true;
        }
        i = i + 1;
    }
    false
}

/// The errors of a list of phase results, one result after the other.
pub open spec fn errors_of(results: Seq<PhaseResult>) -> Seq<String>
    decreases results.len(),
{
    if results.len() == 0 {
        Seq::empty()
    } else {
        errors_of(results.drop_last()) + results.last().errors@
    }
}

/// Every result in the list succeeded.
pub open spec fn all_success(results: Seq<PhaseResult>) -> bool {
    forall|i: int| 0 <= i < results.len() ==> #[trigger] results[i].success
}

/// A phase succeeds when the agent produced a successful result and every
/// plugin result succeeded; a plugin that failed outright contributes no
/// result.
pub open spec fn phase_success(agent: Option<PhaseResult>, plugins: Seq<PhaseResult>) -> bool {
    match agent {
        Some(a) => a.success && all_success(plugins),
        None => false,
    }
}

/// The errors of a phase: the agent's, then those of each plugin result in
/// order.
pub open spec fn phase_errors(agent: Option<PhaseResult>, plugins: Seq<PhaseResult>) -> Seq<
    String,
> {
    match agent {
        Some(a) => a.errors@ + errors_of(plugins),
        None => errors_of(plugins),
    }
}

/// One more plugin result adds its errors after the others and fails the
/// phase exactly when it failed.
pub proof fn lemma_phase_outcome_one_more(
    agent: Option<PhaseResult>,
    plugins: Seq<PhaseResult>,
    p: PhaseResult,
)
    ensures
        phase_errors(agent, plugins.push(p)) == phase_errors(agent, plugins) + p.errors@,
        phase_success(agent, plugins.push(p)) == (phase_success(agent, plugins) && p.success),
{
    assert(plugins.push(p).drop_last() =~= plugins);
    if let Some(a) = agent {
        assert(a.errors@ + (errors_of(plugins) + p.errors@) =~= (a.errors@ + errors_of(plugins))
            + p.errors@);
    }
    if phase_success(agent, plugins) && p.success {
        assert forall|i: int| 0 <= i < plugins.push(p).len() implies #[trigger] plugins.push(
            p,
        )[i].success by {
            if i < plugins.len() {
                assert(plugins.push(p)[i] == plugins[i]);
            }
        }
    }
    if phase_success(agent, plugins.push(p)) {
        assert forall|i: int| 0 <= i < plugins.len() implies #[trigger] plugins[i].success by {
            assert(plugins.push(p)[i] == plugins[i]);
        }
        assert(plugins.push(p)[plugins.len() as int] == p);
    }
}

/// A phase succeeds exactly when the agent produced a result that succeeded
/// and every plugin result succeeded; with no plugin taking part the outcome
/// is the agent's own. Its errors are the agent's followed by the plugins',
/// so with no plugin result they are the agent's alone.
pub proof fn lemma_phase_outcome(agent: Option<PhaseResult>, plugins: Seq<PhaseResult>)
    ensures
        agent is None ==> phase_errors(agent, Seq::<PhaseResult>::empty()).len() == 0,
        phase_success(agent, plugins) == (agent matches Some(a) && a.success && forall|i: int|
            0 <= i < plugins.len() ==> plugins[i].success),
        agent matches Some(a) ==> phase_success(agent, Seq::<PhaseResult>::empty()) == a.success,
        agent is None ==> !phase_success(agent, plugins),
        agent matches Some(a) ==> phase_errors(agent, Seq::<PhaseResult>::empty()) == a.errors@,
        agent matches Some(a) ==> phase_errors(agent, plugins).subrange(0, a.errors@.len() as int)
            == a.errors@,
{
    if let Some(a) = agent {
        assert(errors_of(Seq::<PhaseResult>::empty()) =~= Seq::<String>::empty());
        assert(a.errors@ + Seq::<String>::empty() =~= a.errors@);
        assert((a.errors@ + errors_of(plugins)).subrange(0, a.errors@.len() as int) =~= a.errors@);
    }
}

fn copy_strings(dst: &mut Vec<String>, src: &Vec<String>)
    ensures
        final(dst)@ == old(dst)@ + src@,
{
    let mut i: usize = 0;
    let ghost start = dst@;
    while i < src.len()
        invariant
            i <= src@.len(),
            dst@ == start + src@.take(i as int),
        decreases src@.len() - i,
    {
        dst.push(src[i].clone());
        i = i + 1;
        assert(dst@ =~= start + src@.take(i as int));
    }
    assert(src@.take(src@.len() as int) =~= src@);
}

/// Combine the agent's result with the results of the plugins that took part
/// in a phase: whether the phase succeeded, and its errors. `agent` is `None`
/// when the agent failed to produce a result.
pub fn combine_phase_outcome(agent: Option<&PhaseResult>, plugins: &Vec<PhaseResult>) -> (r: (
    bool,
    Vec<String>,
))
    ensures
        r.0 == phase_success(
            match agent {
                Some(a) => Some(*a),
                None => None,
            },
            plugins@,
        ),
        r.1@ == phase_errors(
            match agent {
                Some(a) => Some(*a),
                None => None,
            },
            plugins@,
        ),
{
    let mut errors: Vec<String> = Vec::new();
    let mut success = match agent {
        Some(a) => {
            copy_strings(&mut errors, &a.errors);
            a.success
        },
        None => false,
    };
    let ghost base = errors@;
    let mut i: usize = 0;
    let ghost agent_ok = match agent {
        Some(a) => a.success,
        None => false,
    };
    assert(errors_of(plugins@.take(0)) =~= Seq::<String>::empty());
    assert(base + Seq::<String>::empty() =~= base);
    while i < plugins.len()
        invariant
            i <= plugins@.len(),
            errors@ == base + errors_of(plugins@.take(i as int)),
            success == (agent_ok && all_success(plugins@.take(i as int))),
        decreases plugins@.len() - i,
    {
        proof {
            assert(plugins@.take(i + 1).drop_last() =~= plugins@.take(i as int));
            assert(plugins@.take(i + 1).last() == plugins@[i as int]);
        }
        copy_strings(&mut errors, &plugins[i].errors);
        if !plugins[i].success {
            success = false;
        }
        i = i + 1;
        proof {
            assert(errors@ =~= base + errors_of(plugins@.take(i as int)));
            if success {
                assert forall|j: int| 0 <= j < plugins@.take(i as int).len() implies #[trigger] plugins@.take(
                    i as int,
                )[j].success by {
                    if j < i - 1 {
                        assert(plugins@.take(i - 1)[j] == plugins@.take(i as int)[j]);
                    }
                }
            } else if agent_ok && all_success(plugins@.take(i - 1)) {
                assert(!plugins@.take(i as int)[i - 1].success);
            }
        }
    }
    assert(plugins@.take(plugins@.len() as int) =~= plugins@);
    (success, errors)
}

/// The event that closes a phase: completed when it succeeded, failed otherwise.
pub fn completion_event(success: bool) -> (r: EventType)
    ensures
        success ==> r is PhaseCompleted,
        !success ==> r is PhaseFailed,
{
    if success {
        EventType::PhaseCompleted
    } else {
        EventType::PhaseFailed
    }
}

/// The error that a phase reports when it exceeds its timeout.
pub fn phase_timed_out_message() -> (r: String)
    ensures
        r@ == "Phase timed out"@,
{
    "Phase timed out".to_string()
}

/// Some artifact that the success criteria require has not been produced.
pub open spec fn lacks_required_artifact(artifacts: Seq<Artifact>, required: Seq<String>) -> bool {
    exists|i: int| 0 <= i < required.len() && !has_artifact_named(artifacts, #[trigger] required[i]@)
}

/// Whether some artifact that the success criteria require is missing from
/// the phase context.
pub fn missing_required_artifact(context: &PhaseContext, required: &Vec<String>) -> (r: bool)
    ensures
        r == lacks_required_artifact(context.artifacts@, required@),
{
    let mut i: usize = 0;
    while i < required.len()
        invariant
            i <= required@.len(),
            forall|j: int| 0 <= j < i ==> has_artifact_named(context.artifacts@, #[trigger] required@[j]@),
        decreases required@.len() - i,
    {
        if !context.has_artifact(required[i].as_str()) {
            return true;
        }
        i = i + 1;
    }
    false
}

/// Whether the finish-first engine goes round the loop again after the last
/// result of a round: only a successful result whose agent wants to go on
/// continues, and only while the success criteria are not met, that is while
/// the reported confidence is below the minimum or a required artifact is
/// missing. Once the criteria are met the loop stops.
pub fn engine_should_continue(
    result: &PhaseResult,
    agent_continues: bool,
    confidence_below_minimum: bool,
    missing_artifacts: bool,
) -> (r: bool)
    ensures
        r == (result.success && agent_continues && (confidence_below_minimum || missing_artifacts)),
{
    if !result.success {
        return false;
    }
    if !agent_continues {
        return false;
    }
    confidence_below_minimum || missing_artifacts
}

/// The decision of the finish-first agent: go on after a failed phase and
/// after any phase but Finish; after a successful Finish phase go on only
/// when the reported confidence is below the agent's minimum
/// (`confidence_below_minimum`).
pub fn finish_first_should_continue(result: &PhaseResult, confidence_below_minimum: bool) -> (r:
    bool)
    ensures
        r == (!result.success || result.phase != Phase::Finish || confidence_below_minimum),
{
    if !result.success {
        return true;
    }
    if result.phase == Phase::Finish {
        return confidence_below_minimum;
    }
    true
}

/// The key under which a plugin's output is merged into an agent's output.
pub fn plugin_output_key(plugin_name: &str) -> (r: String)
    ensures
        r@ == "plugin_"@ + plugin_name@,
{
    concat("plugin_", plugin_name)
}

/// The error an agent records when a plugin fails outright.
pub fn plugin_failure_message(plugin_name: &str, error: &str) -> (r: String)
    ensures
        r@ == "Plugin "@ + plugin_name@ + " failed: "@ + error@,
{
    let mut r = concat("Plugin ", plugin_name);
    r.append(" failed: ");
    r.append(error);
    r
}

impl PhaseResult {
    /// A result of a phase that failed with a single error.
    pub fn failure(
        phase: Phase,
        output: serde_json::Value,
        error: String,
        started_at: Timestamp,
        completed_at: Timestamp,
        duration_ms: u64,
    ) -> (r: PhaseResult)
        ensures
            r.phase == phase,
            !r.success,
            r.output == output,
            r.errors@ == seq![error],
            r.started_at == started_at,
            r.completed_at == completed_at,
            r.duration_ms == duration_ms,
    {
        let mut errors = Vec::new();
        errors.push(error);
        PhaseResult {
            phase,
            success: false,
            output,
            errors,
            started_at,
            completed_at,
            duration_ms,
        }
    }

    /// Take in a plugin's result as an agent does: a failed plugin result
    /// fails the phase and adds its errors; a successful one changes neither.
    pub fn absorb_plugin_result(&mut self, plugin: &PhaseResult)
        ensures
            final(self).success == (old(self).success && plugin.success),
            final(self).errors@ == (if plugin.success {
                old(self).errors@
            } else {
                old(self).errors@ + plugin.errors@
            }),
            final(self).phase == old(self).phase,
            final(self).output == old(self).output,
            final(self).started_at == old(self).started_at,
            final(self).completed_at == old(self).completed_at,
            final(self).duration_ms == old(self).duration_ms,
    {
        if !plugin.success {
            self.success = false;
            copy_strings(&mut self.errors, &plugin.errors);
        }
    }

    /// Take in a plugin that failed outright: the phase fails and the error
    /// `Plugin <name> failed: <error>` is added.
    pub fn absorb_plugin_failure(&mut self, plugin_name: &str, error: &str)
        ensures
            !final(self).success,
            final(self).errors@ == old(self).errors@.push(final(self).errors@.last()),
            final(self).errors@.last()@ == "Plugin "@ + plugin_name@ + " failed: "@ + error@,
            final(self).phase == old(self).phase,
            final(self).output == old(self).output,
            final(self).started_at == old(self).started_at,
            final(self).completed_at == old(self).completed_at,
            final(self).duration_ms == old(self).duration_ms,
    {
        self.success = false;
        let m = plugin_failure_message(plugin_name, error);
        self.errors.push(m);
    }
}

} // verus!
