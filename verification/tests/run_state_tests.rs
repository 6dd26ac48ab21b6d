use mythos_harness::outcome::{
    combine_phase_outcome, completion_event, engine_should_continue, missing_required_artifact,
    finish_first_should_continue, phase_timed_out_message, plugin_failure_message,
    plugin_output_key, plugin_participates,
};
use mythos_harness::{
    Artifact, EventType, HarnessConfig, HarnessEvent, HarnessRun, Phase, PhaseContext,
    PhaseResult, RunRegistry, RunStatus, Timestamp,
};
use std::collections::HashMap;

fn ts(secs: i64) -> Timestamp {
    Timestamp { secs, nanos: 0 }
}

fn result(phase: Phase, success: bool, errors: &[&str]) -> PhaseResult {
    PhaseResult {
        phase,
        success,
        output: serde_json::Value::Null,
        errors: errors.iter().map(|e| e.to_string()).collect(),
        started_at: ts(1),
        completed_at: ts(2),
        duration_ms: 1000,
    }
}

fn artifact(name: &str) -> Artifact {
    Artifact {
        id: 7,
        name: name.to_string(),
        artifact_type: "file".to_string(),
        content: None,
        path: None,
        metadata: HashMap::new(),
        created_at: ts(3),
    }
}

#[test]
fn new_run_is_pending_and_empty() {
    let run = HarnessRun::new(42, HarnessConfig::default(), ts(100));
    assert_eq!(run.id, 42);
    assert_eq!(run.status, RunStatus::Pending);
    assert!(run.current_phase.is_none());
    assert!(run.phase_results.is_empty());
    assert!(run.events.is_empty());
    assert!(run.completed_at.is_none());
    assert_eq!(run.started_at, ts(100));
}

#[test]
fn begin_phase_marks_the_run_running() {
    let mut run = HarnessRun::new(1, HarnessConfig::default(), ts(0));
    run.begin_phase(Phase::Execute);
    assert_eq!(run.current_phase, Some(Phase::Execute));
    assert_eq!(run.status, RunStatus::Running);
}

#[test]
fn finalize_completes_when_all_results_succeed() {
    let mut run = HarnessRun::new(1, HarnessConfig::default(), ts(0));
    run.record_result(result(Phase::Interrogate, true, &[]));
    run.record_result(result(Phase::Contract, true, &[]));
    run.finalize(ts(9), vec![artifact("report")]);
    assert_eq!(run.status, RunStatus::Completed);
    assert_eq!(run.completed_at, Some(ts(9)));
    assert_eq!(run.artifacts.len(), 1);
    assert_eq!(run.artifacts[0].name, "report");
}

#[test]
fn finalize_fails_when_any_result_failed() {
    let mut run = HarnessRun::new(1, HarnessConfig::default(), ts(0));
    run.record_result(result(Phase::Interrogate, true, &[]));
    run.record_result(result(Phase::Contract, false, &["x"]));
    run.record_result(result(Phase::Contract, true, &[]));
    run.finalize(ts(9), vec![]);
    assert_eq!(run.status, RunStatus::Failed);
}

#[test]
fn finalize_without_results_completes() {
    let mut run = HarnessRun::new(1, HarnessConfig::default(), ts(0));
    run.finalize(ts(5), vec![]);
    assert_eq!(run.status, RunStatus::Completed);
}

#[test]
fn record_event_appends() {
    let mut run = HarnessRun::new(1, HarnessConfig::default(), ts(0));
    run.record_event(HarnessEvent {
        id: 5,
        event_type: EventType::PhaseStarted,
        phase: Phase::Interrogate,
        timestamp: ts(1),
        payload: serde_json::Value::Null,
    });
    run.record_event(HarnessEvent {
        id: 6,
        event_type: EventType::PluginInvoked { plugin: "shell".to_string() },
        phase: Phase::Interrogate,
        timestamp: ts(2),
        payload: serde_json::Value::Null,
    });
    assert_eq!(run.events.len(), 2);
    assert_eq!(run.events[0].id, 5);
    assert_eq!(run.events[1].id, 6);
}

#[test]
fn phase_context_default_is_empty_and_finds_artifacts() {
    let mut ctx = PhaseContext::default();
    assert!(ctx.data.is_empty());
    assert!(ctx.env.is_empty());
    assert!(ctx.working_dir.is_none());
    assert!(!ctx.has_artifact("plan"));
    ctx.artifacts.push(artifact("plan"));
    assert!(ctx.has_artifact("plan"));
    assert!(!ctx.has_artifact("pla"));
}

#[test]
fn plugin_participates_in_its_phases_only() {
    let phases = vec![Phase::Execute, Phase::Finish];
    assert!(plugin_participates(&phases, Phase::Execute));
    assert!(!plugin_participates(&phases, Phase::Interrogate));
    assert!(!plugin_participates(&vec![], Phase::Finish));
}

#[test]
fn combine_outcome_needs_agent_and_all_plugins() {
    let agent = result(Phase::Execute, true, &["a1"]);
    let plugins = vec![
        result(Phase::Execute, true, &["p1"]),
        result(Phase::Execute, false, &["p2", "p3"]),
    ];
    let (ok, errors) = combine_phase_outcome(Some(&agent), &plugins);
    assert!(!ok);
    assert_eq!(errors, vec!["a1", "p1", "p2", "p3"]);

    let (ok, errors) = combine_phase_outcome(Some(&agent), &plugins[..1].to_vec());
    assert!(ok);
    assert_eq!(errors, vec!["a1", "p1"]);

    let (ok, errors) = combine_phase_outcome(None, &plugins[..1].to_vec());
    assert!(!ok);
    assert_eq!(errors, vec!["p1"]);

    let failed_agent = result(Phase::Execute, false, &[]);
    let (ok, errors) = combine_phase_outcome(Some(&failed_agent), &vec![]);
    assert!(!ok);
    assert!(errors.is_empty());
}

#[test]
fn completion_event_follows_success() {
    assert!(matches!(completion_event(true), EventType::PhaseCompleted));
    assert!(matches!(completion_event(false), EventType::PhaseFailed));
}

#[test]
fn timed_out_phase_reports_the_timeout() {
    let r = PhaseResult::failure(
        Phase::Contract,
        serde_json::Value::Null,
        phase_timed_out_message(),
        ts(1),
        ts(2),
        5,
    );
    assert!(!r.success);
    assert_eq!(r.errors, vec!["Phase timed out".to_string()]);
    assert_eq!(r.phase, Phase::Contract);
    assert_eq!(r.duration_ms, 5);
}

#[test]
fn engine_continues_only_while_criteria_are_unmet() {
    let ok = result(Phase::Finish, true, &[]);
    let failed = result(Phase::Finish, false, &[]);
    // criteria met: the loop stops
    assert!(!engine_should_continue(&ok, true, false, false));
    // confidence below the minimum, or an artifact missing: go on
    assert!(engine_should_continue(&ok, true, true, false));
    assert!(engine_should_continue(&ok, true, false, true));
    // the agent does not want to go on, or the phase failed: stop
    assert!(!engine_should_continue(&ok, false, true, true));
    assert!(!engine_should_continue(&failed, true, true, true));
}

#[test]
fn missing_required_artifacts_are_found() {
    let mut ctx = PhaseContext::default();
    assert!(!missing_required_artifact(&ctx, &vec![]));
    assert!(missing_required_artifact(&ctx, &vec!["plan".to_string()]));
    ctx.artifacts.push(artifact("plan"));
    assert!(!missing_required_artifact(&ctx, &vec!["plan".to_string()]));
    assert!(missing_required_artifact(&ctx, &vec!["plan".to_string(), "report".to_string()]));
}

#[test]
fn finish_first_agent_decision() {
    assert!(finish_first_should_continue(&result(Phase::Execute, false, &[]), false));
    assert!(finish_first_should_continue(&result(Phase::Execute, true, &[]), false));
    assert!(!finish_first_should_continue(&result(Phase::Finish, true, &[]), false));
    assert!(finish_first_should_continue(&result(Phase::Finish, true, &[]), true));
}

#[test]
fn agent_absorbs_plugin_results() {
    let mut r = result(Phase::Execute, true, &[]);
    r.absorb_plugin_result(&result(Phase::Execute, true, &["ignored"]));
    assert!(r.success);
    assert!(r.errors.is_empty());
    r.absorb_plugin_result(&result(Phase::Execute, false, &["bad"]));
    assert!(!r.success);
    assert_eq!(r.errors, vec!["bad"]);
    r.absorb_plugin_failure("shell", "boom");
    assert_eq!(r.errors, vec!["bad", "Plugin shell failed: boom"]);
    assert_eq!(plugin_output_key("memory"), "plugin_memory");
    assert_eq!(plugin_failure_message("a", "b"), "Plugin a failed: b");
}

#[test]
fn registry_gives_back_what_was_added() {
    let mut reg = RunRegistry::new();
    assert!(reg.get_run(1).is_none());
    reg.add_run(HarnessRun::new(1, HarnessConfig::default(), ts(0)));
    reg.add_run(HarnessRun::new(2, HarnessConfig::default(), ts(1)));
    assert_eq!(reg.get_run(1).unwrap().started_at, ts(0));
    assert_eq!(reg.get_run(2).unwrap().started_at, ts(1));
    assert!(reg.get_run(3).is_none());
    let mut updated = HarnessRun::new(1, HarnessConfig::default(), ts(0));
    updated.status = RunStatus::Completed;
    reg.update_run(updated);
    assert_eq!(reg.get_run(1).unwrap().status, RunStatus::Completed);
    assert_eq!(reg.len(), 2);
    let mut ids: Vec<u128> = reg.list_runs().iter().map(|r| r.id).collect();
    ids.sort();
    assert_eq!(ids, vec![1, 2]);
}
