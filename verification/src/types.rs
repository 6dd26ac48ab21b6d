use std::collections::HashMap;
use vstd::prelude::*;

use crate::phase::{phase_order, LoopStrategy, Phase, RunStatus};

verus! {

/// Unique identifier for harness entities: the 128 bits of a UUID.
pub type HarnessId = u128;

/// A point in time: whole seconds since the Unix epoch and the nanoseconds
/// past that second.
#[derive(Debug, Clone, Copy, PartialEq, Eq, Structural)]
pub struct Timestamp {
    pub secs: i64,
    pub nanos: u32,
}

/// Result of a phase execution.
#[derive(Debug, Clone)]
pub struct PhaseResult {
    /// Phase that was executed
    pub phase: Phase,
    /// Whether the phase succeeded
    pub success: bool,
    /// Output from the phase
    pub output: serde_json::Value,
    /// Any errors encountered
    pub errors: Vec<String>,
    /// Start time
    pub started_at: Timestamp,
    /// End time
    pub completed_at: Timestamp,
    /// Duration in milliseconds
    pub duration_ms: u64,
}

/// Artifact produced during execution.
#[derive(Debug, Clone)]
pub struct Artifact {
    /// Unique identifier
    pub id: HarnessId,
    /// Artifact name
    pub name: String,
    /// Artifact type
    pub artifact_type: String,
    /// Content (if small) or path
    pub content: Option<String>,
    /// Path to artifact (if large)
    pub path: Option<String>,
    /// Metadata
    pub metadata: HashMap<String, serde_json::Value>,
    /// Creation timestamp
    pub created_at: Timestamp,
}

/// Context passed between phases.
#[derive(Debug, Clone)]
pub struct PhaseContext {
    /// Shared data between phases
    pub data: HashMap<String, serde_json::Value>,
    /// Artifacts produced
    pub artifacts: Vec<Artifact>,
    /// Current working directory
    pub working_dir: Option<String>,
    /// Environment variables
    pub env: HashMap<String, String>,
}

impl Default for PhaseContext {
    fn default() -> (r: Self)
        ensures
            r.data@ == Map::<String, serde_json::Value>::empty(),
            r.artifacts@ == Seq::<Artifact>::empty(),
            r.working_dir is None,
            r.env@ == Map::<String, String>::empty(),
    {
        PhaseContext {
            data: HashMap::new(),
            artifacts: Vec::new(),
            working_dir: None,
            env: HashMap::new(),
        }
    }
}

/// Some artifact of the list has the given name.
pub open spec fn has_artifact_named(artifacts: Seq<Artifact>, name: Seq<char>) -> bool {
    exists|i: int| 0 <= i < artifacts.len() && #[trigger] artifacts[i].name@ == name
}

impl PhaseContext {
    /// Whether an artifact with the given name has been produced.
    pub fn has_artifact(&self, name: &str) -> (r: bool)
        ensures
            r == has_artifact_named(self.artifacts@, name@),
    {
        let mut i: usize = 0;
        while i < self.artifacts.len()
            invariant
                i <= self.artifacts@.len(),
                forall|j: int| 0 <= j < i ==> #[trigger] self.artifacts@[j].name@ != name@,
            decreases self.artifacts@.len() - i,
        {
            if crate::text::str_eq(self.artifacts[i].name.as_str(), name) {
                return true;
            }
            i = i + 1;
        }
        false
    }
}

/// Configuration for a harness run.
#[derive(Debug, Clone)]
pub struct HarnessConfig {
    /// Harness name
    pub name: String,
    /// Version
    pub version: String,
    /// Tagline
    pub tagline: String,
    /// Description
    pub description: String,
    /// Loop strategy
    pub loop_strategy: LoopStrategy,
    /// Engine name
    pub engine: String,
    /// License
    pub license: String,
    /// Homepage
    pub homepage: Option<String>,
    /// Phases to execute
    pub phases: Vec<Phase>,
    /// Enabled plugins
    pub plugins: Vec<String>,
    /// Maximum iterations per phase
    pub max_iterations: u32,
    /// Timeout per phase (seconds)
    pub phase_timeout_secs: u64,
    /// Global timeout (seconds)
    pub global_timeout_secs: u64,
}

/// The names of the built-in plugins, in the order the default configuration lists them.
pub open spec fn builtin_plugin_names() -> Seq<Seq<char>> {
    seq!["web-search"@, "filesystem"@, "shell"@, "memory"@, "code-executor"@]
}

/// What the default configuration holds.
pub open spec fn is_default_config(c: HarnessConfig) -> bool {
    c.name@ == "rHarness"@ && default_settings(c)
}

/// What the default configuration holds besides its name.
pub open spec fn default_settings(c: HarnessConfig) -> bool {
    &&& c.version@ == "1.0.0"@
    &&& c.tagline@ == "Finish First."@
    &&& c.description@ == "A finish-first autonomous agent loop and an open, plugin-based agent harness."@
    &&& c.loop_strategy == LoopStrategy::FinishFirst
    &&& c.engine@ == "harness-core"@
    &&& c.license@ == "MIT"@
    &&& c.homepage is None
    &&& c.phases@ == phase_order()
    &&& c.plugins@.map_values(|s: String| s@) == builtin_plugin_names()
    &&& c.max_iterations == 10
    &&& c.phase_timeout_secs == 300
    &&& c.global_timeout_secs == 3600
}

impl Default for HarnessConfig {
    fn default() -> (r: Self)
        ensures
            is_default_config(r),
    {
        let plugins = vec![
            "web-search".to_string(),
            "filesystem".to_string(),
            "shell".to_string(),
            "memory".to_string(),
            "code-executor".to_string(),
        ];
        let r = HarnessConfig {
            name: "rHarness".to_string(),
            version: "1.0.0".to_string(),
            tagline: "Finish First.".to_string(),
            description: "A finish-first autonomous agent loop and an open, plugin-based agent harness.".to_string(),
            loop_strategy: LoopStrategy::FinishFirst,
            engine: "harness-core".to_string(),
            license: "MIT".to_string(),
            homepage: None,
            phases: vec![Phase::Interrogate, Phase::Contract, Phase::Execute, Phase::Finish],
            plugins,
            max_iterations: 10,
            phase_timeout_secs: 300,
            global_timeout_secs: 3600,
        };
        assert(r.plugins@.map_values(|s: String| s@) =~= builtin_plugin_names());
        r
    }
}

/// Plugin capabilities.
#[derive(Debug, Clone)]
pub struct PluginCapabilities {
    /// Can search the web
    pub web_search: bool,
    /// Can access filesystem
    pub filesystem: bool,
    /// Can execute shell commands
    pub shell: bool,
    /// Can store/retrieve memory
    pub memory: bool,
    /// Can execute code
    pub code_execution: bool,
    /// Custom capabilities
    pub custom: HashMap<String, bool>,
}

/// The capability flags of a plugin, in the order web search, filesystem,
/// shell, memory, code execution.
pub open spec fn capability_flags(c: PluginCapabilities) -> (bool, bool, bool, bool, bool) {
    (c.web_search, c.filesystem, c.shell, c.memory, c.code_execution)
}

impl Default for PluginCapabilities {
    fn default() -> (r: Self)
        ensures
            capability_flags(r) == (false, false, false, false, false),
            r.custom@ == Map::<String, bool>::empty(),
    {
        PluginCapabilities {
            web_search: false,
            filesystem: false,
            shell: false,
            memory: false,
            code_execution: false,
            custom: HashMap::new(),
        }
    }
}

/// Types of harness events.
#[derive(Debug, Clone)]
pub enum EventType {
    /// Phase started
    PhaseStarted,
    /// Phase completed
    PhaseCompleted,
    /// Phase failed
    PhaseFailed,
    /// Plugin invoked
    PluginInvoked { plugin: String },
    /// Artifact created
    ArtifactCreated { artifact_id: HarnessId },
    /// Agent decision
    AgentDecision { decision: String },
    /// Error occurred
    Error { message: String },
    /// Custom event
    Custom { name: String },
}

/// Event emitted during harness execution.
#[derive(Debug, Clone)]
pub struct HarnessEvent {
    /// Event ID
    pub id: HarnessId,
    /// Event type
    pub event_type: EventType,
    /// Phase when event occurred
    pub phase: Phase,
    /// Timestamp
    pub timestamp: Timestamp,
    /// Event payload
    pub payload: serde_json::Value,
}

/// Harness run metadata.
#[derive(Debug, Clone)]
pub struct HarnessRun {
    /// Run ID
    pub id: HarnessId,
    /// Configuration used
    pub config: HarnessConfig,
    /// Run status
    pub status: RunStatus,
    /// Current phase
    pub current_phase: Option<Phase>,
    /// Phase results
    pub phase_results: Vec<PhaseResult>,
    /// Events
    pub events: Vec<HarnessEvent>,
    /// Start time
    pub started_at: Timestamp,
    /// End time (if completed)
    pub completed_at: Option<Timestamp>,
    /// Final artifacts
    pub artifacts: Vec<Artifact>,
}

/// Every recorded phase result succeeded.
pub open spec fn all_succeeded(results: Seq<PhaseResult>) -> bool {
    forall|i: int| 0 <= i < results.len() ==> #[trigger] results[i].success
}

/// The status a run ends with: completed exactly when every phase result succeeded.
pub open spec fn final_status(results: Seq<PhaseResult>) -> RunStatus {
    if all_succeeded(results) {
        RunStatus::Completed
    } else {
        RunStatus::Failed
    }
}

impl HarnessRun {
    /// A fresh run: pending, with no phase begun and nothing recorded.
    pub fn new(id: HarnessId, config: HarnessConfig, started_at: Timestamp) -> (r: Self)
        ensures
            r.id == id,
            r.config == config,
            r.status == RunStatus::Pending,
            r.current_phase is None,
            r.phase_results@ == Seq::<PhaseResult>::empty(),
            r.events@ == Seq::<HarnessEvent>::empty(),
            r.started_at == started_at,
            r.completed_at is None,
            r.artifacts@ == Seq::<Artifact>::empty(),
    {
        HarnessRun {
            id,
            config,
            status: RunStatus::Pending,
            current_phase: None,
            phase_results: Vec::new(),
            events: Vec::new(),
            started_at,
            completed_at: None,
            artifacts: Vec::new(),
        }
    }

    /// Mark a phase as the one being executed; the run is then running.
    pub fn begin_phase(&mut self, phase: Phase)
        ensures
            final(self).current_phase == Some(phase),
            final(self).status == RunStatus::Running,
            final(self).phase_results@ == old(self).phase_results@,
            final(self).events@ == old(self).events@,
            final(self).id == old(self).id,
            final(self).config == old(self).config,
            final(self).started_at == old(self).started_at,
            final(self).completed_at == old(self).completed_at,
            final(self).artifacts@ == old(self).artifacts@,
    {
        self.current_phase = Some(phase);
        self.status = RunStatus::Running;
    }

    /// Append an event to the run's event log.
    pub fn record_event(&mut self, event: HarnessEvent)
        ensures
            final(self).events@ == old(self).events@.push(event),
            final(self).phase_results@ == old(self).phase_results@,
            final(self).status == old(self).status,
            final(self).current_phase == old(self).current_phase,
            final(self).id == old(self).id,
            final(self).config == old(self).config,
            final(self).started_at == old(self).started_at,
            final(self).completed_at == old(self).completed_at,
            final(self).artifacts@ == old(self).artifacts@,
    {
        self.events.push(event);
    }

    /// Append the result of a phase to the run.
    pub fn record_result(&mut self, result: PhaseResult)
        ensures
            final(self).phase_results@ == old(self).phase_results@.push(result),
            final(self).events@ == old(self).events@,
            final(self).status == old(self).status,
            final(self).current_phase == old(self).current_phase,
            final(self).id == old(self).id,
            final(self).config == old(self).config,
            final(self).started_at == old(self).started_at,
            final(self).completed_at == old(self).completed_at,
            final(self).artifacts@ == old(self).artifacts@,
    {
        self.phase_results.push(result);
    }

    /// Close the run: it is completed when every phase result succeeded
    /// (also when none was recorded) and failed otherwise; the end time and
    /// the final artifacts are set.
    pub fn finalize(&mut self, completed_at: Timestamp, artifacts: Vec<Artifact>)
        ensures
            final(self).status == final_status(old(self).phase_results@),
            final(self).completed_at == Some(completed_at),
            final(self).artifacts@ == artifacts@,
            final(self).phase_results@ == old(self).phase_results@,
            final(self).events@ == old(self).events@,
            final(self).current_phase == old(self).current_phase,
            final(self).id == old(self).id,
            final(self).config == old(self).config,
            final(self).started_at == old(self).started_at,
    {
        let mut all_ok = true;
        let mut i: usize = 0;
        while i < self.phase_results.len()
            invariant
                i <= self.phase_results@.len(),
                all_ok <==> (forall|j: int| 0 <= j < i ==> #[trigger] self.phase_results@[j].success),
            decreases self.phase_results@.len() - i,
        {
            if !self.phase_results[i].success {
                all_ok = false;
            }
            i = i + 1;
        }
        self.status = if all_ok { RunStatus::Completed } else { RunStatus::Failed };
        self.completed_at = Some(completed_at);
        self.artifacts = artifacts;
    }
}

} // verus!
