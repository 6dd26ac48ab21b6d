//! A finish-first agent harness: the phases of the loop, the run state that the
//! engine keeps, the decisions that drive a run, and the rules of the built-in
//! plugins, each stated as a contract and proved.

pub mod builder;
pub mod cli;
pub mod code_executor;
pub mod filesystem;
pub mod memory;
pub mod opaque;
pub mod outcome;
pub mod paths;
pub mod phase;
pub mod registry;
pub mod run_loop;
pub mod shell;
pub mod text;
pub mod types;
pub mod web_search;

pub use phase::{LoopStrategy, Phase, RunStatus};

pub use builder::{BuildError, HarnessBuilder};
pub use code_executor::{
    CodeExecError, CodeExecutionRequest, CodeExecutionResult, CodeExecutorConfig,
    CodeExecutorPlugin, ResourceLimits, SandboxType,
};
pub use filesystem::{FileEntry, FilesystemConfig, FilesystemPlugin, FsError, FsOperation};
pub use memory::{MemoryConfig, MemoryError};
pub use registry::{CreateRunRequest, PluginInfo, RunRegistry};
pub use run_loop::{LoopAction, RunLoop, StopReason};
pub use shell::{CommandOutput, CommandPlan, ShellConfig, ShellError, ShellPlugin};
pub use types::{
    Artifact, EventType, HarnessConfig, HarnessEvent, HarnessId, HarnessRun, PhaseContext,
    PhaseResult, PluginCapabilities, Timestamp,
};
pub use web_search::{
    RawSearchItem, SearchProvider, SearchResponse, SearchResult, WebSearchConfig,
};
