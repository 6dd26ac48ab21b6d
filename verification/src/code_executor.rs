use std::collections::HashMap;
use vstd::prelude::*;

use crate::paths::{join_path, joined_path, lossy_utf8, lowercase, to_lowercase, utf8_lossy};
use crate::phase::Phase;
use crate::shell::effective_timeout;
use crate::text::{
    concat, decimal, decimal_of, eq_ignore_ascii_case, owned, str_eq, str_eq_ignore_ascii_case,
    texts,
};
use crate::types::{capability_flags, PluginCapabilities};

verus! {

/// Sandbox type (none, docker, gvisor, firejail, nsjail).
#[derive(Debug, Clone, Copy, PartialEq, Eq, Structural)]
pub enum SandboxType {
    NoSandbox,
    Docker,
    Gvisor,
    Firejail,
    Nsjail,
}

/// Resource limits of code execution.
#[derive(Debug, Clone, Copy, PartialEq, Eq, Structural)]
pub struct ResourceLimits {
    /// Max memory (MB)
    pub max_memory_mb: u64,
    /// Max CPU time (seconds)
    pub max_cpu_time_secs: u64,
    /// Max processes
    pub max_processes: u32,
    /// Max file size (MB)
    pub max_file_size_mb: u64,
    /// Network access
    pub allow_network: bool,
}

/// Configuration of the code executor plugin.
#[derive(Debug, Clone)]
pub struct CodeExecutorConfig {
    /// Allow code execution
    pub allow_execute: bool,
    /// Default timeout (seconds)
    pub default_timeout_secs: u64,
    /// Maximum timeout (seconds)
    pub max_timeout_secs: u64,
    /// Working directory for code execution
    pub working_dir: Option<String>,
    /// Enable sandboxing (if available)
    pub enable_sandbox: bool,
    /// Sandbox type (none, docker, gvisor, firejail, nsjail)
    pub sandbox_type: SandboxType,
    /// Allowed languages
    pub allowed_languages: Vec<String>,
    /// Resource limits
    pub resource_limits: ResourceLimits,
    /// Pre-installed packages per language
    pub packages: HashMap<String, Vec<String>>,
}

/// The languages the default configuration allows.
pub open spec fn default_languages() -> Seq<Seq<char>> {
    seq!["python"@, "node"@, "rust"@, "bash"@, "go"@]
}

/// The pre-installed packages of the default configuration for a language.
pub open spec fn default_packages(language: Seq<char>) -> Option<Seq<Seq<char>>> {
    if language == "python"@ {
        Some(seq!["requests"@, "numpy"@])
    } else if language == "node"@ {
        Some(seq!["typescript"@])
    } else if language == "rust"@ {
        Some(seq!["serde"@, "tokio"@])
    } else {
        None
    }
}

/// `HashMap::insert` with a key whose text the map does not hold yet. String
/// keys hash and compare by their text, so the map then holds the key, mapped
/// to the value, beside its earlier entries.
#[verifier::external_body]
fn insert_new_key(m: &mut HashMap<String, Vec<String>>, k: String, v: Vec<String>)
    requires
        !has_key_text(old(m)@, k@),
    ensures
        final(m)@ == old(m)@.insert(k, v),
{
    m.insert(k, v);
}

impl Default for CodeExecutorConfig {
    /// The default configuration.
    fn default() -> (r: Self)
        ensures
            has_key_text(r.packages@, "python"@),
            has_key_text(r.packages@, "node"@),
            has_key_text(r.packages@, "rust"@),
            forall|k: String| #[trigger]
                r.packages@.contains_key(k) ==> default_packages(k@) == Some(
                    texts(r.packages@[k]@),
                ),
            r.allow_execute,
            r.default_timeout_secs == 30,
            r.max_timeout_secs == 300,
            r.working_dir matches Some(d) && d@ == ".code_exec"@,
            !r.enable_sandbox,
            r.sandbox_type == SandboxType::NoSandbox,
            texts(r.allowed_languages@) == default_languages(),
            r.resource_limits == (ResourceLimits {
                max_memory_mb: 512,
                max_cpu_time_secs: 60,
                max_processes: 50,
                max_file_size_mb: 100,
                allow_network: false,
            }),
    {
        proof {
            reveal_strlit("python");
            reveal_strlit("node");
            reveal_strlit("rust");
        }
        let mut packages: HashMap<String, Vec<String>> = HashMap::new();
        let python = "python".to_string();
        let node = "node".to_string();
        let rust = "rust".to_string();
        let python_pkgs = vec!["requests".to_string(), "numpy".to_string()];
        let node_pkgs = vec!["typescript".to_string()];
        let rust_pkgs = vec!["serde".to_string(), "tokio".to_string()];
        assert(texts(python_pkgs@) =~= seq!["requests"@, "numpy"@]);
        assert(texts(node_pkgs@) =~= seq!["typescript"@]);
        assert(texts(rust_pkgs@) =~= seq!["serde"@, "tokio"@]);
        let ghost m0 = packages@;
        insert_new_key(&mut packages, python, python_pkgs);
        let ghost m1 = packages@;
        assert(!has_key_text(m1, node@)) by {
            assert(m0 =~= Map::<String, Vec<String>>::empty());
            assert(python@ == "python"@);
            assert(node@ == "node"@);
            assert("python"@ != "node"@) by {
                assert("python"@.len() != "node"@.len());
            }
            assert forall|k: String| m1.contains_key(k) implies k@ != node@ by {
                assert(k == python);
            }
        }
        insert_new_key(&mut packages, node, node_pkgs);
        let ghost m2 = packages@;
        assert(!has_key_text(m2, rust@)) by {
            assert(rust@ == "rust"@);
            assert("python"@ != "rust"@) by {
                assert("python"@.len() != "rust"@.len());
            }
            assert("node"@ != "rust"@) by {
                assert("node"@[0] != "rust"@[0]);
            }
            assert forall|k: String| m2.contains_key(k) implies k@ != rust@ by {
                assert(k == python || k == node);
            }
        }
        insert_new_key(&mut packages, rust, rust_pkgs);
        assert(packages@.contains_key(python));
        assert(packages@.contains_key(node));
        assert(packages@.contains_key(rust));
        let allowed_languages = vec![
            "python".to_string(),
            "node".to_string(),
            "rust".to_string(),
            "bash".to_string(),
            "go".to_string(),
        ];
        assert(texts(allowed_languages@) =~= default_languages());
        CodeExecutorConfig {
            allow_execute: true,
            default_timeout_secs: 30,
            max_timeout_secs: 300,
            working_dir: Some(".code_exec".to_string()),
            enable_sandbox: false,
            sandbox_type: SandboxType::NoSandbox,
            allowed_languages,
            resource_limits: ResourceLimits {
                max_memory_mb: 512,
                max_cpu_time_secs: 60,
                max_processes: 50,
                max_file_size_mb: 100,
                allow_network: false,
            },
            packages,
        }
    }
}

/// Code execution request.
#[derive(Debug, Clone)]
pub struct CodeExecutionRequest {
    pub language: String,
    pub code: String,
    /// filename -> content
    pub files: HashMap<String, String>,
    pub args: Vec<String>,
    pub env: HashMap<String, String>,
    pub timeout_secs: Option<u64>,
}

/// Code execution result.
#[derive(Debug, Clone)]
pub struct CodeExecutionResult {
    pub success: bool,
    pub stdout: String,
    pub stderr: String,
    pub exit_code: Option<i32>,
    pub execution_time_ms: u64,
    pub memory_used_mb: Option<u64>,
    pub error: Option<String>,
}

/// Why the code executor refused a request.
#[derive(Debug, Clone)]
pub enum CodeExecError {
    /// Code execution is switched off
    ExecutionNotAllowed,
    /// The request's language is not on the allowed list
    LanguageNotAllowed(String),
    /// No command is known for the language
    UnsupportedLanguage(String),
}

impl CodeExecError {
    /// The message of the error.
    pub fn message(&self) -> (r: String)
        ensures
            self is ExecutionNotAllowed ==> r@ == "Code execution not allowed"@,
            self matches CodeExecError::LanguageNotAllowed(l) ==> r@ == "Language not allowed: "@
                + l@,
            self matches CodeExecError::UnsupportedLanguage(l) ==> r@ == "Unsupported language: "@
                + l@,
    {
        match self {
            CodeExecError::ExecutionNotAllowed => owned("Code execution not allowed"),
            CodeExecError::LanguageNotAllowed(l) => concat("Language not allowed: ", l.as_str()),
            CodeExecError::UnsupportedLanguage(l) => concat("Unsupported language: ", l.as_str()),
        }
    }
}

/// A language is allowed when the allowed list holds it up to ASCII case.
pub open spec fn language_allowed(config: CodeExecutorConfig, language: Seq<char>) -> bool {
    exists|i: int|
        0 <= i < config.allowed_languages@.len() && eq_ignore_ascii_case(
            #[trigger] config.allowed_languages@[i]@,
            language,
        )
}

/// The file the main code is written to, by the request's language as given.
pub open spec fn main_file_name(language: Seq<char>) -> Seq<char> {
    if language == "python"@ {
        "main.py"@
    } else if language == "node"@ || language == "javascript"@ || language == "typescript"@ {
        "main.js"@
    } else if language == "rust"@ {
        "main.rs"@
    } else if language == "go"@ {
        "main.go"@
    } else if language == "bash"@ || language == "sh"@ {
        "main.sh"@
    } else {
        "main.txt"@
    }
}

/// The program and arguments that run the main file, by the lower-cased
/// language; none for an unknown language.
pub open spec fn command_for(lowered: Seq<char>, main_file: Seq<char>) -> Option<
    (Seq<char>, Seq<Seq<char>>),
> {
    if lowered == "python"@ || lowered == "python3"@ {
        Some(("python3"@, seq![main_file]))
    } else if lowered == "node"@ || lowered == "javascript"@ {
        Some(("node"@, seq![main_file]))
    } else if lowered == "typescript"@ {
        Some(("ts-node"@, seq![main_file]))
    } else if lowered == "rust"@ {
        Some(("rustc"@, seq![main_file, "-o"@, "main"@]))
    } else if lowered == "go"@ {
        Some(("go"@, seq!["run"@, main_file]))
    } else if lowered == "bash"@ || lowered == "sh"@ {
        Some(("bash"@, seq![main_file]))
    } else {
        None
    }
}

/// Every language that the default configuration allows has a command, and
/// each runs the main file with that language's tool: python with
/// `python3`, node with `node`, rust compiled by `rustc` to `main`, bash
/// with `bash` and go with `go run`; javascript runs with `node` and
/// typescript with `ts-node`.
pub proof fn lemma_allowed_languages_have_commands(main_file: Seq<char>)
    ensures
        forall|i: int|
            0 <= i < default_languages().len() ==> command_for(
                #[trigger] default_languages()[i],
                main_file,
            ) is Some,
        command_for("python"@, main_file) == Some(("python3"@, seq![main_file])),
        command_for("node"@, main_file) == Some(("node"@, seq![main_file])),
        command_for("javascript"@, main_file) == Some(("node"@, seq![main_file])),
        command_for("typescript"@, main_file) == Some(("ts-node"@, seq![main_file])),
        command_for("rust"@, main_file) == Some(("rustc"@, seq![main_file, "-o"@, "main"@])),
        command_for("bash"@, main_file) == Some(("bash"@, seq![main_file])),
        command_for("go"@, main_file) == Some(("go"@, seq!["run"@, main_file])),
        command_for("python3"@, main_file) == Some(("python3"@, seq![main_file])),
        command_for("sh"@, main_file) == Some(("bash"@, seq![main_file])),
        forall|l: Seq<char>|
            #[trigger] command_for(l, main_file) is Some ==> l == "python"@ || l == "python3"@ || l
                == "node"@ || l == "javascript"@ || l == "typescript"@ || l == "rust"@ || l
                == "go"@ || l == "bash"@ || l == "sh"@,
{
    reveal_strlit("python");
    reveal_strlit("python3");
    reveal_strlit("node");
    reveal_strlit("javascript");
    reveal_strlit("typescript");
    reveal_strlit("rust");
    reveal_strlit("go");
    reveal_strlit("bash");
    reveal_strlit("sh");
    assert("typescript"@[0] != "javascript"@[0]);
    assert("rust"@[0] != "node"@[0]);
    assert("go"@[0] != "sh"@[0]);
    assert("python"@.len() != "python3"@.len());
    assert forall|i: int| 0 <= i < default_languages().len() implies command_for(
        #[trigger] default_languages()[i],
        main_file,
    ) is Some by {
        assert(i == 0 || i == 1 || i == 2 || i == 3 || i == 4);
    }
}

/// Whether a map keyed by strings has a key with the text `t`.
pub open spec fn has_key_text<V>(m: Map<String, V>, t: Seq<char>) -> bool {
    exists|k: String| m.contains_key(k) && k@ == t
}

/// `HashMap::contains_key` on a map keyed by strings: whether some key has
/// the given text. String keys hash and compare by their text, so the answer
/// is whether the map's domain holds a key with the characters of `name`.
#[verifier::external_body]
fn files_contain(files: &HashMap<String, String>, name: &str) -> (r: bool)
    ensures
        r == has_key_text(files@, name@),
{
    files.contains_key(name)
}

/// Code executor plugin for running code in various languages.
#[derive(Debug, Clone)]
pub struct CodeExecutorPlugin {
    config: CodeExecutorConfig,
    working_dir: String,
}

impl CodeExecutorPlugin {
    /// Create a new code executor plugin.
    pub fn new(config: CodeExecutorConfig, working_dir: String) -> (r: Self)
        ensures
            r.config() == config,
            r.working_dir() == working_dir,
    {
        CodeExecutorPlugin { config, working_dir }
    }

    /// The configuration of the plugin.
    pub closed spec fn config(&self) -> CodeExecutorConfig {
        self.config
    }

    /// The working directory of the plugin.
    pub closed spec fn working_dir(&self) -> String {
        self.working_dir
    }

    /// The configuration of the plugin.
    pub fn get_config(&self) -> (r: &CodeExecutorConfig)
        ensures
            *r == self.config(),
    {
        &self.config
    }

    /// Replace the configuration (as a plugin does on initialization).
    pub fn set_config(&mut self, config: CodeExecutorConfig)
        ensures
            final(self).config() == config,
            final(self).working_dir() == old(self).working_dir(),
    {
        self.config = config;
    }

    /// Check if a language is allowed (ASCII case is ignored).
    pub fn is_language_allowed(&self, language: &str) -> (r: bool)
        ensures
            r == language_allowed(self.config(), language@),
    {
        let langs = &self.config.allowed_languages;
        let mut i: usize = 0;
        while i < langs.len()
            invariant
                langs == &self.config.allowed_languages,
                i <= langs@.len(),
                forall|j: int| 0 <= j < i ==> !eq_ignore_ascii_case(#[trigger] langs@[j]@, language@),
            decreases langs@.len() - i,
        {
            if str_eq_ignore_ascii_case(langs[i].as_str(), language) {
                return true;
            }
            i = i + 1;
        }
        false
    }

    /// Check a request before anything is written: refused when execution is
    /// off or its language is not allowed; otherwise the effective timeout.
    pub fn check_request(&self, request: &CodeExecutionRequest) -> (r: Result<u64, CodeExecError>)
        ensures
            !self.config().allow_execute ==> r matches Err(CodeExecError::ExecutionNotAllowed),
            self.config().allow_execute && !language_allowed(self.config(), request.language@)
                ==> (r matches Err(CodeExecError::LanguageNotAllowed(l)) && l@ == request.language@),
            self.config().allow_execute && language_allowed(self.config(), request.language@)
                ==> r == Ok::<u64, CodeExecError>(
                effective_timeout(
                    request.timeout_secs,
                    self.config().default_timeout_secs,
                    self.config().max_timeout_secs,
                ),
            ),
    {
        if !self.config.allow_execute {
            return Err(CodeExecError::ExecutionNotAllowed);
        }
        if !self.is_language_allowed(request.language.as_str()) {
            return Err(CodeExecError::LanguageNotAllowed(owned(request.language.as_str())));
        }
        let requested = match request.timeout_secs {
            Some(t) => t,
            None => self.config.default_timeout_secs,
        };
        Ok(
            if requested < self.config.max_timeout_secs {
                requested
            } else {
                self.config.max_timeout_secs
            },
        )
    }

    /// The directory code runs in: the configured one under the plugin's
    /// directory, or `.code_exec` there.
    pub fn exec_dir(&self) -> (r: String)
        ensures
            r@ == joined_path(
                self.working_dir()@,
                match self.config().working_dir {
                    Some(d) => d@,
                    None => ".code_exec"@,
                },
            ),
    {
        match &self.config.working_dir {
            Some(d) => join_path(self.working_dir.as_str(), d.as_str()),
            None => join_path(self.working_dir.as_str(), ".code_exec"),
        }
    }

    /// Build the command that runs the main file of a language: the language
    /// is lower-cased first; an unknown language is refused. (`args` are not
    /// passed on to the command.)
    pub fn build_command(&self, language: &str, main_file: &str, args: &Vec<String>) -> (r:
        Result<(String, Vec<String>), CodeExecError>)
        ensures
            command_for(lowercase(language@), main_file@) matches Some(c) ==> (r matches Ok(
                cmd,
            ) && cmd.0@ == c.0 && texts(cmd.1@) == c.1),
            command_for(lowercase(language@), main_file@) is None ==> (r matches Err(
                CodeExecError::UnsupportedLanguage(l),
            ) && l@ == language@),
    {
        proof {
            reveal_strlit("python");
            reveal_strlit("python3");
            reveal_strlit("node");
            reveal_strlit("javascript");
            reveal_strlit("typescript");
            reveal_strlit("rust");
            reveal_strlit("go");
            reveal_strlit("bash");
            reveal_strlit("sh");
        }
        let lowered = to_lowercase(language);
        let l = lowered.as_str();
        let m = owned(main_file);
        if str_eq(l, "python") || str_eq(l, "python3") {
            let r = (owned("python3"), vec![m]);
            assert(texts(r.1@) =~= seq![main_file@]);
            Ok(r)
        } else if str_eq(l, "node") || str_eq(l, "javascript") {
            let r = (owned("node"), vec![m]);
            assert(texts(r.1@) =~= seq![main_file@]);
            Ok(r)
        } else if str_eq(l, "typescript") {
            let r = (owned("ts-node"), vec![m]);
            assert(texts(r.1@) =~= seq![main_file@]);
            Ok(r)
        } else if str_eq(l, "rust") {
            let r = (owned("rustc"), vec![m, owned("-o"), owned("main")]);
            assert(texts(r.1@) =~= seq![main_file@, "-o"@, "main"@]);
            Ok(r)
        } else if str_eq(l, "go") {
            let r = (owned("go"), vec![owned("run"), m]);
            assert(texts(r.1@) =~= seq!["run"@, main_file@]);
            Ok(r)
        } else if str_eq(l, "bash") || str_eq(l, "sh") {
            let r = (owned("bash"), vec![m]);
            assert(texts(r.1@) =~= seq![main_file@]);
            Ok(r)
        } else {
            Err(CodeExecError::UnsupportedLanguage(owned(language)))
        }
    }

    /// Plugin name.
    pub fn name(&self) -> (r: &'static str)
        ensures
            r@ == "code-executor"@,
    {
        "code-executor"
    }

    /// Plugin version.
    pub fn version(&self) -> (r: &'static str)
        ensures
            r@ == "1.0.0"@,
    {
        "1.0.0"
    }

    /// Plugin description.
    pub fn description(&self) -> (r: &'static str)
        ensures
            r@ == "Code execution plugin supporting multiple languages with optional sandboxing"@,
    {
        "Code execution plugin supporting multiple languages with optional sandboxing"
    }

    /// The phases the plugin takes part in: Execute and Finish.
    pub fn supported_phases(&self) -> (r: Vec<Phase>)
        ensures
            r@ == seq![Phase::Execute, Phase::Finish],
    {
        let r = vec![Phase::Execute, Phase::Finish];
        assert(r@ =~= seq![Phase::Execute, Phase::Finish]);
        r
    }

    /// The plugin's capabilities: code execution only.
    pub fn capabilities(&self) -> (r: PluginCapabilities)
        ensures
            capability_flags(r) == (false, false, false, false, true),
            r.custom@ == Map::<String, bool>::empty(),
    {
        let mut caps = PluginCapabilities::default();
        caps.code_execution = true;
        caps
    }
}

/// The file a request's main code is written to.
pub fn main_file_for(language: &str) -> (r: &'static str)
    ensures
        r@ == main_file_name(language@),
{
    proof {
        reveal_strlit("python");
        reveal_strlit("node");
        reveal_strlit("javascript");
        reveal_strlit("typescript");
        reveal_strlit("rust");
        reveal_strlit("go");
        reveal_strlit("bash");
        reveal_strlit("sh");
    }
    if str_eq(language, "python") {
        "main.py"
    } else if str_eq(language, "node") || str_eq(language, "javascript") || str_eq(
        language,
        "typescript",
    ) {
        "main.js"
    } else if str_eq(language, "rust") {
        "main.rs"
    } else if str_eq(language, "go") {
        "main.go"
    } else if str_eq(language, "bash") || str_eq(language, "sh") {
        "main.sh"
    } else {
        "main.txt"
    }
}

/// Whether the request's code must be written to the main file: only when
/// the request's own files do not already hold a file of that name.
pub fn needs_main_file(request: &CodeExecutionRequest, main_file: &str) -> (r: bool)
    ensures
        r == !has_key_text(request.files@, main_file@),
{
    !files_contain(&request.files, main_file)
}

/// The result of code that ran: it succeeded when the process did, and a
/// failed run reports its standard error as the error.
pub fn result_from_output(
    success: bool,
    stdout: &[u8],
    stderr: &[u8],
    exit_code: Option<i32>,
    execution_time_ms: u64,
) -> (r: CodeExecutionResult)
    ensures
        r.success == success,
        r.stdout@ == lossy_utf8(stdout@),
        r.stderr@ == lossy_utf8(stderr@),
        r.exit_code == exit_code,
        r.execution_time_ms == execution_time_ms,
        r.memory_used_mb is None,
        success ==> r.error is None,
        !success ==> (r.error matches Some(e) && e@ == lossy_utf8(stderr@)),
{
    let out = utf8_lossy(stdout);
    let err = utf8_lossy(stderr);
    let error = if success {
        None
    } else {
        Some(owned(err.as_str()))
    };
    CodeExecutionResult {
        success,
        stdout: out,
        stderr: err,
        exit_code,
        execution_time_ms,
        memory_used_mb: None,
        error,
    }
}

/// The result of code that could not be started: failed, with the error.
pub fn result_from_failure(error: String, execution_time_ms: u64) -> (r: CodeExecutionResult)
    ensures
        !r.success,
        r.stdout@.len() == 0,
        r.stderr@.len() == 0,
        r.exit_code is None,
        r.execution_time_ms == execution_time_ms,
        r.memory_used_mb is None,
        r.error == Some(error),
{
    CodeExecutionResult {
        success: false,
        stdout: String::new(),
        stderr: String::new(),
        exit_code: None,
        execution_time_ms,
        memory_used_mb: None,
        error: Some(error),
    }
}

/// The result of code that ran past its timeout: failed, with the error
/// `Execution timed out after <secs> seconds`.
pub fn result_from_timeout(timeout_secs: u64, execution_time_ms: u64) -> (r: CodeExecutionResult)
    ensures
        !r.success,
        r.stdout@.len() == 0,
        r.stderr@.len() == 0,
        r.exit_code is None,
        r.execution_time_ms == execution_time_ms,
        r.memory_used_mb is None,
        r.error matches Some(e) && e@ == "Execution timed out after "@ + decimal(
            timeout_secs as nat,
        ) + " seconds"@,
{
    let mut msg = owned("Execution timed out after ");
    let d = decimal_of(timeout_secs);
    msg.append(d.as_str());
    msg.append(" seconds");
    result_from_failure(msg, execution_time_ms)
}

} // verus!
