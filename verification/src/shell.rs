use std::collections::HashMap;
use vstd::prelude::*;

use crate::paths::{join_path, joined_path, lossy_utf8, utf8_lossy};
use crate::phase::{phase_order, Phase};
use crate::text::{
    concat, contains_seq, decimal, decimal_of, first_word, first_word_of, join_seq, join_strs,
    owned, seq_has_text, str_contains, str_texts, texts, vec_has_text,
};
use crate::types::{capability_flags, PluginCapabilities};
use vstd::string::StringSliceAdditionalSpecFns;
use vstd::utf8::{
    decode_utf8, encode_utf8, encode_utf8_decode_utf8, encode_utf8_valid_utf8, is_char_boundary,
    is_char_boundary_start_end_of_seq, valid_utf8,
};

verus! {

/// Configuration of the shell plugin.
#[derive(Debug, Clone)]
pub struct ShellConfig {
    /// Allow executing commands
    pub allow_execute: bool,
    /// Default working directory
    pub working_dir: Option<String>,
    /// Default timeout (seconds)
    pub default_timeout_secs: u64,
    /// Maximum timeout (seconds)
    pub max_timeout_secs: u64,
    /// Allowed commands (empty = all, but with denylist)
    pub allowed_commands: Vec<String>,
    /// Denied commands (always blocked)
    pub denied_commands: Vec<String>,
    /// Environment variables to set
    pub env: HashMap<String, String>,
    /// Whether to inherit parent environment
    pub inherit_env: bool,
    /// Maximum output size (bytes)
    pub max_output_size: usize,
}

/// The commands the default shell configuration denies.
pub open spec fn default_denied_commands() -> Seq<Seq<char>> {
    seq![
        "rm -rf /"@,
        "format"@,
        "fdisk"@,
        "mkfs"@,
        "dd"@,
        "shutdown"@,
        "reboot"@,
        "halt"@,
        "poweroff"@,
        "init 0"@,
        "init 6"@,
        "rm -rf *"@,
        "rm -rf ~"@,
        "chmod 777"@,
        "chown -R"@,
    ]
}

impl Default for ShellConfig {
    fn default() -> (r: Self)
        ensures
            r.allow_execute,
            r.working_dir is None,
            r.default_timeout_secs == 60,
            r.max_timeout_secs == 300,
            r.allowed_commands@.len() == 0,
            texts(r.denied_commands@) == default_denied_commands(),
            r.env@ == Map::<String, String>::empty(),
            r.inherit_env,
            r.max_output_size == 1024 * 1024,
    {
        let mut denied = vec![
            "rm -rf /".to_string(),
            "format".to_string(),
            "fdisk".to_string(),
            "mkfs".to_string(),
            "dd".to_string(),
            "shutdown".to_string(),
            "reboot".to_string(),
            "halt".to_string(),
            "poweroff".to_string(),
            "init 0".to_string(),
            "init 6".to_string(),
        ];
        let mut extra = vec![
            "rm -rf *".to_string(),
            "rm -rf ~".to_string(),
            "chmod 777".to_string(),
            "chown -R".to_string(),
        ];
        denied.append(&mut extra);
        assert(texts(denied@) =~= default_denied_commands());
        ShellConfig {
            allow_execute: true,
            working_dir: None,
            default_timeout_secs: 60,
            max_timeout_secs: 300,
            allowed_commands: Vec::new(),
            denied_commands: denied,
            env: HashMap::new(),
            inherit_env: true,
            max_output_size: 1024 * 1024,
        }
    }
}

/// A command line passes the shell rules when it contains none of the denied
/// commands, and, where an allow list is given, its first word is on it.
pub open spec fn command_allowed(config: ShellConfig, command: Seq<char>) -> bool {
    &&& forall|i: int|
        0 <= i < config.denied_commands@.len() ==> !contains_seq(
            command,
            #[trigger] config.denied_commands@[i]@,
        )
    &&& (config.allowed_commands@.len() == 0 || seq_has_text(
        config.allowed_commands@,
        first_word(command),
    ))
}

/// The timeout a command runs with: the requested one, or the default, but
/// never more than the maximum.
pub open spec fn effective_timeout(requested: Option<u64>, default_secs: u64, max_secs: u64) -> u64 {
    let t = match requested {
        Some(t) => t,
        None => default_secs,
    };
    if t < max_secs {
        t
    } else {
        max_secs
    }
}

/// Denied commands are always blocked: a command line that contains one of
/// them is refused whatever the allow list says; with no allow list, every
/// other command line is accepted.
pub proof fn lemma_denied_commands_always_blocked(config: ShellConfig, command: Seq<char>, i: int)
    requires
        0 <= i < config.denied_commands@.len(),
    ensures
        contains_seq(command, config.denied_commands@[i]@) ==> !command_allowed(config, command),
        config.allowed_commands@.len() == 0 && (forall|j: int|
            0 <= j < config.denied_commands@.len() ==> !contains_seq(
                command,
                #[trigger] config.denied_commands@[j]@,
            )) ==> command_allowed(config, command),
{
}

/// A command never runs longer than the maximum timeout, and a requested
/// timeout within the maximum is kept as is.
pub proof fn lemma_timeout_never_exceeds_maximum(requested: Option<u64>, default_secs: u64, max_secs: u64)
    ensures
        effective_timeout(requested, default_secs, max_secs) <= max_secs,
        forall|t: u64|
            requested == Some(t) && t <= max_secs ==> effective_timeout(requested, default_secs, max_secs)
                == t,
        requested is None && default_secs <= max_secs ==> effective_timeout(
            requested,
            default_secs,
            max_secs,
        ) == default_secs,
{
}

/// Why the shell plugin refused or failed a command.
#[derive(Debug, Clone)]
pub enum ShellError {
    /// Command execution is switched off
    ExecutionNotAllowed,
    /// The command line is refused by the shell rules
    CommandNotAllowed(String),
    /// The command did not finish within the given seconds
    TimedOut(u64),
    /// The command could not be run; the cause is kept beside the message
    Failed(String),
}

impl ShellError {
    /// The message of the error.
    pub fn message(&self) -> (r: String)
        ensures
            self is ExecutionNotAllowed ==> r@ == "Command execution not allowed"@,
            self matches ShellError::CommandNotAllowed(c) ==> r@ == "Command not allowed: "@ + c@,
            self matches ShellError::TimedOut(s) ==> r@ == "Command timed out after "@ + decimal(
                s as nat,
            ) + " seconds"@,
            self is Failed ==> r@ == "Command execution failed"@,
    {
        match self {
            ShellError::ExecutionNotAllowed => owned("Command execution not allowed"),
            ShellError::CommandNotAllowed(c) => concat("Command not allowed: ", c.as_str()),
            ShellError::TimedOut(s) => {
                let mut r = owned("Command timed out after ");
                let d = decimal_of(*s);
                r.append(d.as_str());
                r.append(" seconds");
                r
            },
            ShellError::Failed(_) => owned("Command execution failed"),
        }
    }
}

/// How to run a command that the shell rules accepted.
#[derive(Debug, Clone)]
pub struct CommandPlan {
    /// The program
    pub program: String,
    /// Its arguments
    pub args: Vec<String>,
    /// The command line: the program, a space, and the arguments joined by spaces
    pub full_command: String,
    /// The directory the command runs in
    pub work_dir: String,
    /// The timeout in seconds
    pub timeout_secs: u64,
    /// Whether the command inherits the environment of the process; when
    /// not, it sees only the configured and the requested variables
    pub inherit_env: bool,
}

/// Command execution output.
#[derive(Debug, Clone)]
pub struct CommandOutput {
    pub command: String,
    pub exit_code: Option<i32>,
    pub stdout: String,
    pub stderr: String,
    pub success: bool,
    pub timed_out: bool,
}

/// Shell plugin for executing commands.
#[derive(Debug, Clone)]
pub struct ShellPlugin {
    config: ShellConfig,
    working_dir: String,
}

impl ShellPlugin {
    /// Create a new shell plugin.
    pub fn new(config: ShellConfig, working_dir: String) -> (r: Self)
        ensures
            r.config() == config,
            r.working_dir() == working_dir,
    {
        ShellPlugin { config, working_dir }
    }

    /// The configuration of the plugin.
    pub closed spec fn config(&self) -> ShellConfig {
        self.config
    }

    /// The working directory of the plugin.
    pub closed spec fn working_dir(&self) -> String {
        self.working_dir
    }

    /// The configuration of the plugin.
    pub fn get_config(&self) -> (r: &ShellConfig)
        ensures
            *r == self.config(),
    {
        &self.config
    }

    /// The working directory of the plugin.
    pub fn get_working_dir(&self) -> (r: &String)
        ensures
            *r == self.working_dir(),
    {
        &self.working_dir
    }

    /// Replace the configuration (as a plugin does on initialization).
    pub fn set_config(&mut self, config: ShellConfig)
        ensures
            final(self).config() == config,
            final(self).working_dir() == old(self).working_dir(),
    {
        self.config = config;
    }

    /// Check if a command line is allowed: no denied command occurs in it, and
    /// with an allow list its first word is on the list.
    pub fn is_command_allowed(&self, command: &str) -> (r: bool)
        ensures
            r == command_allowed(self.config(), command@),
    {
        let denied = &self.config.denied_commands;
        let mut i: usize = 0;
        while i < denied.len()
            invariant
                denied == &self.config.denied_commands,
                i <= denied@.len(),
                forall|j: int| 0 <= j < i ==> !contains_seq(command@, #[trigger] denied@[j]@),
            decreases denied@.len() - i,
        {
            if str_contains(command, denied[i].as_str()) {
                return false;
            }
            i = i + 1;
        }
        if self.config.allowed_commands.len() > 0 {
            let name = first_word_of(command);
            return vec_has_text(&self.config.allowed_commands, name.as_str());
        }
        true
    }

    /// Check a command against the plugin's rules and work out how to run it:
    /// refused when execution is off, or when the command line
    /// (`command` then a space then the arguments joined by spaces) breaks the
    /// shell rules; otherwise run in the plugin's directory (joined with the
    /// configured one, if any) with the effective timeout.
    pub fn plan_command(&self, command: &str, args: &[&str], timeout_secs: Option<u64>) -> (r:
        Result<CommandPlan, ShellError>)
        ensures
            !self.config().allow_execute ==> r matches Err(ShellError::ExecutionNotAllowed),
            self.config().allow_execute ==> {
                let full = command@ + " "@ + join_seq(str_texts(args@), " "@);
                &&& !command_allowed(self.config(), full) ==> (r matches Err(
                    ShellError::CommandNotAllowed(c),
                ) && c@ == full)
                &&& command_allowed(self.config(), full) ==> (r matches Ok(plan) && {
                    &&& plan.program@ == command@
                    &&& str_texts(args@) == texts(plan.args@)
                    &&& plan.full_command@ == full
                    &&& plan.work_dir@ == match self.config().working_dir {
                        Some(d) => joined_path(self.working_dir()@, d@),
                        None => self.working_dir()@,
                    }
                    &&& plan.timeout_secs == effective_timeout(
                        timeout_secs,
                        self.config().default_timeout_secs,
                        self.config().max_timeout_secs,
                    )
                    &&& plan.inherit_env == self.config().inherit_env
                })
            },
    {
        if !self.config.allow_execute {
            return Err(ShellError::ExecutionNotAllowed);
        }
        let mut full = concat(command, " ");
        let joined = join_strs(args, " ");
        full.append(joined.as_str());
        if !self.is_command_allowed(full.as_str()) {
            return Err(ShellError::CommandNotAllowed(full));
        }
        let work_dir = match &self.config.working_dir {
            Some(d) => join_path(self.working_dir.as_str(), d.as_str()),
            None => owned(self.working_dir.as_str()),
        };
        let requested = match timeout_secs {
            Some(t) => t,
            None => self.config.default_timeout_secs,
        };
        let timeout = if requested < self.config.max_timeout_secs {
            requested
        } else {
            self.config.max_timeout_secs
        };
        let mut owned_args: Vec<String> = Vec::new();
        let mut i: usize = 0;
        while i < args.len()
            invariant
                i <= args@.len(),
                texts(owned_args@) == str_texts(args@).take(i as int),
            decreases args@.len() - i,
        {
            let a = owned(args[i]);
            let ghost prev = owned_args@;
            owned_args.push(a);
            proof {
                assert(a@ == args@[i as int]@);
                assert(texts(owned_args@) =~= texts(prev).push(a@));
                assert(str_texts(args@).take(i + 1) =~= str_texts(args@).take(i as int).push(
                    args@[i as int]@,
                ));
            }
            i = i + 1;
        }
        assert(str_texts(args@).take(args@.len() as int) =~= str_texts(args@));
        Ok(
            CommandPlan {
                program: owned(command),
                args: owned_args,
                full_command: full,
                work_dir,
                timeout_secs: timeout,
                inherit_env: self.config.inherit_env,
            },
        )
    }

    /// Plugin name.
    pub fn name(&self) -> (r: &'static str)
        ensures
            r@ == "shell"@,
    {
        "shell"
    }

    /// Plugin version.
    pub fn version(&self) -> (r: &'static str)
        ensures
            r@ == "1.0.0"@,
    {
        "1.0.0"
    }

    /// Plugin description.
    pub fn description(&self) -> (r: &'static str)
        ensures
            r@ == "Shell command execution plugin - run commands and capture output"@,
    {
        "Shell command execution plugin - run commands and capture output"
    }

    /// The phases the plugin takes part in: all of them.
    pub fn supported_phases(&self) -> (r: Vec<Phase>)
        ensures
            r@ == phase_order(),
    {
        let r = vec![Phase::Interrogate, Phase::Contract, Phase::Execute, Phase::Finish];
        assert(r@ =~= phase_order());
        r
    }

    /// The plugin's capabilities: shell execution only.
    pub fn capabilities(&self) -> (r: PluginCapabilities)
        ensures
            capability_flags(r) == (false, false, true, false, false),
            r.custom@ == Map::<String, bool>::empty(),
    {
        let mut caps = PluginCapabilities::default();
        caps.shell = true;
        caps
    }
}

/// The largest character boundary of `bytes` at or below `m` (0 when there
/// is none above 0).
pub open spec fn cut_point(bytes: Seq<u8>, m: int) -> int
    decreases m,
{
    if m <= 0 {
        0
    } else if is_char_boundary(bytes, m) {
        m
    } else {
        cut_point(bytes, m - 1)
    }
}

/// The number of UTF-8 bytes of a text that are kept under a limit of `max`
/// bytes: the text ends at the last character boundary at or below the
/// limit.
pub open spec fn kept_len(text: Seq<char>, max: nat) -> int {
    let bytes = encode_utf8(text);
    cut_point(bytes, if bytes.len() <= max { bytes.len() as int } else { max as int })
}

/// The longest prefix of a text, cut at a character boundary, whose UTF-8
/// encoding fits in `max` bytes.
pub open spec fn fitting_prefix(text: Seq<char>, max: nat) -> Seq<char> {
    decode_utf8(encode_utf8(text).subrange(0, kept_len(text, max)))
}

proof fn lemma_cut_point(bytes: Seq<u8>, m: int)
    requires
        valid_utf8(bytes),
        m <= bytes.len(),
    ensures
        0 <= cut_point(bytes, m),
        m >= 0 ==> cut_point(bytes, m) <= m,
        is_char_boundary(bytes, cut_point(bytes, m)),
    decreases m,
{
    if m > 0 && !is_char_boundary(bytes, m) {
        lemma_cut_point(bytes, m - 1);
    }
}

/// Cut a text to at most `max` bytes of UTF-8, at the last character
/// boundary at or below the limit.
pub fn cut_text(text: String, max: usize) -> (r: String)
    ensures
        r@ == fitting_prefix(text@, max as nat),
        encode_utf8(r@) == encode_utf8(text@).subrange(0, kept_len(text@, max as nat)),
        encode_utf8(r@).len() <= max,
        encode_utf8(text@).len() <= max ==> r@ == text@,
{
    let s = text.as_str();
    let ghost bytes = s.spec_bytes();
    assert(s@ == text@);
    proof {
        encode_utf8_valid_utf8(s@);
        is_char_boundary_start_end_of_seq(bytes);
    }
    let len = s.as_bytes().len();
    let mut idx: usize = if len <= max {
        len
    } else {
        max
    };
    let ghost start = idx as int;
    proof {
        lemma_cut_point(bytes, start);
    }
    while !s.is_char_boundary(idx)
        invariant
            bytes == s.spec_bytes(),
            bytes == encode_utf8(text@),
            valid_utf8(bytes),
            is_char_boundary(bytes, 0),
            idx <= start <= bytes.len(),
            cut_point(bytes, start) == cut_point(bytes, idx as int),
        decreases idx,
    {
        idx = idx - 1;
    }
    assert(cut_point(bytes, idx as int) == idx as int);
    assert(kept_len(text@, max as nat) == idx as int);
    let (head, _) = s.split_at(idx);
    proof {
        encode_utf8_decode_utf8(head@);
        encode_utf8_decode_utf8(text@);
        assert(encode_utf8(head@) =~= bytes.subrange(0, idx as int));
        if bytes.len() <= max {
            assert(bytes.subrange(0, bytes.len() as int) =~= bytes);
        }
    }
    owned(head)
}

/// The output of a command that ran: its command line, exit code, the text
/// of its standard output and error (invalid UTF-8 replaced), each cut at a
/// character boundary to at most `max_output_size` bytes of UTF-8 and kept
/// whole when it fits, and whether it succeeded; a command that ran did not
/// time out.
pub fn command_output(
    command: String,
    exit_code: Option<i32>,
    stdout: &[u8],
    stderr: &[u8],
    success: bool,
    max_output_size: usize,
) -> (r: CommandOutput)
    ensures
        r.command == command,
        r.exit_code == exit_code,
        r.stdout@ == fitting_prefix(lossy_utf8(stdout@), max_output_size as nat),
        r.stderr@ == fitting_prefix(lossy_utf8(stderr@), max_output_size as nat),
        encode_utf8(r.stdout@) == encode_utf8(lossy_utf8(stdout@)).subrange(
            0,
            kept_len(lossy_utf8(stdout@), max_output_size as nat),
        ),
        encode_utf8(r.stderr@) == encode_utf8(lossy_utf8(stderr@)).subrange(
            0,
            kept_len(lossy_utf8(stderr@), max_output_size as nat),
        ),
        encode_utf8(r.stdout@).len() <= max_output_size,
        encode_utf8(r.stderr@).len() <= max_output_size,
        encode_utf8(lossy_utf8(stdout@)).len() <= max_output_size ==> r.stdout@ == lossy_utf8(
            stdout@,
        ),
        encode_utf8(lossy_utf8(stderr@)).len() <= max_output_size ==> r.stderr@ == lossy_utf8(
            stderr@,
        ),
        r.success == success,
        !r.timed_out,
{
    let out = cut_text(utf8_lossy(stdout), max_output_size);
    let err = cut_text(utf8_lossy(stderr), max_output_size);
    CommandOutput { command, exit_code, stdout: out, stderr: err, success, timed_out: false }
}

} // verus!
