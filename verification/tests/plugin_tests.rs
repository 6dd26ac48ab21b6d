use mythos_harness::code_executor::{
    main_file_for, needs_main_file, result_from_failure, result_from_output, result_from_timeout,
};
use mythos_harness::filesystem::{matches_pattern, sort_entries};
use mythos_harness::shell::command_output;
use mythos_harness::{
    CodeExecError, CodeExecutionRequest, CodeExecutorConfig, CodeExecutorPlugin, FileEntry,
    FilesystemConfig, FilesystemPlugin, FsError, FsOperation, Phase, SandboxType, ShellConfig,
    ShellError, ShellPlugin,
};
use std::collections::HashMap;

fn shell(config: ShellConfig) -> ShellPlugin {
    ShellPlugin::new(config, "/work".to_string())
}

#[test]
fn shell_default_config() {
    let c = ShellConfig::default();
    assert!(c.allow_execute);
    assert_eq!(c.default_timeout_secs, 60);
    assert_eq!(c.max_timeout_secs, 300);
    assert_eq!(c.denied_commands.len(), 15);
    assert_eq!(c.denied_commands[0], "rm -rf /");
    assert_eq!(c.denied_commands[14], "chown -R");
    assert!(c.allowed_commands.is_empty());
    assert_eq!(c.max_output_size, 1024 * 1024);
}

#[test]
fn shell_denied_commands_always_blocked() {
    let p = shell(ShellConfig::default());
    assert!(!p.is_command_allowed("sudo rm -rf / --no-preserve-root"));
    assert!(!p.is_command_allowed("dd if=/dev/zero"));
    assert!(!p.is_command_allowed("echo add"));
    assert!(p.is_command_allowed("ls -la"));
    let mut c = ShellConfig::default();
    c.allowed_commands = vec!["rm".to_string()];
    let p = shell(c);
    assert!(!p.is_command_allowed("rm -rf ~"));
    assert!(p.is_command_allowed("rm file.txt"));
}

#[test]
fn shell_allow_list_checks_first_word() {
    let mut c = ShellConfig::default();
    c.denied_commands = vec![];
    c.allowed_commands = vec!["ls".to_string(), "echo".to_string()];
    let p = shell(c);
    assert!(p.is_command_allowed("  ls -la"));
    assert!(p.is_command_allowed("echo\thello"));
    assert!(!p.is_command_allowed("lss"));
    assert!(!p.is_command_allowed("cat ls"));
    assert!(!p.is_command_allowed(""));
}

#[test]
fn shell_plan_builds_command_line_and_clamps_timeout() {
    let p = shell(ShellConfig::default());
    let plan = p.plan_command("echo", &["a", "b"], Some(1000)).unwrap();
    assert_eq!(plan.full_command, "echo a b");
    assert_eq!(plan.program, "echo");
    assert_eq!(plan.args, vec!["a", "b"]);
    assert_eq!(plan.timeout_secs, 300);
    assert_eq!(plan.work_dir, "/work");
    let plan = p.plan_command("ls", &[], None).unwrap();
    assert_eq!(plan.full_command, "ls ");
    assert_eq!(plan.timeout_secs, 60);
    let plan = p.plan_command("ls", &[], Some(5)).unwrap();
    assert_eq!(plan.timeout_secs, 5);
}

#[test]
fn shell_plan_refusals() {
    let mut c = ShellConfig::default();
    c.allow_execute = false;
    let p = shell(c);
    let e = p.plan_command("ls", &[], None).unwrap_err();
    assert!(matches!(e, ShellError::ExecutionNotAllowed));
    assert_eq!(e.message(), "Command execution not allowed");
    let p = shell(ShellConfig::default());
    let e = p.plan_command("mkfs", &["/dev/sda"], None).unwrap_err();
    assert_eq!(e.message(), "Command not allowed: mkfs /dev/sda");
    assert_eq!(ShellError::TimedOut(60).message(), "Command timed out after 60 seconds");
    assert_eq!(
        ShellError::Failed("no such file".to_string()).message(),
        "Command execution failed"
    );
}

#[test]
fn shell_plan_joins_working_dir() {
    let mut c = ShellConfig::default();
    c.working_dir = Some("sub".to_string());
    let p = shell(c);
    let plan = p.plan_command("ls", &[], None).unwrap();
    assert_eq!(plan.work_dir, "/work/sub");
}

#[test]
fn shell_command_output_decodes_lossily() {
    let out = command_output("x".to_string(), Some(0), b"hi\n", &[0xff, b'a'], true, 100);
    assert_eq!(out.stdout, "hi\n");
    assert_eq!(out.stderr, "\u{FFFD}a");
    assert!(out.success);
    assert!(!out.timed_out);
    assert_eq!(out.exit_code, Some(0));
}

#[test]
fn shell_command_output_is_cut_to_the_maximum_size() {
    let out = command_output("x".to_string(), Some(0), b"hello world", b"abc", true, 5);
    assert_eq!(out.stdout, "hello");
    assert_eq!(out.stderr, "abc");
    // the cut falls on a character boundary, within the byte limit
    let out = command_output("x".to_string(), None, "h\u{e9}".as_bytes(), b"", false, 2);
    assert_eq!(out.stdout, "h");
    assert_eq!(out.exit_code, None);
    let out = command_output("x".to_string(), None, "\u{e9}".as_bytes(), &[0xff], false, 1);
    assert_eq!(out.stdout, "");
    assert_eq!(out.stderr, "");
    // an invalid byte becomes a three-byte replacement character, kept when it fits
    let out = command_output("x".to_string(), None, b"", &[0xff], false, 3);
    assert_eq!(out.stderr, "\u{FFFD}");
    assert!(out.stderr.len() <= 3);
    let out = command_output("x".to_string(), None, "h\u{e9}llo".as_bytes(), b"", false, 3);
    assert_eq!(out.stdout, "h\u{e9}");
    assert!(out.stdout.len() <= 3);
}

#[test]
fn shell_plan_keeps_the_environment_choice() {
    let p = shell(ShellConfig::default());
    assert!(p.plan_command("ls", &[], None).unwrap().inherit_env);
    let mut c = ShellConfig::default();
    c.inherit_env = false;
    assert!(!shell(c).plan_command("ls", &[], None).unwrap().inherit_env);
}

#[test]
fn code_executor_default_packages() {
    let c = CodeExecutorConfig::default();
    assert_eq!(c.packages.len(), 3);
    assert_eq!(c.packages["python"], vec!["requests".to_string(), "numpy".to_string()]);
    assert_eq!(c.packages["node"], vec!["typescript".to_string()]);
    assert_eq!(c.packages["rust"], vec!["serde".to_string(), "tokio".to_string()]);
}

#[test]
fn shell_plugin_description() {
    let p = shell(ShellConfig::default());
    assert_eq!(p.name(), "shell");
    assert_eq!(p.version(), "1.0.0");
    assert_eq!(p.supported_phases(), Phase::all().to_vec());
    let caps = p.capabilities();
    assert!(caps.shell && !caps.filesystem && !caps.memory && !caps.web_search && !caps.code_execution);
}

fn fs(config: FilesystemConfig) -> FilesystemPlugin {
    FilesystemPlugin::new(config, "/work".to_string())
}

#[test]
fn filesystem_default_config() {
    let c = FilesystemConfig::default();
    assert!(c.allow_read && c.allow_write && c.allow_list && c.allow_mkdir);
    assert_eq!(c.max_file_size, 10 * 1024 * 1024);
    assert_eq!(c.denied_paths[0], "**/.git/**");
    assert_eq!(c.denied_paths.len(), 5);
}

#[test]
fn filesystem_denied_patterns_match() {
    assert!(matches_pattern("/work/proj/.git/config", "**/.git/**"));
    assert!(matches_pattern("/work/id.key", "**/*.key"));
    assert!(!matches_pattern("/work/src/main.rs", "**/*.key"));
    assert!(!matches_pattern("/work/a", "[unclosed"));
}

#[test]
fn filesystem_check_canonical() {
    let p = fs(FilesystemConfig::default());
    assert_eq!(p.check_canonical("a.txt", "/work/a.txt", "/work").unwrap(), "/work/a.txt");
    let e = p.check_canonical("../x", "/workx/x", "/work").unwrap_err();
    assert_eq!(e.message(), "Path traversal attempt detected: ../x");
    let e = p.check_canonical("k", "/work/secret.key", "/work").unwrap_err();
    assert_eq!(e.message(), "Path matches denied pattern: **/*.key");
}

#[test]
fn filesystem_paths_resolve_under_base() {
    let mut c = FilesystemConfig::default();
    assert_eq!(fs(c.clone()).base_path(), "/work");
    c.base_dir = Some("data".to_string());
    let p = fs(c);
    assert_eq!(p.base_path(), "/work/data");
    assert_eq!(p.candidate_path("a/b.txt"), "/work/data/a/b.txt");
    assert_eq!(p.candidate_path("/etc/passwd"), "/etc/passwd");
}

#[test]
fn filesystem_extension_rules() {
    let p = fs(FilesystemConfig::default());
    assert!(p.is_extension_allowed("/work/anything"));
    let mut c = FilesystemConfig::default();
    c.allowed_extensions = vec!["txt".to_string(), "md".to_string()];
    let p = fs(c);
    assert!(p.is_extension_allowed("/work/a.txt"));
    assert!(!p.is_extension_allowed("/work/a.rs"));
    assert!(!p.is_extension_allowed("/work/README"));
    assert!(!p.is_extension_allowed("/work/.md"));
}

#[test]
fn filesystem_operation_switches() {
    let mut c = FilesystemConfig::default();
    c.allow_read = false;
    let p = fs(c);
    let e = p.check_operation(FsOperation::Read).unwrap_err();
    assert_eq!(e.message(), "File reading not allowed");
    assert!(p.check_operation(FsOperation::Write).is_ok());
    assert_eq!(FsError::NotAllowed(FsOperation::Write).message(), "File writing not allowed");
    assert_eq!(FsError::NotAllowed(FsOperation::List).message(), "Directory listing not allowed");
    assert_eq!(
        FsError::NotAllowed(FsOperation::CreateDir).message(),
        "Directory creation not allowed"
    );
}

#[test]
fn filesystem_read_checks_in_order() {
    let mut c = FilesystemConfig::default();
    c.max_file_size = 10;
    c.allowed_extensions = vec!["txt".to_string()];
    let p = fs(c);
    let m = |r: Result<(), FsError>| r.unwrap_err().message();
    assert_eq!(m(p.check_readable("f", "/work/f.txt", false, false, 0)), "File not found: f");
    assert_eq!(m(p.check_readable("f", "/work/f.txt", true, false, 0)), "Not a file: f");
    assert_eq!(
        m(p.check_readable("f", "/work/f.txt", true, true, 11)),
        "File too large: 11 bytes (max: 10)"
    );
    assert_eq!(
        m(p.check_readable("f", "/work/f.rs", true, true, 10)),
        "File extension not allowed: f"
    );
    assert!(p.check_readable("f", "/work/f.txt", true, true, 10).is_ok());
    assert!(p.check_writable("f", "/work/f.txt").is_ok());
    assert_eq!(m(p.check_writable("g", "/work/g.rs")), "File extension not allowed: g");
    assert_eq!(m(p.check_listable("d", false, false)), "Directory not found: d");
    assert_eq!(m(p.check_listable("d", true, false)), "Not a directory: d");
    assert!(p.check_listable("d", true, true).is_ok());
}

fn entry(name: &str, is_dir: bool) -> FileEntry {
    FileEntry {
        name: name.to_string(),
        path: format!("/work/{}", name),
        is_dir,
        is_file: !is_dir,
        size: 0,
        modified: None,
    }
}

#[test]
fn filesystem_listing_puts_directories_first_then_names() {
    let sorted = sort_entries(vec![
        entry("b.txt", false),
        entry("zeta", true),
        entry("a.txt", false),
        entry("alpha", true),
        entry("B.txt", false),
    ]);
    let names: Vec<&str> = sorted.iter().map(|e| e.name.as_str()).collect();
    assert_eq!(names, vec!["alpha", "zeta", "B.txt", "a.txt", "b.txt"]);
    assert!(sort_entries(vec![]).is_empty());
}

fn executor(config: CodeExecutorConfig) -> CodeExecutorPlugin {
    CodeExecutorPlugin::new(config, "/work".to_string())
}

fn request(language: &str, timeout: Option<u64>) -> CodeExecutionRequest {
    CodeExecutionRequest {
        language: language.to_string(),
        code: "print(1)".to_string(),
        files: HashMap::new(),
        args: vec![],
        env: HashMap::new(),
        timeout_secs: timeout,
    }
}

#[test]
fn code_executor_default_config() {
    let c = CodeExecutorConfig::default();
    assert!(c.allow_execute);
    assert_eq!(c.default_timeout_secs, 30);
    assert_eq!(c.max_timeout_secs, 300);
    assert_eq!(c.working_dir.as_deref(), Some(".code_exec"));
    assert_eq!(c.sandbox_type, SandboxType::NoSandbox);
    assert_eq!(c.allowed_languages, vec!["python", "node", "rust", "bash", "go"]);
    assert_eq!(c.resource_limits.max_memory_mb, 512);
    assert_eq!(c.packages.get("python").unwrap(), &vec!["requests", "numpy"]);
    assert_eq!(c.packages.len(), 3);
}

#[test]
fn code_executor_language_check_ignores_ascii_case() {
    let p = executor(CodeExecutorConfig::default());
    assert!(p.is_language_allowed("Python"));
    assert!(p.is_language_allowed("GO"));
    assert!(!p.is_language_allowed("ruby"));
    assert!(!p.is_language_allowed("pytho"));
}

#[test]
fn code_executor_request_checks() {
    let p = executor(CodeExecutorConfig::default());
    assert_eq!(p.check_request(&request("python", None)).unwrap(), 30);
    assert_eq!(p.check_request(&request("python", Some(999))).unwrap(), 300);
    let e = p.check_request(&request("ruby", None)).unwrap_err();
    assert_eq!(e.message(), "Language not allowed: ruby");
    let mut c = CodeExecutorConfig::default();
    c.allow_execute = false;
    let e = executor(c).check_request(&request("python", None)).unwrap_err();
    assert!(matches!(e, CodeExecError::ExecutionNotAllowed));
    assert_eq!(e.message(), "Code execution not allowed");
    assert_eq!(p.exec_dir(), "/work/.code_exec");
    let mut c = CodeExecutorConfig::default();
    c.working_dir = None;
    assert_eq!(executor(c).exec_dir(), "/work/.code_exec");
}

#[test]
fn code_executor_main_files_and_commands() {
    assert_eq!(main_file_for("python"), "main.py");
    assert_eq!(main_file_for("typescript"), "main.js");
    assert_eq!(main_file_for("sh"), "main.sh");
    assert_eq!(main_file_for("Python"), "main.txt");
    let p = executor(CodeExecutorConfig::default());
    let (cmd, args) = p.build_command("Python", "main.txt", &vec![]).unwrap();
    assert_eq!(cmd, "python3");
    assert_eq!(args, vec!["main.txt"]);
    let (cmd, args) = p.build_command("rust", "main.rs", &vec![]).unwrap();
    assert_eq!(cmd, "rustc");
    assert_eq!(args, vec!["main.rs", "-o", "main"]);
    let (cmd, args) = p.build_command("go", "main.go", &vec![]).unwrap();
    assert_eq!(cmd, "go");
    assert_eq!(args, vec!["run", "main.go"]);
    let (cmd, _) = p.build_command("typescript", "main.js", &vec![]).unwrap();
    assert_eq!(cmd, "ts-node");
    let (cmd, _) = p.build_command("PYTHON", "main.py", &vec![]).unwrap();
    assert_eq!(cmd, "python3");
    let e = p.build_command("ruby", "main.txt", &vec![]).unwrap_err();
    assert_eq!(e.message(), "Unsupported language: ruby");
}

#[test]
fn code_executor_main_file_written_unless_provided() {
    let mut r = request("python", None);
    assert!(needs_main_file(&r, "main.py"));
    r.files.insert("main.py".to_string(), "x".to_string());
    assert!(!needs_main_file(&r, "main.py"));
}

#[test]
fn code_executor_results() {
    let ok = result_from_output(true, b"out", b"", Some(0), 12);
    assert!(ok.success);
    assert_eq!(ok.stdout, "out");
    assert!(ok.error.is_none());
    let bad = result_from_output(false, b"", b"trace", Some(1), 3);
    assert_eq!(bad.error.as_deref(), Some("trace"));
    let t = result_from_timeout(30, 30001);
    assert_eq!(t.error.as_deref(), Some("Execution timed out after 30 seconds"));
    assert!(!t.success);
    let f = result_from_failure("spawn failed".to_string(), 1);
    assert_eq!(f.error.as_deref(), Some("spawn failed"));
    let p = executor(CodeExecutorConfig::default());
    assert_eq!(p.name(), "code-executor");
    assert_eq!(p.supported_phases(), vec![Phase::Execute, Phase::Finish]);
    assert!(p.capabilities().code_execution);
}
