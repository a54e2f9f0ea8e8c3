use ai00_run::error::Error;
use ai00_run::run::checker::{CheckResult, EnvCheck, SmartChecker};
use ai00_run::run::config::{ConfigManager, RunConfig};
use ai00_run::run::executor::{build_command_line, wait_step, ExecuteOptions, ScriptExecutor, StreamMessage, WaitStep};
use ai00_run::run::{ConfigFormat, ScriptKind, ScriptResult, ScriptRunner};
use ai00_run::strmap::StringMap;

#[test]
fn test_script_result() {
    let result = ScriptResult::new(0, "output".to_string(), "".to_string(), 100);

    assert!(result.is_success());
    assert_eq!(result.status(), "success");
    assert_eq!(result.exit_code, 0);
    assert_eq!(result.stdout, "output");
    assert_eq!(result.stderr, "");
    assert_eq!(result.duration_ms, 100);
}

#[test]
fn test_script_runner_creation() {
    let runner = ScriptRunner::new();
    assert!(runner.script_exists("src/lib.rs"));
}

#[test]
fn failed_result_and_exit_codes() {
    let failed = ScriptResult::new(3, String::new(), "err".to_string(), 1);
    assert!(!failed.is_success());
    assert_eq!(failed.status(), "failed");
    let killed = ScriptResult::from_output(None, String::new(), String::new(), 7);
    assert_eq!(killed.exit_code, -1);
    assert_eq!(ScriptResult::from_output(Some(0), String::new(), String::new(), 0).exit_code, 0);
}

#[test]
fn script_permissions() {
    let runner = ScriptRunner::new();
    assert!(runner.check_script_permissions("src/lib.rs").is_ok());
    match runner.check_script_permissions("src") {
        Err(Error::Runtime(m)) => assert_eq!(m, "Not a file: src"),
        _ => panic!("expected a runtime error"),
    }
    match runner.check_script_permissions("no_such_script.sh") {
        Err(Error::Runtime(m)) => assert_eq!(m, "Script file not found: no_such_script.sh"),
        _ => panic!("expected a runtime error"),
    }
    match ScriptRunner::permission_verdict("dir", true, false) {
        Err(Error::Runtime(m)) => assert_eq!(m, "Not a file: dir"),
        _ => panic!("expected a runtime error"),
    }
    assert!(ScriptRunner::permission_verdict("f", true, true).is_ok());
}

#[test]
fn config_formats_and_kinds() {
    assert_eq!(ScriptRunner::config_format("a/run.json").unwrap(), ConfigFormat::Json);
    assert_eq!(ScriptRunner::config_format("run.yml").unwrap(), ConfigFormat::Yaml);
    assert_eq!(ScriptRunner::config_format("run.yaml").unwrap(), ConfigFormat::Yaml);
    match ScriptRunner::config_format("run.toml") {
        Err(Error::Config(m)) => assert_eq!(m, "Unsupported config file format: run.toml"),
        _ => panic!("expected a configuration error"),
    }
    assert_eq!(ScriptRunner::script_kind("python").unwrap(), ScriptKind::Python);
    match ScriptRunner::script_kind("ruby") {
        Err(Error::Config(m)) => assert_eq!(m, "Unsupported script type: ruby"),
        _ => panic!("expected a configuration error"),
    }
    assert_eq!(ScriptRunner::node_version_or_default(None), "latest");
    assert_eq!(ScriptRunner::python_version_or_default(Some("3.12")), "3.12");
    assert_eq!(ScriptRunner::python_version_or_default(None), "3.11");
}

#[test]
fn command_lines() {
    let args = vec!["--port".to_string(), "3000".to_string()];
    let line = ScriptRunner::interpreter_command("/bin/node", "app.js", &args);
    assert_eq!(line, "\"/bin/node\" \"app.js\" \"--port\" \"3000\"");
    let (program, parsed) = ScriptExecutor::parse_command(&line);
    assert_eq!(program, "/bin/node");
    assert_eq!(parsed, vec!["app.js", "--port", "3000"]);
    assert_eq!(ScriptRunner::shell_command("run.sh", &vec![]), "\"run.sh\"");
    assert_eq!(build_command_line("echo", &vec!["a b".to_string()]), "\"echo\" \"a b\"");
}

#[test]
fn test_parse_command() {
    let (program, args) = ScriptExecutor::parse_command("echo \"hello world\"");
    assert_eq!(program, "echo");
    assert_eq!(args, vec!["hello world"]);

    let (program2, args2) = ScriptExecutor::parse_command("ls -la /tmp");
    assert_eq!(program2, "ls");
    assert_eq!(args2, vec!["-la", "/tmp"]);
}

#[test]
fn parse_command_edges() {
    let (p, a) = ScriptExecutor::parse_command("");
    assert_eq!(p, "");
    assert!(a.is_empty());
    let (p, a) = ScriptExecutor::parse_command("say 'it \"is\"' x\"y z\"");
    assert_eq!(p, "say");
    assert_eq!(a, vec!["it \"is\"", "x", "y z"]);
}

#[test]
fn found_command_paths() {
    assert_eq!(ScriptExecutor::found_command_path(true, "  /usr/bin/echo\n"), Some("/usr/bin/echo".to_string()));
    assert_eq!(ScriptExecutor::found_command_path(false, "/usr/bin/echo"), None);
}

#[test]
fn test_execute_options() {
    let options = ExecuteOptions::new()
        .with_env_var("TEST", "value")
        .with_working_dir("/tmp")
        .with_timeout(5000)
        .with_async_execution(false);

    assert_eq!(options.env_vars.get("TEST"), Some(&"value".to_string()));
    assert_eq!(options.working_dir, Some("/tmp".to_string()));
    assert_eq!(options.timeout, Some(5000));
    assert!(!options.async_execution);
}

#[test]
fn stream_waiting() {
    assert!(matches!(wait_step(Some(StreamMessage::Stdout("x".to_string()))), WaitStep::Continue));
    match wait_step(Some(StreamMessage::Exit(4))) {
        WaitStep::Done(Ok(r)) => assert_eq!(r.exit_code, 4),
        _ => panic!("expected an exit"),
    }
    match wait_step(Some(StreamMessage::Error("lost".to_string()))) {
        WaitStep::Done(Err(Error::Script(m))) => assert_eq!(m, "Process error: lost"),
        _ => panic!("expected an error"),
    }
    match wait_step(None) {
        WaitStep::Done(Err(Error::Script(m))) => assert_eq!(m, "Process did not exit properly"),
        _ => panic!("expected an error"),
    }
}

#[test]
fn test_check_result_creation() {
    let result = CheckResult::new("Test Check", true, "Everything is fine").with_suggestion("No action needed");

    assert_eq!(result.name, "Test Check");
    assert!(result.passed);
    assert_eq!(result.details, "Everything is fine");
    assert_eq!(result.suggestion, Some("No action needed".to_string()));
}

#[test]
fn test_report_generation() {
    let checker = SmartChecker::new();

    let results = vec![
        CheckResult::new("Check 1", true, "Passed"),
        CheckResult::new("Check 2", false, "Failed"),
    ];

    let report = checker.generate_report(&results);

    assert!(report.contains("Summary: 1/2 checks passed"));
    assert!(report.contains("✓ Check 1: Passed"));
    assert!(report.contains("✗ Check 2: Failed"));
}

#[test]
fn report_text_is_exact() {
    let checker = SmartChecker::new();
    let results = vec![CheckResult::new("A", true, "ok").with_suggestion("none")];
    assert_eq!(
        checker.generate_report(&results),
        "=== Environment Check Report ===\n\nSummary: 1/1 checks passed\n\n✓ A: ok\n    Suggestion: none\n\n✅ All checks passed! Environment is ready.\n"
    );
    let none: Vec<CheckResult> = vec![];
    assert!(checker.generate_report(&none).contains("Summary: 0/0 checks passed"));
    let failed = vec![CheckResult::new("B", false, "bad")];
    assert!(checker.generate_report(&failed).ends_with("\n⚠️  Some checks failed. Please fix the issues above.\n"));
}

#[test]
fn check_outcomes() {
    let checker = SmartChecker::new();
    let r = checker.node_runtime_result(None, false);
    assert_eq!(r.details, "Node.js latest is not installed");
    assert_eq!(r.suggestion, Some("Run: node install latest".to_string()));
    let r = checker.python_runtime_result(Some("3.12"), true);
    assert!(r.passed);
    assert_eq!(r.details, "Python 3.12 is installed and ready");
    let r = checker.venv_result(".venv", false);
    assert_eq!(r.suggestion, Some("Run: python venv create .venv".to_string()));
    let r = checker.system_command_result("sh", true);
    assert_eq!(r.details, "Command 'sh' is available");
    let r = checker.script_file_result("notes.txt", true, true, true);
    assert!(!r.passed);
    assert_eq!(r.details, "File extension 'txt' is not supported");
    let r = checker.script_file_result("run", true, true, true);
    assert_eq!(r.details, "File extension '' is not supported");
    let r = checker.script_file_result("main.py", true, true, true);
    assert!(r.passed);
    assert_eq!(r.details, "Script file 'main.py' is valid");
    let r = checker.script_file_result("gone.py", false, false, false);
    assert_eq!(r.details, "Script file 'gone.py' does not exist");
    let deps = checker.dependency_results(".venv", true, &["requests", "numpy"], &vec!["requests".to_string()]);
    assert_eq!(deps.len(), 2);
    assert!(deps[0].passed);
    assert_eq!(deps[1].suggestion, Some("Run: python install .venv numpy".to_string()));
    let missing = checker.dependency_results(".venv", false, &["requests"], &vec![]);
    assert_eq!(missing.len(), 1);
    assert_eq!(missing[0].name, "Virtual Environment");
    assert_eq!(
        checker.environment_plan("python", true, true),
        vec![EnvCheck::ScriptFile, EnvCheck::PythonRuntime, EnvCheck::VirtualEnvironment, EnvCheck::Dependencies]
    );
    assert_eq!(checker.environment_plan("ruby", false, false), vec![EnvCheck::ScriptFile, EnvCheck::UnsupportedType]);
    assert_eq!(checker.unsupported_type_result("ruby").details, "Unsupported script type: ruby");
}

#[test]
fn test_run_config_creation() {
    let config = RunConfig::new("test_script", "node", "app.js");

    assert_eq!(config.name, "test_script");
    assert_eq!(config.script_type, "node");
    assert_eq!(config.script_path, "app.js");
}

#[test]
fn test_run_config_builder_pattern() {
    let config = RunConfig::new("test_script", "python", "script.py")
        .with_description("A test script")
        .with_runtime_version("3.11")
        .with_venv_path(".venv")
        .add_arg("--verbose")
        .add_args(&["--debug", "--test"])
        .with_env_var("DEBUG", "true")
        .with_env_vars(&[("KEY1", "value1"), ("KEY2", "value2")])
        .with_working_dir("/tmp")
        .with_timeout(5000)
        .with_async_execution(false)
        .add_dependency("requests")
        .add_dependencies(&["numpy", "pandas"]);

    assert_eq!(config.description, Some("A test script".to_string()));
    assert_eq!(config.runtime_version, Some("3.11".to_string()));
    assert_eq!(config.venv_path, Some(".venv".to_string()));
    assert_eq!(config.args, vec!["--verbose", "--debug", "--test"]);
    assert_eq!(config.env_vars.get("DEBUG"), Some(&"true".to_string()));
    assert_eq!(config.working_dir, Some("/tmp".to_string()));
    assert_eq!(config.timeout, Some(5000));
    assert_eq!(config.async_execution, Some(false));
    assert_eq!(
        config.dependencies,
        Some(vec!["requests".to_string(), "numpy".to_string(), "pandas".to_string()])
    );
}

#[test]
fn test_run_config_validation() {
    let valid_config = RunConfig::new("test", "node", "app.js").with_runtime_version("18.0.0");
    assert!(valid_config.validate().is_ok());

    let invalid_config = RunConfig::new("test", "node", "app.js");
    assert!(invalid_config.validate().is_err());

    let invalid_config2 = RunConfig::new("test", "invalid", "app.js");
    assert!(invalid_config2.validate().is_err());
}

#[test]
fn validation_messages() {
    let msg = |c: RunConfig| match c.validate() {
        Err(Error::Config(m)) => m,
        _ => panic!("expected a configuration error"),
    };
    assert_eq!(msg(RunConfig::new("", "node", "a")), "Script name cannot be empty");
    assert_eq!(msg(RunConfig::new("t", "ruby", "a")), "Invalid script type: ruby");
    assert_eq!(msg(RunConfig::new("t", "shell", "")), "Script path cannot be empty");
    assert_eq!(msg(RunConfig::new("t", "python", "a.py")), "Python script requires virtual environment path");
    assert_eq!(
        msg(RunConfig::new("t", "shell", "a.sh").with_stream_buffer_size(100)),
        "Stream buffer size must be between 1024 and 65536 bytes"
    );
    assert_eq!(msg(RunConfig::new("t", "shell", "a.sh").with_restart_policy("sometimes")), "Invalid restart policy: sometimes");
    assert_eq!(
        msg(RunConfig::new("t", "shell", "a.sh").with_monitor_interval(99)),
        "Monitor interval must be between 100 and 60000 milliseconds"
    );
    assert!(RunConfig::default().validate().is_ok());
}

#[test]
fn test_run_config_utility_methods() {
    let config = RunConfig::new("test", "python", "script.py").add_args(&["--arg1", "value1"]);

    assert_eq!(config.get_script_extension(), Some("py".to_string()));
    assert_eq!(config.get_full_command_args(), vec!["script.py", "--arg1", "value1"]);
}

#[test]
fn script_extensions() {
    let ext = |p: &str| RunConfig::new("t", "shell", p).get_script_extension();
    assert_eq!(ext("dir/archive.tar.gz"), Some("gz".to_string()));
    assert_eq!(ext(".bashrc"), None);
    assert_eq!(ext("noext"), None);
    assert_eq!(ext("a/b.sh/"), Some("sh".to_string()));
    assert_eq!(ext("a/.."), None);
}

#[test]
fn templates() {
    let m = ConfigManager::new();
    let node = m.generate_template("node").unwrap();
    assert_eq!(node.name, "node_app");
    assert_eq!(node.args, vec!["--port", "3000"]);
    assert_eq!(node.timeout, Some(30000));
    assert!(node.validate().is_ok());
    let py = m.generate_template("python").unwrap();
    assert_eq!(py.dependencies, Some(vec!["requests".to_string(), "flask".to_string()]));
    assert!(py.validate().is_ok());
    assert!(m.generate_template("shell").unwrap().validate().is_ok());
    match m.generate_template("go") {
        Err(Error::Config(msg)) => assert_eq!(msg, "Unknown config type: go"),
        _ => panic!("expected a configuration error"),
    }
}

#[test]
fn merging() {
    let m = ConfigManager::new();
    let base = RunConfig::new("base", "node", "app.js").with_runtime_version("18.0.0").add_arg("--a");
    let over = RunConfig::default().with_timeout(10).with_description("d");
    let merged = m.merge_configs(base, over);
    assert_eq!(merged.name, "base");
    assert_eq!(merged.script_type, "node");
    assert_eq!(merged.script_path, "app.js");
    assert_eq!(merged.args, vec!["--a"]);
    assert_eq!(merged.timeout, Some(10));
    assert_eq!(merged.description, Some("d".to_string()));
    let again = m.merge_configs(merged.copy(), RunConfig::default().with_timeout(10).with_description("d"));
    assert_eq!(again.timeout, merged.timeout);
    assert_eq!(again.name, merged.name);
    let renamed = m.merge_configs(RunConfig::default(), RunConfig::new("x", "python", "./script.sh"));
    assert_eq!(renamed.name, "x");
    assert_eq!(renamed.script_type, "python");
    assert_eq!(renamed.script_path, "./script.sh");
    let same = m.merge_configs(RunConfig::new("b", "shell", "b.sh"), RunConfig::new("x", "shell", "script.sh/"));
    assert_eq!(same.script_path, "b.sh");
}

#[test]
fn summary() {
    let m = ConfigManager::new();
    let c = RunConfig::new("demo", "node", "app.js").with_runtime_version("18").add_args(&["a", "b"]).with_timeout(5);
    assert_eq!(
        m.get_config_summary(&c),
        "Name: demo\nType: node\nScript: app.js\nRuntime: 18\nArgs: a b\nTimeout: 5ms\nAsync: true\nStreaming: false\nStream Buffer: 8192 bytes\nRestart Policy: never\nMax Restarts: 3\nRestart Delay: 5000ms\nMonitor Interval: 1000ms\nDaemon Mode: false\n"
    );
}

#[test]
fn test_config_manager_env_vars() {
    let manager = ConfigManager::new();
    let mut env = StringMap::new();
    env.insert("AI00_RUN_NAME".to_string(), "env_test".to_string());
    env.insert("AI00_RUN_SCRIPT_TYPE".to_string(), "python".to_string());
    env.insert("AI00_RUN_SCRIPT_PATH".to_string(), "env_script.py".to_string());
    env.insert("AI00_RUN_VENV_PATH".to_string(), ".venv".to_string());
    env.insert("AI00_RUN_TIMEOUT".to_string(), "3000".to_string());
    env.insert("AI00_RUN_ASYNC_EXECUTION".to_string(), "false".to_string());

    let config = manager.from_env_vars("AI00_RUN", &env);

    assert_eq!(config.name, "env_test");
    assert_eq!(config.script_type, "python");
    assert_eq!(config.script_path, "env_script.py");
    assert_eq!(config.venv_path, Some(".venv".to_string()));
    assert_eq!(config.timeout, Some(3000));
    assert_eq!(config.async_execution, Some(false));
}

#[test]
fn env_config_edges() {
    let manager = ConfigManager::new();
    let mut env = StringMap::new();
    env.insert("AI00_RUN_TIMEOUT".to_string(), "soon".to_string());
    env.insert("AI00_RUN_MAX_RESTARTS".to_string(), "+7".to_string());
    env.insert("AI00_RUN_DAEMON_MODE".to_string(), "TRUE".to_string());
    let config = manager.from_env_vars("", &env);
    assert_eq!(config.timeout, None);
    assert_eq!(config.max_restarts, Some(7));
    assert_eq!(config.daemon_mode, Some(false));
    let empty = manager.from_env_vars("X", &StringMap::new());
    assert_eq!(empty.name, "unnamed_script");
    assert_eq!(empty.stream_buffer_size, Some(8192));
}

#[test]
fn config_file_verdicts() {
    let m = ConfigManager::new();
    let (ok, msgs) = m.config_file_precheck("c.json", "json", false).unwrap();
    assert!(!ok);
    assert_eq!(msgs, vec!["Config file does not exist: c.json"]);
    let (_, msgs) = m.config_file_precheck("c.toml", "toml", true).unwrap();
    assert_eq!(msgs, vec!["Unsupported config type: toml"]);
    assert!(m.config_file_precheck("c.yaml", "yaml", true).is_none());
    let (ok, msgs) = m.config_file_verdict(Ok(RunConfig::new("t", "node", "a.js")));
    assert!(!ok);
    assert_eq!(msgs, vec!["Config validation failed: Configuration error: Node.js script requires runtime version"]);
    let (ok, msgs) = m.config_file_verdict(Err(Error::Config("Failed to parse config JSON: eof".to_string())));
    assert!(!ok);
    assert_eq!(msgs, vec!["Failed to load config: Configuration error: Failed to parse config JSON: eof"]);
    let (ok, msgs) = m.config_file_verdict(Ok(RunConfig::default()));
    assert!(ok);
    assert!(msgs.is_empty());
}

#[test]
fn run_plans() {
    let node = RunConfig::new("n", "node", "app.js").add_arg("--x");
    let plan = ScriptRunner::plan_run(&node).unwrap();
    assert_eq!(plan.kind, ScriptKind::Node);
    assert_eq!(plan.script_path, "app.js");
    assert_eq!(plan.args, vec!["--x"]);
    assert_eq!(plan.runtime_version, "latest");
    assert_eq!(plan.venv_path, None);
    let py = RunConfig::new("p", "python", "main.py").with_venv_path(".venv");
    let plan = ScriptRunner::plan_run(&py).unwrap();
    assert_eq!(plan.runtime_version, "3.11");
    assert_eq!(plan.venv_path, Some(".venv".to_string()));
    let sh = RunConfig::new("s", "shell", "run.sh").with_venv_path(".venv").with_runtime_version("9");
    let plan = ScriptRunner::plan_run(&sh).unwrap();
    assert_eq!(plan.venv_path, None);
    assert_eq!(plan.runtime_version, "9");
    match ScriptRunner::plan_run(&RunConfig::new("r", "ruby", "a.rb")) {
        Err(Error::Config(m)) => assert_eq!(m, "Unsupported script type: ruby"),
        _ => panic!("expected a configuration error"),
    }
}

#[test]
fn long_running_settings() {
    let c = RunConfig::new("svc", "shell", "svc.sh")
        .with_streaming_execution(true)
        .with_stream_buffer_size(4096)
        .with_restart_policy("on-failure")
        .with_max_restarts(9)
        .with_restart_delay(250)
        .with_monitor_interval(500)
        .with_daemon_mode(true);
    assert_eq!(c.streaming_execution, Some(true));
    assert_eq!(c.stream_buffer_size, Some(4096));
    assert_eq!(c.restart_policy, Some("on-failure".to_string()));
    assert_eq!(c.max_restarts, Some(9));
    assert_eq!(c.restart_delay, Some(250));
    assert_eq!(c.monitor_interval, Some(500));
    assert_eq!(c.daemon_mode, Some(true));
    assert!(c.validate().is_ok());
    assert!(CheckResult::new("x", true, "y").is_passed());
    assert!(!CheckResult::new("x", false, "y").is_passed());
}
