//! Running scripts.

use vstd::prelude::*;

use crate::error::Error;
use crate::host;
use crate::run::executor::{
    build_command_line, command_line, command_line_round_trip, command_tokens, plain_word,
};
use crate::run::config::RunConfig;
use crate::text::{
    chars_of, concat2, copy_opt, copy_strings, ends_with, opt_view, owned, seq_eq, seq_view,
    vec_ends_with,
};

pub mod checker;
pub mod config;
pub mod executor;

verus! {

/// The outcome of a script run.
#[derive(Debug)]
pub struct ScriptResult {
    /// The exit code.
    pub exit_code: i32,
    /// The standard output.
    pub stdout: String,
    /// The standard error.
    pub stderr: String,
    /// How long the run took, in milliseconds.
    pub duration_ms: u64,
}

impl ScriptResult {
    /// A result with the given parts.
    pub fn new(exit_code: i32, stdout: String, stderr: String, duration_ms: u64) -> (r: Self)
        ensures
            r.exit_code == exit_code,
            r.stdout == stdout,
            r.stderr == stderr,
            r.duration_ms == duration_ms,
    {
        ScriptResult { exit_code, stdout, stderr, duration_ms }
    }

    /// The result of a finished process: its exit code, or -1 where it was
    /// stopped by a signal and has none.
    pub fn from_output(code: Option<i32>, stdout: String, stderr: String, duration_ms: u64) -> (r: Self)
        ensures
            r.exit_code == (match code {
                Some(c) => c as int,
                None => -1,
            }),
            r.stdout == stdout,
            r.stderr == stderr,
            r.duration_ms == duration_ms,
    {
        let exit_code = match code {
            Some(c) => c,
            None => -1,
        };
        ScriptResult { exit_code, stdout, stderr, duration_ms }
    }

    /// Whether the run succeeded: it exited with code 0.
    pub fn is_success(&self) -> (b: bool)
        ensures
            b == (self.exit_code == 0),
    {
        self.exit_code == 0
    }

    /// `success` or `failed`.
    pub fn status(&self) -> (s: &'static str)
        ensures
            s@ == (if self.exit_code == 0 {
                "success"@
            } else {
                "failed"@
            }),
    {
        if self.is_success() {
            "success"
        } else {
            "failed"
        }
    }
}

/// The format of a configuration file, by its name.
#[derive(Clone, Copy, Debug, PartialEq, Eq, Structural)]
pub enum ConfigFormat {
    /// A `.json` file.
    Json,
    /// A `.yaml` or `.yml` file.
    Yaml,
}

/// The kind of a script, by its configured type.
#[derive(Clone, Copy, Debug, PartialEq, Eq, Structural)]
pub enum ScriptKind {
    /// A Node.js script.
    Node,
    /// A Python script.
    Python,
    /// A shell script.
    Shell,
}

/// The format a configuration file is read in: JSON for a name ending in
/// `.json`, YAML for `.yaml` or `.yml`.
pub open spec fn format_of(path: Seq<char>) -> Option<ConfigFormat> {
    if ends_with(path, ".json"@) {
        Some(ConfigFormat::Json)
    } else if ends_with(path, ".yaml"@) || ends_with(path, ".yml"@) {
        Some(ConfigFormat::Yaml)
    } else {
        None
    }
}

/// The kind of a configured script type.
pub open spec fn kind_of(script_type: Seq<char>) -> Option<ScriptKind> {
    if script_type == "node"@ {
        Some(ScriptKind::Node)
    } else if script_type == "python"@ {
        Some(ScriptKind::Python)
    } else if script_type == "shell"@ {
        Some(ScriptKind::Shell)
    } else {
        None
    }
}

/// The Node.js version a script runs on when none is given.
pub open spec fn default_node_version() -> Seq<char> {
    "latest"@
}

/// The Python version a script runs on when none is given.
pub open spec fn default_python_version() -> Seq<char> {
    "3.11"@
}

/// What the check of a script file answers, given whether something is at
/// its path and whether that is a regular file.
pub open spec fn permission_problem(path: Seq<char>, exists: bool, is_file: bool) -> Option<Seq<char>> {
    if !exists {
        Some("Script file not found: "@ + path)
    } else if !is_file {
        Some("Not a file: "@ + path)
    } else {
        None
    }
}

/// How a configured script is to be run: its kind, file and arguments, the
/// runtime version (the default where none is configured) and, for Python,
/// the virtual environment.
#[derive(Debug)]
pub struct ScriptPlan {
    /// The kind of script.
    pub kind: ScriptKind,
    /// The script file.
    pub script_path: String,
    /// The arguments.
    pub args: Vec<String>,
    /// The runtime version to use.
    pub runtime_version: String,
    /// The virtual environment, for a Python script that names one.
    pub venv_path: Option<String>,
}

/// Runs scripts with the Node.js and Python runtimes or the shell.
#[derive(Debug)]
pub struct ScriptRunner;

impl Default for ScriptRunner {
    fn default() -> (r: Self) {
        ScriptRunner
    }
}

impl ScriptRunner {
    /// A script runner.
    pub fn new() -> (r: Self) {
        ScriptRunner
    }

    /// Whether something is at `script_path` on disk.
    pub fn script_exists(&self, script_path: &str) -> (b: bool) {
        host::path_exists(script_path)
    }

    /// Checks that `script_path` names a regular file; fails with a runtime
    /// error where nothing is there or it is not a file.
    pub fn check_script_permissions(&self, script_path: &str) -> (r: Result<(), Error>)
        ensures
            r matches Err(e) ==> e matches Error::Runtime(m) && (m@ == "Script file not found: "@
                + script_path@ || m@ == "Not a file: "@ + script_path@),
    {
        let exists = host::path_exists(script_path);
        let is_file = if exists {
            host::path_is_file(script_path)
        } else {
            false
        };
        Self::permission_verdict(script_path, exists, is_file)
    }

    /// The answer of the script-file check, given whether something is at
    /// the path and whether it is a regular file.
    pub fn permission_verdict(script_path: &str, exists: bool, is_file: bool) -> (r: Result<(), Error>)
        ensures
            r is Ok <==> permission_problem(script_path@, exists, is_file) is None,
            r matches Err(e) ==> e matches Error::Runtime(m) && permission_problem(
                script_path@,
                exists,
                is_file,
            ) == Some(m@),
    {
        if !exists {
            Err(Error::Runtime(concat2("Script file not found: ", script_path)))
        } else if !is_file {
            Err(Error::Runtime(concat2("Not a file: ", script_path)))
        } else {
            Ok(())
        }
    }

    /// The format of the configuration file `config_path`, by its ending;
    /// any other name is a configuration error.
    pub fn config_format(config_path: &str) -> (r: Result<ConfigFormat, Error>)
        ensures
            r matches Ok(f) ==> format_of(config_path@) == Some(f),
            r is Err <==> format_of(config_path@) is None,
            r matches Err(e) ==> e matches Error::Config(m) && m@
                == "Unsupported config file format: "@ + config_path@,
    {
        let p = chars_of(config_path);
        if vec_ends_with(&p, &chars_of(".json")) {
            Ok(ConfigFormat::Json)
        } else if vec_ends_with(&p, &chars_of(".yaml")) || vec_ends_with(&p, &chars_of(".yml")) {
            Ok(ConfigFormat::Yaml)
        } else {
            Err(Error::Config(concat2("Unsupported config file format: ", config_path)))
        }
    }

    /// The kind of the script type `script_type`; any type but `node`,
    /// `python` and `shell` is a configuration error.
    pub fn script_kind(script_type: &str) -> (r: Result<ScriptKind, Error>)
        ensures
            r matches Ok(k) ==> kind_of(script_type@) == Some(k),
            r is Err <==> kind_of(script_type@) is None,
            r matches Err(e) ==> e matches Error::Config(m) && m@ == "Unsupported script type: "@
                + script_type@,
    {
        let t = chars_of(script_type);
        if seq_eq(&t, &chars_of("node")) {
            Ok(ScriptKind::Node)
        } else if seq_eq(&t, &chars_of("python")) {
            Ok(ScriptKind::Python)
        } else if seq_eq(&t, &chars_of("shell")) {
            Ok(ScriptKind::Shell)
        } else {
            Err(Error::Config(concat2("Unsupported script type: ", script_type)))
        }
    }

    /// How the configured script is run; a type other than `node`, `python`
    /// and `shell` is a configuration error.
    pub fn plan_run(config: &RunConfig) -> (r: Result<ScriptPlan, Error>)
        ensures
            kind_of(config@.script_type) is None ==> (r matches Err(Error::Config(m)) && m@
                == "Unsupported script type: "@ + config@.script_type),
            kind_of(config@.script_type) matches Some(k) ==> (r matches Ok(p) && p.kind == k
                && p.script_path@ == config@.script_path && seq_view(p.args@) == config@.args
                && p.runtime_version@ == (match config@.runtime_version {
                Some(v) => v,
                None => if k == ScriptKind::Node {
                    default_node_version()
                } else {
                    default_python_version()
                },
            }) && opt_view(p.venv_path) == (if k == ScriptKind::Python {
                config@.venv_path
            } else {
                None
            })),
    {
        let kind = match Self::script_kind(config.script_type.as_str()) {
            Ok(k) => k,
            Err(e) => return Err(e),
        };
        let version = match &config.runtime_version {
            Some(v) => v.clone(),
            None => match kind {
                ScriptKind::Node => owned("latest"),
                _ => owned("3.11"),
            },
        };
        let venv = match kind {
            ScriptKind::Python => copy_opt(&config.venv_path),
            _ => None,
        };
        Ok(
            ScriptPlan {
                kind,
                script_path: config.script_path.clone(),
                args: copy_strings(&config.args),
                runtime_version: version,
                venv_path: venv,
            },
        )
    }

    /// The Node.js version to run on: the one given, else `latest`.
    pub fn node_version_or_default(node_version: Option<&str>) -> (v: String)
        ensures
            v@ == (match node_version {
                Some(x) => x@,
                None => default_node_version(),
            }),
    {
        match node_version {
            Some(x) => owned(x),
            None => owned("latest"),
        }
    }

    /// The Python version to run on: the one given, else `3.11`.
    pub fn python_version_or_default(python_version: Option<&str>) -> (v: String)
        ensures
            v@ == (match python_version {
                Some(x) => x@,
                None => default_python_version(),
            }),
    {
        match python_version {
            Some(x) => owned(x),
            None => owned("3.11"),
        }
    }

    /// The command line that runs `script_path` with the interpreter at
    /// `interpreter` and the arguments `args`: every word quoted.
    pub fn interpreter_command(interpreter: &str, script_path: &str, args: &Vec<String>) -> (r: String)
        ensures
            r@ == command_line(interpreter@, seq![script_path@] + seq_view(args@)),
    {
        let mut words: Vec<String> = Vec::new();
        words.push(owned(script_path));
        let mut i: usize = 0;
        while i < args.len()
            invariant
                i <= args.len(),
                seq_view(words@) == seq![script_path@] + seq_view(args@).subrange(0, i as int),
            decreases args.len() - i,
        {
            let ghost prev = seq_view(words@);
            words.push(args[i].clone());
            assert(seq_view(words@) =~= prev.push(args@[i as int]@));
            assert(seq_view(args@).subrange(0, i + 1) =~= seq_view(args@).subrange(0, i as int).push(
                args@[i as int]@,
            ));
            i = i + 1;
        }
        assert(seq_view(args@).subrange(0, args.len() as int) =~= seq_view(args@));
        build_command_line(interpreter, &words)
    }

    /// The command line that runs the shell script `script_path` directly
    /// with the arguments `args`: every word quoted.
    pub fn shell_command(script_path: &str, args: &Vec<String>) -> (r: String)
        ensures
            r@ == command_line(script_path@, seq_view(args@)),
    {
        build_command_line(script_path, args)
    }
}

/// The command line that runs a script with an interpreter reads back as
/// the interpreter, the script and the arguments, where none of these is
/// empty or holds a double quote.
pub proof fn interpreter_command_round_trip(interpreter: Seq<char>, script: Seq<char>, args: Seq<Seq<char>>)
    requires
        plain_word(interpreter),
        plain_word(script),
        forall|i: int| 0 <= i < args.len() ==> plain_word(#[trigger] args[i]),
    ensures
        command_tokens(command_line(interpreter, seq![script] + args)) == seq![interpreter, script]
            + args,
{
    let words = seq![script] + args;
    assert forall|i: int| 0 <= i < words.len() implies plain_word(#[trigger] words[i]) by {
        if i > 0 {
            assert(words[i] == args[i - 1]);
        }
    }
    command_line_round_trip(interpreter, words);
    assert(seq![interpreter] + words =~= seq![interpreter, script] + args);
}

} // verus!
