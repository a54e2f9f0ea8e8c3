//! Script run configurations: building, checking, merging and describing them.

use vstd::prelude::*;

use crate::error::{error_text, Error};
use crate::lexical::{split, split_exec};
use crate::number::{
    bool_str, bool_text, decimal, parse_bool, parse_bool_spec, parse_decimal, parse_u32,
    parse_u64, parse_usize, u64_text,
};
use crate::strmap::StringMap;
use crate::text::{
    chars_of, concat2, concat3, copy_opt, copy_strings, opt_view, owned, seq_eq, seq_view,
    string_from_chars, vec_concat,
};

verus! {

/// What a run configuration holds, as mathematical values.
pub struct RunConfigView {
    /// Script name.
    pub name: Seq<char>,
    /// Description.
    pub description: Option<Seq<char>>,
    /// Script type.
    pub script_type: Seq<char>,
    /// Script path.
    pub script_path: Seq<char>,
    /// Runtime version.
    pub runtime_version: Option<Seq<char>>,
    /// Virtual environment path.
    pub venv_path: Option<Seq<char>>,
    /// Command-line arguments.
    pub args: Seq<Seq<char>>,
    /// Environment variables.
    pub env_vars: Map<Seq<char>, Seq<char>>,
    /// Working directory.
    pub working_dir: Option<Seq<char>>,
    /// Time limit in milliseconds.
    pub timeout: Option<u64>,
    /// Asynchronous running.
    pub async_execution: Option<bool>,
    /// Dependencies.
    pub dependencies: Option<Seq<Seq<char>>>,
    /// Streamed running.
    pub streaming_execution: Option<bool>,
    /// Stream buffer size in bytes.
    pub stream_buffer_size: Option<usize>,
    /// Restart policy.
    pub restart_policy: Option<Seq<char>>,
    /// Most restarts.
    pub max_restarts: Option<u32>,
    /// Delay between restarts in milliseconds.
    pub restart_delay: Option<u64>,
    /// Interval of process checks in milliseconds.
    pub monitor_interval: Option<u64>,
    /// Daemon mode.
    pub daemon_mode: Option<bool>,
}

/// How to run a script.
#[derive(Debug)]
pub struct RunConfig {
    /// Script name.
    pub name: String,
    /// Description.
    pub description: Option<String>,
    /// Script type: `node`, `python` or `shell`.
    pub script_type: String,
    /// Script path.
    pub script_path: String,
    /// Runtime version (Node.js or Python).
    pub runtime_version: Option<String>,
    /// Virtual environment path (Python only).
    pub venv_path: Option<String>,
    /// Command-line arguments.
    pub args: Vec<String>,
    /// Environment variables.
    pub env_vars: StringMap,
    /// Working directory.
    pub working_dir: Option<String>,
    /// Time limit in milliseconds; `None` for none.
    pub timeout: Option<u64>,
    /// Asynchronous running.
    pub async_execution: Option<bool>,
    /// Dependencies.
    pub dependencies: Option<Vec<String>>,
    /// Streamed running (output as it comes).
    pub streaming_execution: Option<bool>,
    /// Stream buffer size in bytes.
    pub stream_buffer_size: Option<usize>,
    /// Restart policy of long-running processes.
    pub restart_policy: Option<String>,
    /// Most restarts.
    pub max_restarts: Option<u32>,
    /// Delay between restarts in milliseconds.
    pub restart_delay: Option<u64>,
    /// Interval of process checks in milliseconds.
    pub monitor_interval: Option<u64>,
    /// Daemon mode.
    pub daemon_mode: Option<bool>,
}

/// The strings of an optional list.
pub open spec fn opt_seq_view(o: Option<Vec<String>>) -> Option<Seq<Seq<char>>> {
    match o {
        Some(v) => Some(seq_view(v@)),
        None => None,
    }
}

impl View for RunConfig {
    type V = RunConfigView;

    open spec fn view(&self) -> RunConfigView {
        RunConfigView {
            name: self.name@,
            description: opt_view(self.description),
            script_type: self.script_type@,
            script_path: self.script_path@,
            runtime_version: opt_view(self.runtime_version),
            venv_path: opt_view(self.venv_path),
            args: seq_view(self.args@),
            env_vars: self.env_vars@,
            working_dir: opt_view(self.working_dir),
            timeout: self.timeout,
            async_execution: self.async_execution,
            dependencies: opt_seq_view(self.dependencies),
            streaming_execution: self.streaming_execution,
            stream_buffer_size: self.stream_buffer_size,
            restart_policy: opt_view(self.restart_policy),
            max_restarts: self.max_restarts,
            restart_delay: self.restart_delay,
            monitor_interval: self.monitor_interval,
            daemon_mode: self.daemon_mode,
        }
    }
}

/// The default configuration.
pub open spec fn default_view() -> RunConfigView {
    RunConfigView {
        name: "unnamed_script"@,
        description: None,
        script_type: "shell"@,
        script_path: "script.sh"@,
        runtime_version: None,
        venv_path: None,
        args: Seq::empty(),
        env_vars: Map::empty(),
        working_dir: None,
        timeout: None,
        async_execution: Some(true),
        dependencies: None,
        streaming_execution: Some(false),
        stream_buffer_size: Some(8192),
        restart_policy: Some("never"@),
        max_restarts: Some(3),
        restart_delay: Some(5000),
        monitor_interval: Some(1000),
        daemon_mode: Some(false),
    }
}

impl Default for RunConfig {
    fn default() -> (c: Self)
        ensures
            c@ == default_view(),
    {
        let c = RunConfig {
            name: owned("unnamed_script"),
            description: None,
            script_type: owned("shell"),
            script_path: owned("script.sh"),
            runtime_version: None,
            venv_path: None,
            args: Vec::new(),
            env_vars: StringMap::new(),
            working_dir: None,
            timeout: None,
            async_execution: Some(true),
            dependencies: None,
            streaming_execution: Some(false),
            stream_buffer_size: Some(8192),
            restart_policy: Some(owned("never")),
            max_restarts: Some(3),
            restart_delay: Some(5000),
            monitor_interval: Some(1000),
            daemon_mode: Some(false),
        };
        assert(c@.args =~= Seq::<Seq<char>>::empty());
        c
    }
}

/// The error message of the first rule a configuration breaks, if any.
pub open spec fn config_problem(c: RunConfigView) -> Option<Seq<char>> {
    if c.name.len() == 0 {
        Some("Script name cannot be empty"@)
    } else if !(c.script_type == "node"@ || c.script_type == "python"@ || c.script_type
        == "shell"@) {
        Some("Invalid script type: "@ + c.script_type)
    } else if c.script_path.len() == 0 {
        Some("Script path cannot be empty"@)
    } else if c.script_type == "node"@ && c.runtime_version is None {
        Some("Node.js script requires runtime version"@)
    } else if c.script_type == "python"@ && c.venv_path is None {
        Some("Python script requires virtual environment path"@)
    } else if c.stream_buffer_size matches Some(b) && !(1024 <= b && b <= 65536) {
        Some("Stream buffer size must be between 1024 and 65536 bytes"@)
    } else if c.restart_policy matches Some(p) && !(p == "never"@ || p == "on-failure"@ || p
        == "always"@) {
        Some("Invalid restart policy: "@ + c.restart_policy.unwrap())
    } else if c.monitor_interval matches Some(i) && !(100 <= i && i <= 60000) {
        Some("Monitor interval must be between 100 and 60000 milliseconds"@)
    } else {
        None
    }
}

// ---------------------------------------------------------------------------
// File names
// ---------------------------------------------------------------------------

/// The last named part of a path (`Path::file_name`): empty and `.` parts are
/// skipped, and a path that ends in `..` has none.
pub open spec fn file_name_of(p: Seq<char>) -> Option<Seq<char>> {
    let named = split(p, '/').filter(|x: Seq<char>| x.len() > 0 && x != seq!['.']);
    if named.len() == 0 || named.last() == seq!['.', '.'] {
        None
    } else {
        Some(named.last())
    }
}

/// The extension of a file name (`Path::extension`): the text after its last
/// `.`, unless the name has no `.` or its only `.` comes first.
pub open spec fn name_extension(n: Seq<char>) -> Option<Seq<char>> {
    let parts = split(n, '.');
    if parts.len() < 2 || (parts.len() == 2 && parts[0].len() == 0) {
        None
    } else {
        Some(parts.last())
    }
}

/// The extension of the file a path names.
pub open spec fn path_extension(p: Seq<char>) -> Option<Seq<char>> {
    match file_name_of(p) {
        Some(n) => name_extension(n),
        None => None,
    }
}

fn file_name_exec(p: &Vec<char>) -> (r: Option<Vec<char>>)
    ensures
        match r {
            Some(n) => file_name_of(p@) == Some(n@),
            None => file_name_of(p@) is None,
        },
{
    let parts = split_exec(p, '/');
    let ghost all = split(p@, '/');
    let ghost pred = |x: Seq<char>| x.len() > 0 && x != seq!['.'];
    let mut last: Option<Vec<char>> = None;
    let mut i: usize = 0;
    while i < parts.len()
        invariant
            i <= parts.len(),
            parts@.map_values(|v: Vec<char>| v@) == all,
            pred == (|x: Seq<char>| x.len() > 0 && x != seq!['.']),
            match last {
                Some(n) => all.subrange(0, i as int).filter(pred).len() > 0 && all.subrange(
                    0,
                    i as int,
                ).filter(pred).last() == n@,
                None => all.subrange(0, i as int).filter(pred).len() == 0,
            },
        decreases parts.len() - i,
    {
        proof {
            reveal(Seq::filter);
        }
        let piece = &parts[i];
        assert(piece@ == all[i as int]);
        assert(all.subrange(0, i + 1).drop_last() =~= all.subrange(0, i as int));
        assert(all.subrange(0, i + 1).last() == all[i as int]);
        let is_dot = piece.len() == 1 && piece[0] == '.';
        assert(is_dot == (piece@ == seq!['.'])) by {
            if piece@ == seq!['.'] {
                assert(piece@[0] == '.');
            }
            if is_dot {
                assert(piece@ =~= seq!['.']);
            }
        }
        if piece.len() > 0 && !is_dot {
            last = Some(piece.clone());
        }
        i = i + 1;
    }
    assert(all.subrange(0, parts.len() as int) =~= all);
    match last {
        Some(n) => {
            if n.len() == 2 && n[0] == '.' && n[1] == '.' {
                assert(n@ =~= seq!['.', '.']);
                None
            } else {
                assert(n@ != seq!['.', '.']) by {
                    if n@ == seq!['.', '.'] {
                        assert(n@[0] == '.' && n@[1] == '.');
                    }
                }
                Some(n)
            }
        },
        None => None,
    }
}

/// The extension of the file that `path` names, if it has one
/// (`Path::extension`).
pub fn extension_of(path: &str) -> (r: Option<String>)
    ensures
        opt_view(r) == path_extension(path@),
{
    let p = chars_of(path);
    match file_name_exec(&p) {
        Some(n) => {
            let parts = split_exec(&n, '.');
            let ghost ps = split(n@, '.');
            assert(parts@.map_values(|x: Vec<char>| x@) == ps);
            if parts.len() < 2 || (parts.len() == 2 && parts[0].len() == 0) {
                proof {
                    if parts.len() == 2 {
                        assert(ps[0] == parts@[0]@);
                    }
                }
                None
            } else {
                proof {
                    if parts.len() == 2 {
                        assert(ps[0] == parts@[0]@);
                    }
                }
                assert(parts@[parts.len() - 1]@ == ps.last());
                Some(string_from_chars(&parts[parts.len() - 1]))
            }
        },
        None => None,
    }
}

// ---------------------------------------------------------------------------
// Merging
// ---------------------------------------------------------------------------

/// Whether a path is the same path as `script.sh` (`PathBuf` equality, which
/// compares components): its first `/`-separated part is `script.sh` and the
/// rest are empty or `.`.
pub open spec fn is_default_script_path(p: Seq<char>) -> bool {
    let parts = split(p, '/');
    parts[0] == "script.sh"@ && forall|i: int|
        1 <= i < parts.len() ==> (#[trigger] parts[i]).len() == 0 || parts[i] == seq!['.']
}

/// The configuration that results from laying `o` over `b`: each field of
/// `o` that is set (and, for name, type and path, differs from the default)
/// replaces the field of `b`.
pub open spec fn merged(b: RunConfigView, o: RunConfigView) -> RunConfigView {
    RunConfigView {
        name: if o.name.len() > 0 && o.name != "unnamed_script"@ {
            o.name
        } else {
            b.name
        },
        description: if o.description is Some {
            o.description
        } else {
            b.description
        },
        script_type: if o.script_type != "shell"@ {
            o.script_type
        } else {
            b.script_type
        },
        script_path: if !is_default_script_path(o.script_path) {
            o.script_path
        } else {
            b.script_path
        },
        runtime_version: if o.runtime_version is Some {
            o.runtime_version
        } else {
            b.runtime_version
        },
        venv_path: if o.venv_path is Some {
            o.venv_path
        } else {
            b.venv_path
        },
        args: if o.args.len() > 0 {
            o.args
        } else {
            b.args
        },
        env_vars: if o.env_vars.dom() != Set::<Seq<char>>::empty() {
            o.env_vars
        } else {
            b.env_vars
        },
        working_dir: if o.working_dir is Some {
            o.working_dir
        } else {
            b.working_dir
        },
        timeout: if o.timeout is Some {
            o.timeout
        } else {
            b.timeout
        },
        async_execution: if o.async_execution is Some {
            o.async_execution
        } else {
            b.async_execution
        },
        dependencies: if o.dependencies is Some {
            o.dependencies
        } else {
            b.dependencies
        },
        streaming_execution: if o.streaming_execution is Some {
            o.streaming_execution
        } else {
            b.streaming_execution
        },
        stream_buffer_size: if o.stream_buffer_size is Some {
            o.stream_buffer_size
        } else {
            b.stream_buffer_size
        },
        restart_policy: if o.restart_policy is Some {
            o.restart_policy
        } else {
            b.restart_policy
        },
        max_restarts: if o.max_restarts is Some {
            o.max_restarts
        } else {
            b.max_restarts
        },
        restart_delay: if o.restart_delay is Some {
            o.restart_delay
        } else {
            b.restart_delay
        },
        monitor_interval: if o.monitor_interval is Some {
            o.monitor_interval
        } else {
            b.monitor_interval
        },
        daemon_mode: if o.daemon_mode is Some {
            o.daemon_mode
        } else {
            b.daemon_mode
        },
    }
}

fn is_default_script_path_exec(p: &String) -> (b: bool)
    ensures
        b == is_default_script_path(p@),
{
    let v = chars_of(p.as_str());
    let parts = split_exec(&v, '/');
    let ghost all = split(p@, '/');
    let first = chars_of("script.sh");
    if !seq_eq(&parts[0], &first) {
        return false;
    }
    let mut i: usize = 1;
    while i < parts.len()
        invariant
            1 <= i <= parts.len(),
            parts@.map_values(|x: Vec<char>| x@) == all,
            all == split(p@, '/'),
            forall|j: int| 1 <= j < i ==> (#[trigger] all[j]).len() == 0 || all[j] == seq!['.'],
        decreases parts.len() - i,
    {
        let piece = &parts[i];
        assert(piece@ == all[i as int]);
        let ok = piece.len() == 0 || (piece.len() == 1 && piece[0] == '.');
        if !ok {
            assert(all[i as int] != seq!['.']) by {
                if all[i as int] == seq!['.'] {
                    assert(piece@[0] == '.');
                }
            }
            assert(!((all[i as int]).len() == 0 || all[i as int] == seq!['.']));
            return false;
        }
        proof {
            if piece.len() == 1 {
                assert(piece@ =~= seq!['.']);
            }
        }
        i = i + 1;
    }
    true
}

// ---------------------------------------------------------------------------
// Summary text
// ---------------------------------------------------------------------------

/// The words of `w` joined by `sep`.
pub open spec fn join_words(w: Seq<Seq<char>>, sep: Seq<char>) -> Seq<char>
    decreases w.len(),
{
    if w.len() == 0 {
        Seq::empty()
    } else if w.len() == 1 {
        w[0]
    } else {
        join_words(w.drop_last(), sep) + sep + w.last()
    }
}

/// The words of `w` joined by `sep`.
pub fn join_strings(w: &Vec<String>, sep: &str) -> (r: String)
    ensures
        r@ == join_words(seq_view(w@), sep@),
{
    let mut out = String::new();
    let mut i: usize = 0;
    while i < w.len()
        invariant
            i <= w.len(),
            out@ == join_words(seq_view(w@).subrange(0, i as int), sep@),
        decreases w.len() - i,
    {
        let ghost sub = seq_view(w@).subrange(0, i + 1);
        assert(sub.drop_last() =~= seq_view(w@).subrange(0, i as int));
        assert(sub.last() == w@[i as int]@);
        if i == 0 {
            out.append(w[i].as_str());
            assert(out@ =~= join_words(sub, sep@));
        } else {
            out.append(sep);
            out.append(w[i].as_str());
        }
        i = i + 1;
    }
    assert(seq_view(w@).subrange(0, w.len() as int) =~= seq_view(w@));
    out
}

/// The summary line of an optional value: `label` + text + `suffix` + newline,
/// or nothing.
pub open spec fn opt_line(label: Seq<char>, text: Option<Seq<char>>, suffix: Seq<char>) -> Seq<char> {
    match text {
        Some(t) => label + t + suffix + seq!['\n'],
        None => Seq::empty(),
    }
}

/// The text of an optional boolean.
pub open spec fn opt_bool(b: Option<bool>) -> Option<Seq<char>> {
    match b {
        Some(x) => Some(bool_text(x)),
        None => None,
    }
}

/// The summary of a configuration, one `Label: value` line per set field.
pub open spec fn summary_text(c: RunConfigView) -> Seq<char> {
    "Name: "@ + c.name + seq!['\n'] + "Type: "@ + c.script_type + seq!['\n'] + "Script: "@
        + c.script_path + seq!['\n'] + opt_line("Runtime: "@, c.runtime_version, Seq::empty())
        + opt_line("Venv: "@, c.venv_path, Seq::empty()) + args_line(c.args)
        + opt_line("Timeout: "@, opt_u64(c.timeout), "ms"@)
        + opt_line("Async: "@, opt_bool(c.async_execution), Seq::empty())
        + opt_line("Streaming: "@, opt_bool(c.streaming_execution), Seq::empty())
        + opt_line("Stream Buffer: "@, opt_u64(opt_widen(c.stream_buffer_size)), " bytes"@)
        + opt_line("Restart Policy: "@, c.restart_policy, Seq::empty())
        + opt_line("Max Restarts: "@, opt_u64(opt_widen32(c.max_restarts)), Seq::empty())
        + opt_line("Restart Delay: "@, opt_u64(c.restart_delay), "ms"@)
        + opt_line("Monitor Interval: "@, opt_u64(c.monitor_interval), "ms"@)
        + opt_line("Daemon Mode: "@, opt_bool(c.daemon_mode), Seq::empty())
}

/// An optional `usize` as a `u64`.
pub open spec fn opt_widen(n: Option<usize>) -> Option<u64> {
    match n {
        Some(x) => Some(x as u64),
        None => None,
    }
}

/// An optional `u32` as a `u64`.
pub open spec fn opt_widen32(n: Option<u32>) -> Option<u64> {
    match n {
        Some(x) => Some(x as u64),
        None => None,
    }
}

fn push_line(out: &mut String, label: &str, text: &str, suffix: &str)
    ensures
        final(out)@ == old(out)@ + label@ + text@ + suffix@ + seq!['\n'],
{
    out.append(label);
    out.append(text);
    out.append(suffix);
    proof {
        reveal_strlit("\n");
    }
    out.append("\n");
}

fn push_opt_text(out: &mut String, label: &str, text: &Option<String>)
    ensures
        final(out)@ == old(out)@ + opt_line(label@, opt_view(*text), Seq::empty()),
{
    proof {
        reveal_strlit("");
    }
    match text {
        Some(t) => push_line(out, label, t.as_str(), ""),
        None => {},
    }
    assert(final(out)@ =~= old(out)@ + opt_line(label@, opt_view(*text), Seq::empty()));
}

/// The decimal text of an optional `u64`.
pub open spec fn opt_u64(n: Option<u64>) -> Option<Seq<char>> {
    match n {
        Some(x) => Some(decimal(x as nat)),
        None => None,
    }
}

fn push_opt_number(out: &mut String, label: &str, n: Option<u64>, suffix: &str)
    ensures
        final(out)@ == old(out)@ + opt_line(label@, opt_u64(n), suffix@),
{
    match n {
        Some(x) => {
            let t = u64_text(x);
            push_line(out, label, t.as_str(), suffix);
        },
        None => {},
    }
    assert(final(out)@ =~= old(out)@ + opt_line(label@, opt_u64(n), suffix@));
}

fn push_opt_bool(out: &mut String, label: &str, b: Option<bool>)
    ensures
        final(out)@ == old(out)@ + opt_line(label@, opt_bool(b), Seq::empty()),
{
    proof {
        reveal_strlit("");
    }
    match b {
        Some(x) => push_line(out, label, bool_str(x), ""),
        None => {},
    }
    assert(final(out)@ =~= old(out)@ + opt_line(label@, opt_bool(b), Seq::empty()));
}

/// The summary line of the arguments: `Args: ` and the arguments joined by
/// spaces, or nothing when there are none.
pub open spec fn args_line(args: Seq<Seq<char>>) -> Seq<char> {
    if args.len() > 0 {
        "Args: "@ + join_words(args, seq![' ']) + seq!['\n']
    } else {
        Seq::empty()
    }
}

fn push_args_line(out: &mut String, args: &Vec<String>)
    ensures
        final(out)@ == old(out)@ + args_line(seq_view(args@)),
{
    proof {
        reveal_strlit("");
        reveal_strlit(" ");
    }
    assert(" "@ =~= seq![' ']);
    if args.len() > 0 {
        let j = join_strings(args, " ");
        push_line(out, "Args: ", j.as_str(), "");
    }
    assert(final(out)@ =~= old(out)@ + args_line(seq_view(args@)));
}

// ---------------------------------------------------------------------------
// Environment variables
// ---------------------------------------------------------------------------

/// The value of variable `k` in `env`, if set.
pub open spec fn env_get(env: Map<Seq<char>, Seq<char>>, k: Seq<char>) -> Option<Seq<char>> {
    if env.contains_key(k) {
        Some(env[k])
    } else {
        None
    }
}

/// A number read from an optional variable value, if it reads as one below `max`.
pub open spec fn env_number(v: Option<Seq<char>>, max: nat) -> Option<nat> {
    match v {
        Some(t) => match parse_decimal(t) {
            Some(n) => if n <= max {
                Some(n)
            } else {
                None
            },
            None => None,
        },
        None => None,
    }
}

/// A boolean read from an optional variable value.
pub open spec fn env_bool(v: Option<Seq<char>>) -> Option<bool> {
    match v {
        Some(t) => parse_bool_spec(t),
        None => None,
    }
}

/// The prefix of the variable names: `AI00_RUN_` for an empty `prefix`,
/// else `prefix` and `_`.
pub open spec fn env_prefix(prefix: Seq<char>) -> Seq<char> {
    if prefix.len() == 0 {
        "AI00_RUN_"@
    } else {
        prefix + seq!['_']
    }
}

/// `current`, replaced by `new` where that is set.
pub open spec fn or_keep<T>(new: Option<T>, current: T) -> T {
    match new {
        Some(x) => x,
        None => current,
    }
}

/// The configuration that the variables in `env` give: the default, with each
/// field whose variable `{prefix}{NAME}` is set (and, for numbers and
/// booleans, reads) taken from it.
pub open spec fn env_config(prefix: Seq<char>, env: Map<Seq<char>, Seq<char>>) -> RunConfigView {
    env_fields(env_prefix(prefix), env)
}

/// The configuration that the variables named `p` + field name in `env` give.
pub open spec fn env_fields(p: Seq<char>, env: Map<Seq<char>, Seq<char>>) -> RunConfigView {
    let d = default_view();
    RunConfigView {
        name: or_keep(env_get(env, p + "NAME"@), d.name),
        description: if env_get(env, p + "DESCRIPTION"@) is Some {
            env_get(env, p + "DESCRIPTION"@)
        } else {
            d.description
        },
        script_type: or_keep(env_get(env, p + "SCRIPT_TYPE"@), d.script_type),
        script_path: or_keep(env_get(env, p + "SCRIPT_PATH"@), d.script_path),
        runtime_version: if env_get(env, p + "RUNTIME_VERSION"@) is Some {
            env_get(env, p + "RUNTIME_VERSION"@)
        } else {
            d.runtime_version
        },
        venv_path: if env_get(env, p + "VENV_PATH"@) is Some {
            env_get(env, p + "VENV_PATH"@)
        } else {
            d.venv_path
        },
        working_dir: if env_get(env, p + "WORKING_DIR"@) is Some {
            env_get(env, p + "WORKING_DIR"@)
        } else {
            d.working_dir
        },
        timeout: match env_number(env_get(env, p + "TIMEOUT"@), u64::MAX as nat) {
            Some(n) => Some(n as u64),
            None => d.timeout,
        },
        async_execution: match env_bool(env_get(env, p + "ASYNC_EXECUTION"@)) {
            Some(b) => Some(b),
            None => d.async_execution,
        },
        streaming_execution: match env_bool(env_get(env, p + "STREAMING_EXECUTION"@)) {
            Some(b) => Some(b),
            None => d.streaming_execution,
        },
        stream_buffer_size: match env_number(env_get(env, p + "STREAM_BUFFER_SIZE"@), usize::MAX as nat) {
            Some(n) => Some(n as usize),
            None => d.stream_buffer_size,
        },
        restart_policy: if env_get(env, p + "RESTART_POLICY"@) is Some {
            env_get(env, p + "RESTART_POLICY"@)
        } else {
            d.restart_policy
        },
        max_restarts: match env_number(env_get(env, p + "MAX_RESTARTS"@), u32::MAX as nat) {
            Some(n) => Some(n as u32),
            None => d.max_restarts,
        },
        restart_delay: match env_number(env_get(env, p + "RESTART_DELAY"@), u64::MAX as nat) {
            Some(n) => Some(n as u64),
            None => d.restart_delay,
        },
        monitor_interval: match env_number(env_get(env, p + "MONITOR_INTERVAL"@), u64::MAX as nat) {
            Some(n) => Some(n as u64),
            None => d.monitor_interval,
        },
        daemon_mode: match env_bool(env_get(env, p + "DAEMON_MODE"@)) {
            Some(b) => Some(b),
            None => d.daemon_mode,
        },
        ..d
    }
}

fn env_value(env: &StringMap, p: &str, name: &str) -> (r: Option<String>)
    ensures
        opt_view(r) == env_get(env@, p@ + name@),
{
    let key = concat2(p, name);
    match env.get(key.as_str()) {
        Some(v) => Some(v.clone()),
        None => None,
    }
}

fn env_u64(env: &StringMap, p: &str, name: &str) -> (r: Option<u64>)
    ensures
        r == (match env_number(env_get(env@, p@ + name@), u64::MAX as nat) {
            Some(n) => Some(n as u64),
            None => None,
        }),
{
    match env_value(env, p, name) {
        Some(v) => parse_u64(&chars_of(v.as_str())),
        None => None,
    }
}

fn env_u32(env: &StringMap, p: &str, name: &str) -> (r: Option<u32>)
    ensures
        r == (match env_number(env_get(env@, p@ + name@), u32::MAX as nat) {
            Some(n) => Some(n as u32),
            None => None,
        }),
{
    match env_value(env, p, name) {
        Some(v) => parse_u32(&chars_of(v.as_str())),
        None => None,
    }
}

fn env_usize(env: &StringMap, p: &str, name: &str) -> (r: Option<usize>)
    ensures
        r == (match env_number(env_get(env@, p@ + name@), usize::MAX as nat) {
            Some(n) => Some(n as usize),
            None => None,
        }),
{
    match env_value(env, p, name) {
        Some(v) => parse_usize(&chars_of(v.as_str())),
        None => None,
    }
}

fn env_flag(env: &StringMap, p: &str, name: &str) -> (r: Option<bool>)
    ensures
        r == env_bool(env_get(env@, p@ + name@)),
{
    match env_value(env, p, name) {
        Some(v) => parse_bool(&chars_of(v.as_str())),
        None => None,
    }
}

/// `new` where it is set, else `current`.
fn keep_or<T>(new: Option<T>, current: T) -> (r: T)
    ensures
        r == or_keep(new, current),
{
    match new {
        Some(x) => x,
        None => current,
    }
}

} // verus!

verus! {

/// The map `m` with every pair of `pairs` set, in order.
pub open spec fn insert_all(m: Map<Seq<char>, Seq<char>>, pairs: Seq<(&str, &str)>) -> Map<
    Seq<char>,
    Seq<char>,
>
    decreases pairs.len(),
{
    if pairs.len() == 0 {
        m
    } else {
        insert_all(m, pairs.drop_last()).insert(pairs.last().0@, pairs.last().1@)
    }
}

/// The character sequences of a list of string slices.
pub open spec fn strs_view(v: Seq<&str>) -> Seq<Seq<char>> {
    v.map_values(|s: &str| s@)
}

/// The dependency list with `more` added at its end; a missing list starts empty.
pub open spec fn deps_plus(d: Option<Seq<Seq<char>>>, more: Seq<Seq<char>>) -> Option<Seq<Seq<char>>> {
    match d {
        Some(x) => Some(x + more),
        None => Some(more),
    }
}

fn push_strs(v: &mut Vec<String>, more: &[&str])
    ensures
        seq_view(final(v)@) == seq_view(old(v)@) + strs_view(more@),
{
    let mut i: usize = 0;
    while i < more.len()
        invariant
            i <= more.len(),
            seq_view(v@) == seq_view(old(v)@) + strs_view(more@).subrange(0, i as int),
        decreases more.len() - i,
    {
        let ghost prev = seq_view(v@);
        let item = owned(more[i]);
        assert(item@ == strs_view(more@)[i as int]);
        v.push(item);
        assert(seq_view(v@) =~= prev.push(item@));
        assert(strs_view(more@).subrange(0, i + 1) =~= strs_view(more@).subrange(0, i as int).push(item@));
        i = i + 1;
        assert(seq_view(v@) =~= seq_view(old(v)@) + strs_view(more@).subrange(0, i as int));
    }
    assert(strs_view(more@).subrange(0, more.len() as int) =~= strs_view(more@));
}

impl RunConfig {
    /// A configuration with the given name, type and script path, and the
    /// default for everything else.
    pub fn new(name: &str, script_type: &str, script_path: &str) -> (c: Self)
        ensures
            c@ == (RunConfigView {
                name: name@,
                script_type: script_type@,
                script_path: script_path@,
                ..default_view()
            }),
    {
        let mut c = RunConfig::default();
        c.name = owned(name);
        c.script_type = owned(script_type);
        c.script_path = owned(script_path);
        c
    }

    /// With a description.
    pub fn with_description(self, description: &str) -> (c: Self)
        ensures
            c@ == (RunConfigView { description: Some(description@), ..self@ }),
    {
        let mut c = self;
        c.description = Some(owned(description));
        c
    }

    /// With a runtime version.
    pub fn with_runtime_version(self, version: &str) -> (c: Self)
        ensures
            c@ == (RunConfigView { runtime_version: Some(version@), ..self@ }),
    {
        let mut c = self;
        c.runtime_version = Some(owned(version));
        c
    }

    /// With a virtual environment path.
    pub fn with_venv_path(self, venv_path: &str) -> (c: Self)
        ensures
            c@ == (RunConfigView { venv_path: Some(venv_path@), ..self@ }),
    {
        let mut c = self;
        c.venv_path = Some(owned(venv_path));
        c
    }

    /// With one more argument at the end.
    pub fn add_arg(self, arg: &str) -> (c: Self)
        ensures
            c@ == (RunConfigView { args: self@.args.push(arg@), ..self@ }),
    {
        let mut c = self;
        c.args.push(owned(arg));
        assert(c@.args =~= self@.args.push(arg@));
        c
    }

    /// With more arguments at the end.
    pub fn add_args(self, args: &[&str]) -> (c: Self)
        ensures
            c@ == (RunConfigView { args: self@.args + strs_view(args@), ..self@ }),
    {
        let mut c = self;
        push_strs(&mut c.args, args);
        c
    }

    /// With the variable `key` set to `value`.
    pub fn with_env_var(self, key: &str, value: &str) -> (c: Self)
        ensures
            c@ == (RunConfigView { env_vars: self@.env_vars.insert(key@, value@), ..self@ }),
    {
        let mut c = self;
        c.env_vars.insert(owned(key), owned(value));
        c
    }

    /// With each variable of `env_vars` set, in order.
    pub fn with_env_vars(self, env_vars: &[(&str, &str)]) -> (c: Self)
        ensures
            c@ == (RunConfigView { env_vars: insert_all(self@.env_vars, env_vars@), ..self@ }),
    {
        let mut c = self;
        let mut i: usize = 0;
        while i < env_vars.len()
            invariant
                i <= env_vars.len(),
                c@ == (RunConfigView {
                    env_vars: insert_all(self@.env_vars, env_vars@.subrange(0, i as int)),
                    ..self@
                }),
            decreases env_vars.len() - i,
        {
            let (k, v) = env_vars[i];
            c.env_vars.insert(owned(k), owned(v));
            assert(env_vars@.subrange(0, i + 1).drop_last() =~= env_vars@.subrange(0, i as int));
            assert(env_vars@.subrange(0, i + 1).last() == env_vars@[i as int]);
            i = i + 1;
        }
        assert(env_vars@.subrange(0, env_vars.len() as int) =~= env_vars@);
        c
    }

    /// With a working directory.
    pub fn with_working_dir(self, dir: &str) -> (c: Self)
        ensures
            c@ == (RunConfigView { working_dir: Some(dir@), ..self@ }),
    {
        let mut c = self;
        c.working_dir = Some(owned(dir));
        c
    }

    /// With a time limit.
    pub fn with_timeout(self, timeout_ms: u64) -> (c: Self)
        ensures
            c@ == (RunConfigView { timeout: Some(timeout_ms), ..self@ }),
    {
        let mut c = self;
        c.timeout = Some(timeout_ms);
        c
    }

    /// With asynchronous running set.
    pub fn with_async_execution(self, async_exec: bool) -> (c: Self)
        ensures
            c@ == (RunConfigView { async_execution: Some(async_exec), ..self@ }),
    {
        let mut c = self;
        c.async_execution = Some(async_exec);
        c
    }

    /// With one more dependency.
    pub fn add_dependency(self, dependency: &str) -> (c: Self)
        ensures
            c@ == (RunConfigView {
                dependencies: deps_plus(self@.dependencies, seq![dependency@]),
                ..self@
            }),
    {
        let mut c = self;
        let mut deps = match c.dependencies {
            Some(d) => d,
            None => Vec::new(),
        };
        let ghost before = seq_view(deps@);
        deps.push(owned(dependency));
        assert(seq_view(deps@) =~= before + seq![dependency@]);
        c.dependencies = Some(deps);
        c
    }

    /// With more dependencies.
    pub fn add_dependencies(self, dependencies: &[&str]) -> (c: Self)
        ensures
            c@ == (RunConfigView {
                dependencies: deps_plus(self@.dependencies, strs_view(dependencies@)),
                ..self@
            }),
    {
        let mut c = self;
        let mut deps = match c.dependencies {
            Some(d) => d,
            None => Vec::new(),
        };
        proof {
            if self.dependencies is None {
                assert(seq_view(deps@) =~= Seq::<Seq<char>>::empty());
            }
        }
        push_strs(&mut deps, dependencies);
        c.dependencies = Some(deps);
        c
    }

    /// With streamed running set.
    pub fn with_streaming_execution(self, streaming: bool) -> (c: Self)
        ensures
            c@ == (RunConfigView { streaming_execution: Some(streaming), ..self@ }),
    {
        let mut c = self;
        c.streaming_execution = Some(streaming);
        c
    }

    /// With a stream buffer size.
    pub fn with_stream_buffer_size(self, buffer_size: usize) -> (c: Self)
        ensures
            c@ == (RunConfigView { stream_buffer_size: Some(buffer_size), ..self@ }),
    {
        let mut c = self;
        c.stream_buffer_size = Some(buffer_size);
        c
    }

    /// With a restart policy.
    pub fn with_restart_policy(self, policy: &str) -> (c: Self)
        ensures
            c@ == (RunConfigView { restart_policy: Some(policy@), ..self@ }),
    {
        let mut c = self;
        c.restart_policy = Some(owned(policy));
        c
    }

    /// With a restart limit.
    pub fn with_max_restarts(self, max_restarts: u32) -> (c: Self)
        ensures
            c@ == (RunConfigView { max_restarts: Some(max_restarts), ..self@ }),
    {
        let mut c = self;
        c.max_restarts = Some(max_restarts);
        c
    }

    /// With a restart delay.
    pub fn with_restart_delay(self, delay_ms: u64) -> (c: Self)
        ensures
            c@ == (RunConfigView { restart_delay: Some(delay_ms), ..self@ }),
    {
        let mut c = self;
        c.restart_delay = Some(delay_ms);
        c
    }

    /// With a check interval.
    pub fn with_monitor_interval(self, interval_ms: u64) -> (c: Self)
        ensures
            c@ == (RunConfigView { monitor_interval: Some(interval_ms), ..self@ }),
    {
        let mut c = self;
        c.monitor_interval = Some(interval_ms);
        c
    }

    /// With daemon mode set.
    pub fn with_daemon_mode(self, daemon: bool) -> (c: Self)
        ensures
            c@ == (RunConfigView { daemon_mode: Some(daemon), ..self@ }),
    {
        let mut c = self;
        c.daemon_mode = Some(daemon);
        c
    }

    /// Checks the configuration: a name; a type of `node`, `python` or
    /// `shell`; a script path; a runtime version for Node.js; a virtual
    /// environment for Python; a stream buffer of 1024 to 65536 bytes; a
    /// restart policy of `never`, `on-failure` or `always`; a check interval
    /// of 100 to 60000 ms. The first rule broken gives a configuration error.
    pub fn validate(&self) -> (r: Result<(), Error>)
        ensures
            r is Ok <==> config_problem(self@) is None,
            r matches Err(e) ==> e matches Error::Config(m) && config_problem(self@) == Some(m@),
    {
        let name = chars_of(self.name.as_str());
        if name.len() == 0 {
            return Err(Error::Config(owned("Script name cannot be empty")));
        }
        let t = chars_of(self.script_type.as_str());
        let node = chars_of("node");
        let python = chars_of("python");
        let shell = chars_of("shell");
        let is_node = seq_eq(&t, &node);
        let is_python = seq_eq(&t, &python);
        if !(is_node || is_python || seq_eq(&t, &shell)) {
            return Err(Error::Config(concat2("Invalid script type: ", self.script_type.as_str())));
        }
        let p = chars_of(self.script_path.as_str());
        if p.len() == 0 {
            return Err(Error::Config(owned("Script path cannot be empty")));
        }
        if is_node && self.runtime_version.is_none() {
            return Err(Error::Config(owned("Node.js script requires runtime version")));
        }
        if is_python && self.venv_path.is_none() {
            return Err(Error::Config(owned("Python script requires virtual environment path")));
        }
        match self.stream_buffer_size {
            Some(b) => {
                if !(1024 <= b && b <= 65536) {
                    return Err(
                        Error::Config(
                            owned("Stream buffer size must be between 1024 and 65536 bytes"),
                        ),
                    );
                }
            },
            None => {},
        }
        match &self.restart_policy {
            Some(policy) => {
                let pv = chars_of(policy.as_str());
                let never = chars_of("never");
                let on_failure = chars_of("on-failure");
                let always = chars_of("always");
                if !(seq_eq(&pv, &never) || seq_eq(&pv, &on_failure) || seq_eq(&pv, &always)) {
                    return Err(Error::Config(concat2("Invalid restart policy: ", policy.as_str())));
                }
            },
            None => {},
        }
        match self.monitor_interval {
            Some(i) => {
                if !(100 <= i && i <= 60000) {
                    return Err(
                        Error::Config(
                            owned("Monitor interval must be between 100 and 60000 milliseconds"),
                        ),
                    );
                }
            },
            None => {},
        }
        Ok(())
    }

    /// The extension of the script file, if it has one.
    pub fn get_script_extension(&self) -> (r: Option<String>)
        ensures
            opt_view(r) == path_extension(self.script_path@),
    {
        extension_of(self.script_path.as_str())
    }

    /// The script path followed by the arguments.
    pub fn get_full_command_args(&self) -> (r: Vec<String>)
        ensures
            seq_view(r@) == seq![self.script_path@] + self@.args,
    {
        let mut r: Vec<String> = Vec::new();
        r.push(self.script_path.clone());
        let mut i: usize = 0;
        while i < self.args.len()
            invariant
                i <= self.args.len(),
                seq_view(r@) == seq![self.script_path@] + seq_view(self.args@).subrange(0, i as int),
            decreases self.args.len() - i,
        {
            let ghost prev = seq_view(r@);
            let item = self.args[i].clone();
            r.push(item);
            assert(seq_view(r@) =~= prev.push(self.args@[i as int]@));
            assert(seq_view(self.args@).subrange(0, i + 1) =~= seq_view(self.args@).subrange(0, i as int).push(self.args@[i as int]@));
            i = i + 1;
            assert(seq_view(r@) =~= seq![self.script_path@] + seq_view(self.args@).subrange(0, i as int));
        }
        assert(seq_view(self.args@).subrange(0, self.args.len() as int) =~= self@.args);
        r
    }

    /// A copy of the configuration.
    pub fn copy(&self) -> (c: Self)
        ensures
            c@ == self@,
    {
        RunConfig {
            name: self.name.clone(),
            description: copy_opt(&self.description),
            script_type: self.script_type.clone(),
            script_path: self.script_path.clone(),
            runtime_version: copy_opt(&self.runtime_version),
            venv_path: copy_opt(&self.venv_path),
            args: copy_strings(&self.args),
            env_vars: self.env_vars.clone(),
            working_dir: copy_opt(&self.working_dir),
            timeout: self.timeout,
            async_execution: self.async_execution,
            dependencies: match &self.dependencies {
                Some(d) => Some(copy_strings(d)),
                None => None,
            },
            streaming_execution: self.streaming_execution,
            stream_buffer_size: self.stream_buffer_size,
            restart_policy: copy_opt(&self.restart_policy),
            max_restarts: self.max_restarts,
            restart_delay: self.restart_delay,
            monitor_interval: self.monitor_interval,
            daemon_mode: self.daemon_mode,
        }
    }
}

} // verus!

verus! {

/// The template configuration of a kind: `node`, `python` or `shell`.
pub open spec fn template_view(kind: Seq<char>) -> Option<RunConfigView> {
    let d = default_view();
    if kind == "node"@ {
        Some(
            RunConfigView {
                name: "node_app"@,
                script_type: "node"@,
                script_path: "app.js"@,
                description: Some("Node.js application"@),
                runtime_version: Some("18.0.0"@),
                args: seq!["--port"@, "3000"@],
                env_vars: Map::empty().insert("NODE_ENV"@, "development"@),
                timeout: Some(30000),
                ..d
            },
        )
    } else if kind == "python"@ {
        Some(
            RunConfigView {
                name: "python_app"@,
                script_type: "python"@,
                script_path: "main.py"@,
                description: Some("Python application"@),
                runtime_version: Some("3.11"@),
                venv_path: Some(".venv"@),
                dependencies: Some(seq!["requests"@, "flask"@]),
                env_vars: Map::empty().insert("PYTHONPATH"@, "."@),
                timeout: Some(60000),
                ..d
            },
        )
    } else if kind == "shell"@ {
        Some(
            RunConfigView {
                name: "shell_script"@,
                script_type: "shell"@,
                script_path: "script.sh"@,
                description: Some("Shell script"@),
                args: seq!["--verbose"@],
                env_vars: Map::empty().insert("DEBUG"@, "true"@),
                timeout: Some(10000),
                ..d
            },
        )
    } else {
        None
    }
}

/// `first` where `take` holds, else `second`.
fn pick<T>(take: bool, first: T, second: T) -> (r: T)
    ensures
        r == (if take {
            first
        } else {
            second
        }),
{
    if take {
        first
    } else {
        second
    }
}

/// `first` where it is set, else `second`.
fn either<T>(first: Option<T>, second: Option<T>) -> (r: Option<T>)
    ensures
        r == (if first is Some {
            first
        } else {
            second
        }),
{
    if first.is_some() {
        first
    } else {
        second
    }
}

/// The verdict on a configuration file decided before it is read.
pub open spec fn file_precheck_view(path: Seq<char>, kind: Seq<char>, exists: bool) -> Option<
    (bool, Seq<Seq<char>>),
> {
    if !exists {
        Some((false, seq!["Config file does not exist: "@ + path]))
    } else if kind == "json"@ || kind == "yaml"@ {
        None
    } else {
        Some((false, seq!["Unsupported config type: "@ + kind]))
    }
}

/// The verdict on a configuration file that was read.
pub open spec fn file_verdict_view(loaded: Result<RunConfig, Error>) -> (bool, Seq<Seq<char>>) {
    match loaded {
        Ok(c) => match config_problem(c@) {
            None => (true, Seq::empty()),
            Some(m) => (false, seq!["Config validation failed: "@ + "Configuration error: "@ + m]),
        },
        Err(e) => (false, seq!["Failed to load config: "@ + error_text(e)]),
    }
}

/// Loads, checks and merges run configurations.
#[derive(Debug)]
pub struct ConfigManager;

impl Default for ConfigManager {
    fn default() -> (m: Self) {
        ConfigManager
    }
}

impl ConfigManager {
    /// A configuration manager.
    pub fn new() -> (m: Self) {
        ConfigManager
    }

    /// Accepts a configuration read from a file if it passes `validate`.
    pub fn accept_loaded(&self, config: RunConfig) -> (r: Result<RunConfig, Error>)
        ensures
            r matches Ok(c) ==> c == config && config_problem(config@) is None,
            r matches Err(e) ==> e matches Error::Config(m) && config_problem(config@) == Some(m@),
    {
        match config.validate() {
            Ok(()) => Ok(config),
            Err(e) => Err(e),
        }
    }

    /// The configuration that the environment variables in `env` give: the
    /// default, with each field whose variable `{prefix}_{NAME}` is set (for
    /// numbers and booleans: set and readable) taken from it. An empty prefix
    /// stands for `AI00_RUN`.
    pub fn from_env_vars(&self, prefix: &str, env: &StringMap) -> (r: RunConfig)
        ensures
            r@ == env_config(prefix@, env@),
    {
        let p = if chars_of(prefix).len() == 0 {
            owned("AI00_RUN_")
        } else {
            concat2(prefix, "_")
        };
        proof {
            reveal_strlit("_");
            if prefix@.len() != 0 {
                assert("_"@ =~= seq!['_']);
            }
        }
        assert(p@ == env_prefix(prefix@));
        self.env_fields_of(p.as_str(), env)
    }

    fn env_fields_of(&self, p: &str, env: &StringMap) -> (r: RunConfig)
        ensures
            r@ == env_fields(p@, env@),
    {
        let d = RunConfig::default();
        RunConfig {
            name: keep_or(env_value(env, p, "NAME"), d.name),
            description: either(env_value(env, p, "DESCRIPTION"), d.description),
            script_type: keep_or(env_value(env, p, "SCRIPT_TYPE"), d.script_type),
            script_path: keep_or(env_value(env, p, "SCRIPT_PATH"), d.script_path),
            runtime_version: either(env_value(env, p, "RUNTIME_VERSION"), d.runtime_version),
            venv_path: either(env_value(env, p, "VENV_PATH"), d.venv_path),
            args: d.args,
            env_vars: d.env_vars,
            working_dir: either(env_value(env, p, "WORKING_DIR"), d.working_dir),
            timeout: either(env_u64(env, p, "TIMEOUT"), d.timeout),
            async_execution: either(env_flag(env, p, "ASYNC_EXECUTION"), d.async_execution),
            dependencies: d.dependencies,
            streaming_execution: either(
                env_flag(env, p, "STREAMING_EXECUTION"),
                d.streaming_execution,
            ),
            stream_buffer_size: either(
                env_usize(env, p, "STREAM_BUFFER_SIZE"),
                d.stream_buffer_size,
            ),
            restart_policy: either(env_value(env, p, "RESTART_POLICY"), d.restart_policy),
            max_restarts: either(env_u32(env, p, "MAX_RESTARTS"), d.max_restarts),
            restart_delay: either(env_u64(env, p, "RESTART_DELAY"), d.restart_delay),
            monitor_interval: either(env_u64(env, p, "MONITOR_INTERVAL"), d.monitor_interval),
            daemon_mode: either(env_flag(env, p, "DAEMON_MODE"), d.daemon_mode),
        }
    }

    /// The verdict on a configuration file that is decided before it is
    /// read: a missing file, or a type other than `json` and `yaml`. `None`
    /// where the file is to be read.
    pub fn config_file_precheck(&self, config_path: &str, config_type: &str, exists: bool) -> (r: Option<(bool, Vec<String>)>)
        ensures
            match file_precheck_view(config_path@, config_type@, exists) {
                Some((ok, msgs)) => r matches Some((rok, rmsgs)) && rok == ok && seq_view(rmsgs@)
                    == msgs,
                None => r is None,
            },
    {
        if !exists {
            let mut msgs: Vec<String> = Vec::new();
            msgs.push(concat2("Config file does not exist: ", config_path));
            assert(seq_view(msgs@) =~= seq!["Config file does not exist: "@ + config_path@]);
            return Some((false, msgs));
        }
        let t = chars_of(config_type);
        if seq_eq(&t, &chars_of("json")) || seq_eq(&t, &chars_of("yaml")) {
            None
        } else {
            let mut msgs: Vec<String> = Vec::new();
            msgs.push(concat2("Unsupported config type: ", config_type));
            assert(seq_view(msgs@) =~= seq!["Unsupported config type: "@ + config_type@]);
            Some((false, msgs))
        }
    }

    /// The verdict on a configuration file that was read: valid, or the
    /// message of what went wrong in reading or checking it.
    pub fn config_file_verdict(&self, loaded: Result<RunConfig, Error>) -> (r: (bool, Vec<String>))
        ensures
            r.0 == file_verdict_view(loaded).0,
            seq_view(r.1@) == file_verdict_view(loaded).1,
    {
        match loaded {
            Ok(config) => match config.validate() {
                Ok(()) => {
                    let msgs: Vec<String> = Vec::new();
                    assert(seq_view(msgs@) =~= Seq::<Seq<char>>::empty());
                    (true, msgs)
                },
                Err(e) => {
                    let text = e.to_string();
                    let mut msgs: Vec<String> = Vec::new();
                    msgs.push(concat2("Config validation failed: ", text.as_str()));
                    let ghost m = config_problem(config@).unwrap();
                    assert("Config validation failed: "@ + text@ =~= "Config validation failed: "@
                        + "Configuration error: "@ + m);
                    assert(seq_view(msgs@) =~= seq!["Config validation failed: "@ + text@]);
                    (false, msgs)
                },
            },
            Err(e) => {
                let text = e.to_string();
                let mut msgs: Vec<String> = Vec::new();
                msgs.push(concat2("Failed to load config: ", text.as_str()));
                assert(seq_view(msgs@) =~= seq!["Failed to load config: "@ + text@]);
                (false, msgs)
            },
        }
    }

    /// The template configuration of kind `config_type` (`node`, `python` or
    /// `shell`); fails on any other kind.
    pub fn generate_template(&self, config_type: &str) -> (r: Result<RunConfig, Error>)
        ensures
            r matches Ok(c) ==> template_view(config_type@) == Some(c@),
            r is Err <==> template_view(config_type@) is None,
            r matches Err(e) ==> e matches Error::Config(m) && m@ == "Unknown config type: "@
                + config_type@,
    {
        let t = chars_of(config_type);
        let node = chars_of("node");
        let python = chars_of("python");
        let shell = chars_of("shell");
        if seq_eq(&t, &node) {
            let c = RunConfig::new("node_app", "node", "app.js").with_description(
                "Node.js application",
            ).with_runtime_version("18.0.0").add_arg("--port").add_arg("3000").with_env_var(
                "NODE_ENV",
                "development",
            ).with_timeout(30000);
            assert(c@.args =~= seq!["--port"@, "3000"@]);
            assert(c@.env_vars =~= Map::<Seq<char>, Seq<char>>::empty().insert(
                "NODE_ENV"@,
                "development"@,
            ));
            Ok(c)
        } else if seq_eq(&t, &python) {
            let c = RunConfig::new("python_app", "python", "main.py").with_description(
                "Python application",
            ).with_runtime_version("3.11").with_venv_path(".venv").add_dependency(
                "requests",
            ).add_dependency("flask").with_env_var("PYTHONPATH", ".").with_timeout(60000);
            assert(c@.dependencies.unwrap() =~= seq!["requests"@, "flask"@]);
            assert(c@.env_vars =~= Map::<Seq<char>, Seq<char>>::empty().insert(
                "PYTHONPATH"@,
                "."@,
            ));
            Ok(c)
        } else if seq_eq(&t, &shell) {
            let c = RunConfig::new("shell_script", "shell", "script.sh").with_description(
                "Shell script",
            ).add_arg("--verbose").with_env_var("DEBUG", "true").with_timeout(10000);
            assert(c@.args =~= seq!["--verbose"@]);
            assert(c@.env_vars =~= Map::<Seq<char>, Seq<char>>::empty().insert(
                "DEBUG"@,
                "true"@,
            ));
            Ok(c)
        } else {
            Err(Error::Config(concat2("Unknown config type: ", config_type)))
        }
    }

    /// Lays `override_config` over `base_config`: each field the override
    /// sets (for name, type and path: sets to other than the default)
    /// replaces the base's.
    pub fn merge_configs(&self, base_config: RunConfig, override_config: RunConfig) -> (r: RunConfig)
        ensures
            r@ == merged(base_config@, override_config@),
    {
        let b = base_config;
        let o = override_config;
        let oname = chars_of(o.name.as_str());
        let unnamed = chars_of("unnamed_script");
        let take_name = oname.len() > 0 && !seq_eq(&oname, &unnamed);
        let otype = chars_of(o.script_type.as_str());
        let shell = chars_of("shell");
        let take_type = !seq_eq(&otype, &shell);
        let take_path = !is_default_script_path_exec(&o.script_path);
        let take_args = o.args.len() > 0;
        assert(!take_args ==> seq_view(o.args@) =~= Seq::<Seq<char>>::empty());
        let take_env = !o.env_vars.is_empty();
        RunConfig {
            name: pick(take_name, o.name, b.name),
            description: either(o.description, b.description),
            script_type: pick(take_type, o.script_type, b.script_type),
            script_path: pick(take_path, o.script_path, b.script_path),
            runtime_version: either(o.runtime_version, b.runtime_version),
            venv_path: either(o.venv_path, b.venv_path),
            args: pick(take_args, o.args, b.args),
            env_vars: pick(take_env, o.env_vars, b.env_vars),
            working_dir: either(o.working_dir, b.working_dir),
            timeout: either(o.timeout, b.timeout),
            async_execution: either(o.async_execution, b.async_execution),
            dependencies: either(o.dependencies, b.dependencies),
            streaming_execution: either(o.streaming_execution, b.streaming_execution),
            stream_buffer_size: either(o.stream_buffer_size, b.stream_buffer_size),
            restart_policy: either(o.restart_policy, b.restart_policy),
            max_restarts: either(o.max_restarts, b.max_restarts),
            restart_delay: either(o.restart_delay, b.restart_delay),
            monitor_interval: either(o.monitor_interval, b.monitor_interval),
            daemon_mode: either(o.daemon_mode, b.daemon_mode),
        }
    }

    /// A summary of `config`, one `Label: value` line per set field.
    pub fn get_config_summary(&self, config: &RunConfig) -> (s: String)
        ensures
            s@ == summary_text(config@),
    {
        let ghost c = config@;
        let mut out = String::new();
        proof {
            reveal_strlit("");
        }
        push_line(&mut out, "Name: ", config.name.as_str(), "");
        push_line(&mut out, "Type: ", config.script_type.as_str(), "");
        push_line(&mut out, "Script: ", config.script_path.as_str(), "");
        assert(out@ =~= "Name: "@ + c.name + seq!['\n'] + "Type: "@ + c.script_type + seq!['\n']
            + "Script: "@ + c.script_path + seq!['\n']);
        push_opt_text(&mut out, "Runtime: ", &config.runtime_version);
        push_opt_text(&mut out, "Venv: ", &config.venv_path);
        push_args_line(&mut out, &config.args);
        push_opt_number(&mut out, "Timeout: ", config.timeout, "ms");
        push_opt_bool(&mut out, "Async: ", config.async_execution);
        push_opt_bool(&mut out, "Streaming: ", config.streaming_execution);
        let buffer = match config.stream_buffer_size {
            Some(b) => Some(b as u64),
            None => None,
        };
        push_opt_number(&mut out, "Stream Buffer: ", buffer, " bytes");
        push_opt_text(&mut out, "Restart Policy: ", &config.restart_policy);
        let restarts = match config.max_restarts {
            Some(m) => Some(m as u64),
            None => None,
        };
        push_opt_number(&mut out, "Max Restarts: ", restarts, "");
        push_opt_number(&mut out, "Restart Delay: ", config.restart_delay, "ms");
        push_opt_number(&mut out, "Monitor Interval: ", config.monitor_interval, "ms");
        push_opt_bool(&mut out, "Daemon Mode: ", config.daemon_mode);
        out
    }
}

/// Laying a configuration over itself changes nothing.
pub proof fn merge_self(c: RunConfigView)
    ensures
        merged(c, c) == c,
{
    assert(merged(c, c) =~= c);
}

/// Laying the same override over a configuration a second time changes
/// nothing more.
pub proof fn merge_idempotent(base: RunConfigView, over: RunConfigView)
    ensures
        merged(merged(base, over), over) == merged(base, over),
{
    assert(merged(merged(base, over), over) =~= merged(base, over));
}

/// Every template passes the configuration check.
pub proof fn templates_are_valid(kind: Seq<char>)
    requires
        template_view(kind) is Some,
    ensures
        config_problem(template_view(kind).unwrap()) is None,
{
    reveal_strlit("node");
    reveal_strlit("python");
    reveal_strlit("shell");
    reveal_strlit("app.js");
    reveal_strlit("main.py");
    reveal_strlit("script.sh");
    reveal_strlit("node_app");
    reveal_strlit("python_app");
    reveal_strlit("shell_script");
    reveal_strlit("never");
    assert("shell"@ != "node"@) by {
        assert("shell"@.len() != "node"@.len());
    }
    assert("shell"@ != "python"@) by {
        assert("shell"@.len() != "python"@.len());
    }
    assert("node"@ != "python"@) by {
        assert("node"@.len() != "python"@.len());
    }
    assert("app.js"@.len() > 0 && "main.py"@.len() > 0 && "script.sh"@.len() > 0);
    assert("node_app"@.len() > 0 && "python_app"@.len() > 0 && "shell_script"@.len() > 0);
}

/// The default configuration passes the configuration check.
pub proof fn default_is_valid()
    ensures
        config_problem(default_view()) is None,
{
    reveal_strlit("unnamed_script");
    reveal_strlit("shell");
    reveal_strlit("node");
    reveal_strlit("python");
    reveal_strlit("script.sh");
    reveal_strlit("never");
    assert("unnamed_script"@.len() > 0);
    assert("script.sh"@.len() > 0);
    assert("shell"@ != "node"@) by {
        assert("shell"@.len() != "node"@.len());
    }
    assert("shell"@ != "python"@) by {
        assert("shell"@.len() != "python"@.len());
    }
}

/// Without any variables set, the environment gives the default
/// configuration.
pub proof fn env_config_without_variables(prefix: Seq<char>)
    ensures
        env_config(prefix, Map::empty()) == default_view(),
{
    assert(env_config(prefix, Map::empty()) =~= default_view());
}

/// Laying `o` over `b`: every optional field that `o` sets replaces the
/// base's, and every one it leaves unset keeps the base's. The name, type
/// and path of `o` win unless they are empty or the default's
/// (`unnamed_script`, `shell`, `script.sh`); its arguments and variables
/// win unless there are none.
pub proof fn merge_override_wins(b: RunConfigView, o: RunConfigView)
    ensures
        o.description is Some ==> merged(b, o).description == o.description,
        o.description is None ==> merged(b, o).description == b.description,
        o.runtime_version is Some ==> merged(b, o).runtime_version == o.runtime_version,
        o.runtime_version is None ==> merged(b, o).runtime_version == b.runtime_version,
        o.venv_path is Some ==> merged(b, o).venv_path == o.venv_path,
        o.venv_path is None ==> merged(b, o).venv_path == b.venv_path,
        o.working_dir is Some ==> merged(b, o).working_dir == o.working_dir,
        o.working_dir is None ==> merged(b, o).working_dir == b.working_dir,
        o.timeout is Some ==> merged(b, o).timeout == o.timeout,
        o.timeout is None ==> merged(b, o).timeout == b.timeout,
        o.async_execution is Some ==> merged(b, o).async_execution == o.async_execution,
        o.async_execution is None ==> merged(b, o).async_execution == b.async_execution,
        o.dependencies is Some ==> merged(b, o).dependencies == o.dependencies,
        o.dependencies is None ==> merged(b, o).dependencies == b.dependencies,
        o.streaming_execution is Some ==> merged(b, o).streaming_execution == o.streaming_execution,
        o.streaming_execution is None ==> merged(b, o).streaming_execution == b.streaming_execution,
        o.stream_buffer_size is Some ==> merged(b, o).stream_buffer_size == o.stream_buffer_size,
        o.stream_buffer_size is None ==> merged(b, o).stream_buffer_size == b.stream_buffer_size,
        o.restart_policy is Some ==> merged(b, o).restart_policy == o.restart_policy,
        o.restart_policy is None ==> merged(b, o).restart_policy == b.restart_policy,
        o.max_restarts is Some ==> merged(b, o).max_restarts == o.max_restarts,
        o.max_restarts is None ==> merged(b, o).max_restarts == b.max_restarts,
        o.restart_delay is Some ==> merged(b, o).restart_delay == o.restart_delay,
        o.restart_delay is None ==> merged(b, o).restart_delay == b.restart_delay,
        o.monitor_interval is Some ==> merged(b, o).monitor_interval == o.monitor_interval,
        o.monitor_interval is None ==> merged(b, o).monitor_interval == b.monitor_interval,
        o.daemon_mode is Some ==> merged(b, o).daemon_mode == o.daemon_mode,
        o.daemon_mode is None ==> merged(b, o).daemon_mode == b.daemon_mode,
        o.name.len() > 0 && o.name != "unnamed_script"@ ==> merged(b, o).name == o.name,
        o.name.len() == 0 || o.name == "unnamed_script"@ ==> merged(b, o).name == b.name,
        o.script_type != "shell"@ ==> merged(b, o).script_type == o.script_type,
        o.script_type == "shell"@ ==> merged(b, o).script_type == b.script_type,
        !is_default_script_path(o.script_path) ==> merged(b, o).script_path == o.script_path,
        is_default_script_path(o.script_path) ==> merged(b, o).script_path == b.script_path,
        o.args.len() > 0 ==> merged(b, o).args == o.args,
        o.args.len() == 0 ==> merged(b, o).args == b.args,
        o.env_vars != Map::<Seq<char>, Seq<char>>::empty() ==> merged(b, o).env_vars == o.env_vars,
        o.env_vars == Map::<Seq<char>, Seq<char>>::empty() ==> merged(b, o).env_vars == b.env_vars,
{
    if o.env_vars.dom() == Set::<Seq<char>>::empty() {
        assert(o.env_vars =~= Map::<Seq<char>, Seq<char>>::empty());
    }
}

/// Each variable `{p}{FIELD}` that is set gives its field: a text field takes
/// its value, a number field the number it reads as (where it reads and
/// fits), a flag `true` or `false`; a field whose variable is not set keeps
/// the default. `p` is `prefix` and `_`, or `AI00_RUN_` for an empty prefix.
/// The arguments, variables and dependencies are always the default's.
pub proof fn env_variables_set_fields(prefix: Seq<char>, env: Map<Seq<char>, Seq<char>>, p: Seq<char>, n: nat)
    requires
        p == (if prefix.len() == 0 {
            "AI00_RUN_"@
        } else {
            prefix + seq!['_']
        }),
    ensures
        env.contains_key(p + "NAME"@) ==> env_config(prefix, env).name == env[p + "NAME"@],
        !env.contains_key(p + "NAME"@) ==> env_config(prefix, env).name == default_view().name,
        env.contains_key(p + "DESCRIPTION"@) ==> env_config(prefix, env).description == Some(env[p + "DESCRIPTION"@]),
        !env.contains_key(p + "DESCRIPTION"@) ==> env_config(prefix, env).description == default_view().description,
        env.contains_key(p + "SCRIPT_TYPE"@) ==> env_config(prefix, env).script_type == env[p + "SCRIPT_TYPE"@],
        !env.contains_key(p + "SCRIPT_TYPE"@) ==> env_config(prefix, env).script_type == default_view().script_type,
        env.contains_key(p + "SCRIPT_PATH"@) ==> env_config(prefix, env).script_path == env[p + "SCRIPT_PATH"@],
        !env.contains_key(p + "SCRIPT_PATH"@) ==> env_config(prefix, env).script_path == default_view().script_path,
        env.contains_key(p + "RUNTIME_VERSION"@) ==> env_config(prefix, env).runtime_version == Some(env[p + "RUNTIME_VERSION"@]),
        !env.contains_key(p + "RUNTIME_VERSION"@) ==> env_config(prefix, env).runtime_version == default_view().runtime_version,
        env.contains_key(p + "VENV_PATH"@) ==> env_config(prefix, env).venv_path == Some(env[p + "VENV_PATH"@]),
        !env.contains_key(p + "VENV_PATH"@) ==> env_config(prefix, env).venv_path == default_view().venv_path,
        env.contains_key(p + "WORKING_DIR"@) ==> env_config(prefix, env).working_dir == Some(env[p + "WORKING_DIR"@]),
        !env.contains_key(p + "WORKING_DIR"@) ==> env_config(prefix, env).working_dir == default_view().working_dir,
        env.contains_key(p + "RESTART_POLICY"@) ==> env_config(prefix, env).restart_policy == Some(env[p + "RESTART_POLICY"@]),
        !env.contains_key(p + "RESTART_POLICY"@) ==> env_config(prefix, env).restart_policy == default_view().restart_policy,
        env.contains_key(p + "TIMEOUT"@) && parse_decimal(env[p + "TIMEOUT"@]) == Some(n) && n <= u64::MAX
            ==> env_config(prefix, env).timeout == Some(n as u64),
        !env.contains_key(p + "TIMEOUT"@) ==> env_config(prefix, env).timeout == default_view().timeout,
        env.contains_key(p + "STREAM_BUFFER_SIZE"@) && parse_decimal(env[p + "STREAM_BUFFER_SIZE"@]) == Some(n) && n <= usize::MAX
            ==> env_config(prefix, env).stream_buffer_size == Some(n as usize),
        !env.contains_key(p + "STREAM_BUFFER_SIZE"@) ==> env_config(prefix, env).stream_buffer_size == default_view().stream_buffer_size,
        env.contains_key(p + "MAX_RESTARTS"@) && parse_decimal(env[p + "MAX_RESTARTS"@]) == Some(n) && n <= u32::MAX
            ==> env_config(prefix, env).max_restarts == Some(n as u32),
        !env.contains_key(p + "MAX_RESTARTS"@) ==> env_config(prefix, env).max_restarts == default_view().max_restarts,
        env.contains_key(p + "RESTART_DELAY"@) && parse_decimal(env[p + "RESTART_DELAY"@]) == Some(n) && n <= u64::MAX
            ==> env_config(prefix, env).restart_delay == Some(n as u64),
        !env.contains_key(p + "RESTART_DELAY"@) ==> env_config(prefix, env).restart_delay == default_view().restart_delay,
        env.contains_key(p + "MONITOR_INTERVAL"@) && parse_decimal(env[p + "MONITOR_INTERVAL"@]) == Some(n) && n <= u64::MAX
            ==> env_config(prefix, env).monitor_interval == Some(n as u64),
        !env.contains_key(p + "MONITOR_INTERVAL"@) ==> env_config(prefix, env).monitor_interval == default_view().monitor_interval,
        env.contains_key(p + "ASYNC_EXECUTION"@) && env[p + "ASYNC_EXECUTION"@] == seq!['t', 'r', 'u', 'e']
            ==> env_config(prefix, env).async_execution == Some(true),
        env.contains_key(p + "ASYNC_EXECUTION"@) && env[p + "ASYNC_EXECUTION"@] == seq!['f', 'a', 'l', 's', 'e']
            ==> env_config(prefix, env).async_execution == Some(false),
        !env.contains_key(p + "ASYNC_EXECUTION"@) ==> env_config(prefix, env).async_execution == default_view().async_execution,
        env.contains_key(p + "STREAMING_EXECUTION"@) && env[p + "STREAMING_EXECUTION"@] == seq!['t', 'r', 'u', 'e']
            ==> env_config(prefix, env).streaming_execution == Some(true),
        env.contains_key(p + "STREAMING_EXECUTION"@) && env[p + "STREAMING_EXECUTION"@] == seq!['f', 'a', 'l', 's', 'e']
            ==> env_config(prefix, env).streaming_execution == Some(false),
        !env.contains_key(p + "STREAMING_EXECUTION"@) ==> env_config(prefix, env).streaming_execution == default_view().streaming_execution,
        env.contains_key(p + "DAEMON_MODE"@) && env[p + "DAEMON_MODE"@] == seq!['t', 'r', 'u', 'e']
            ==> env_config(prefix, env).daemon_mode == Some(true),
        env.contains_key(p + "DAEMON_MODE"@) && env[p + "DAEMON_MODE"@] == seq!['f', 'a', 'l', 's', 'e']
            ==> env_config(prefix, env).daemon_mode == Some(false),
        !env.contains_key(p + "DAEMON_MODE"@) ==> env_config(prefix, env).daemon_mode == default_view().daemon_mode,
        env_config(prefix, env).args == default_view().args,
        env_config(prefix, env).env_vars == default_view().env_vars,
        env_config(prefix, env).dependencies == default_view().dependencies,
{
}

/// The three restart policies `never`, `on-failure` and `always` are
/// accepted: a configuration with one of them is checked as if it named
/// none.
pub proof fn restart_policies_accepted(c: RunConfigView, policy: Seq<char>)
    requires
        policy == "never"@ || policy == "on-failure"@ || policy == "always"@,
    ensures
        config_problem((RunConfigView { restart_policy: Some(policy), ..c })) == config_problem(
            (RunConfigView { restart_policy: None, ..c }),
        ),
{
}

/// Any other restart policy is refused with its name, where the
/// configuration is otherwise valid.
pub proof fn other_restart_policies_refused(c: RunConfigView, policy: Seq<char>)
    requires
        !(policy == "never"@ || policy == "on-failure"@ || policy == "always"@),
        config_problem((RunConfigView { restart_policy: None, ..c })) is None,
    ensures
        config_problem((RunConfigView { restart_policy: Some(policy), ..c })) == Some(
            "Invalid restart policy: "@ + policy,
        ),
{
}

/// A configuration passes the check exactly when it keeps every rule: a
/// name; a type of `node`, `python` or `shell`; a script path; a runtime
/// version for Node.js; a virtual environment for Python; a stream buffer,
/// where given, of 1024 to 65536 bytes; a restart policy, where given, of
/// `never`, `on-failure` or `always`; a check interval, where given, of 100
/// to 60000 ms. A configuration without a name is refused for that first.
pub proof fn validation_rules(c: RunConfigView)
    ensures
        config_problem(c) is None <==> {
            &&& c.name.len() > 0
            &&& (c.script_type == "node"@ || c.script_type == "python"@ || c.script_type
                == "shell"@)
            &&& c.script_path.len() > 0
            &&& (c.script_type == "node"@ ==> c.runtime_version is Some)
            &&& (c.script_type == "python"@ ==> c.venv_path is Some)
            &&& (c.stream_buffer_size is Some ==> 1024 <= c.stream_buffer_size.unwrap() <= 65536)
            &&& (c.restart_policy is Some ==> (c.restart_policy.unwrap() == "never"@
                || c.restart_policy.unwrap() == "on-failure"@ || c.restart_policy.unwrap()
                == "always"@))
            &&& (c.monitor_interval is Some ==> 100 <= c.monitor_interval.unwrap() <= 60000)
        },
        c.name.len() == 0 ==> config_problem(c) == Some("Script name cannot be empty"@),
{
}

} // verus!
