//! Checks of the environment a script needs, and their report.

use vstd::prelude::*;

use crate::node::NodeManager;
use crate::number::{decimal, u64_text};
use crate::py::installer::{default_py_root, PyInstallerConfig};
use crate::py::PyManager;
use crate::run::config::{extension_of, path_extension};
use crate::text::{chars_of, concat2, concat3, owned, seq_eq, seq_view, string_from_chars};

verus! {

/// The outcome of one check.
#[derive(Debug)]
pub struct CheckResult {
    /// What was checked.
    pub name: String,
    /// Whether the check passed.
    pub passed: bool,
    /// What was found.
    pub details: String,
    /// What to do about it, if anything.
    pub suggestion: Option<String>,
}

impl CheckResult {
    /// A check outcome without a suggestion.
    pub fn new(name: &str, passed: bool, details: &str) -> (r: Self)
        ensures
            r.name@ == name@,
            r.passed == passed,
            r.details@ == details@,
            r.suggestion is None,
    {
        CheckResult { name: owned(name), passed, details: owned(details), suggestion: None }
    }

    /// The outcome with a suggestion.
    pub fn with_suggestion(self, suggestion: &str) -> (r: Self)
        ensures
            r.name == self.name,
            r.passed == self.passed,
            r.details == self.details,
            r.suggestion matches Some(s) && s@ == suggestion@,
    {
        let mut r = self;
        r.suggestion = Some(owned(suggestion));
        r
    }

    /// Whether the check passed.
    pub fn is_passed(&self) -> (b: bool)
        ensures
            b == self.passed,
    {
        self.passed
    }
}

/// How many of the outcomes passed.
pub open spec fn passed_count(rs: Seq<CheckResult>) -> nat
    decreases rs.len(),
{
    if rs.len() == 0 {
        0
    } else {
        passed_count(rs.drop_last()) + if rs.last().passed {
            1nat
        } else {
            0nat
        }
    }
}

/// The report lines of one outcome: a mark, its name and details, and its
/// suggestion on a line of its own.
pub open spec fn result_text(r: CheckResult) -> Seq<char> {
    (if r.passed {
        "✓"@
    } else {
        "✗"@
    }) + " "@ + r.name@ + ": "@ + r.details@ + "\n"@ + match r.suggestion {
        Some(s) => "    Suggestion: "@ + s@ + "\n"@,
        None => Seq::empty(),
    }
}

/// The report lines of all outcomes, in order.
pub open spec fn results_text(rs: Seq<CheckResult>) -> Seq<char>
    decreases rs.len(),
{
    if rs.len() == 0 {
        Seq::empty()
    } else {
        results_text(rs.drop_last()) + result_text(rs.last())
    }
}

/// The report of a list of outcomes: a heading, the number that passed out
/// of all, each outcome, and a closing line that says whether all passed.
pub open spec fn report_text(rs: Seq<CheckResult>) -> Seq<char> {
    "=== Environment Check Report ===\n\n"@ + "Summary: "@ + decimal(passed_count(rs)) + "/"@
        + decimal(rs.len()) + " checks passed\n\n"@ + results_text(rs) + if passed_count(rs)
        == rs.len() {
        "\n✅ All checks passed! Environment is ready.\n"@
    } else {
        "\n⚠️  Some checks failed. Please fix the issues above.\n"@
    }
}

/// The script file extensions that can be run.
pub open spec fn runnable_extension(e: Seq<char>) -> bool {
    e == "js"@ || e == "py"@ || e == "sh"@ || e == "bat"@ || e == "cmd"@ || e == "ps1"@
}

/// The extension of a script path as the file check reports it: empty where
/// there is none.
pub open spec fn reported_extension(path: Seq<char>) -> Seq<char> {
    match path_extension(path) {
        Some(e) => e,
        None => Seq::empty(),
    }
}

/// The summary never counts more passed checks than there are checks.
pub proof fn passed_count_bound(rs: Seq<CheckResult>)
    ensures
        passed_count(rs) <= rs.len(),
    decreases rs.len(),
{
    if rs.len() > 0 {
        passed_count_bound(rs.drop_last());
    }
}

fn push_result(out: &mut String, r: &CheckResult)
    ensures
        final(out)@ == old(out)@ + result_text(*r),
{
    if r.passed {
        out.append("✓");
    } else {
        out.append("✗");
    }
    out.append(" ");
    out.append(r.name.as_str());
    out.append(": ");
    out.append(r.details.as_str());
    out.append("\n");
    match &r.suggestion {
        Some(s) => {
            out.append("    Suggestion: ");
            out.append(s.as_str());
            out.append("\n");
        },
        None => {},
    }
    assert(final(out)@ =~= old(out)@ + result_text(*r));
}

/// Checks what a script needs: its file, its runtime, its virtual
/// environment and packages.
#[derive(Debug)]
pub struct SmartChecker {
    node_manager: NodeManager,
    py_manager: PyManager,
}

impl Default for SmartChecker {
    fn default() -> (c: Self)
        ensures
            exists|h: Option<Seq<char>>| c.python_settings().install_dir@ == default_py_root(h),
            c.python_settings().default_version@ == "3.11"@,
            c.python_settings().enable_cache,
    {
        Self::new()
    }
}

impl SmartChecker {
    /// The settings of the Python installer the checker asks.
    pub closed spec fn python_settings(&self) -> PyInstallerConfig {
        self.py_manager.installer_settings()
    }

    /// A checker with the default Node.js and Python managers: the Python
    /// installer works in the default directory for the user's home,
    /// defaults to Python 3.11 and caches.
    pub fn new() -> (c: Self)
        ensures
            exists|h: Option<Seq<char>>| c.python_settings().install_dir@ == default_py_root(h),
            c.python_settings().default_version@ == "3.11"@,
            c.python_settings().enable_cache,
    {
        SmartChecker { node_manager: NodeManager::new(), py_manager: PyManager::new() }
    }

    /// The report of the outcomes `results`.
    pub fn generate_report(&self, results: &[CheckResult]) -> (s: String)
        ensures
            s@ == report_text(results@),
    {
        let mut passed: usize = 0;
        let mut i: usize = 0;
        while i < results.len()
            invariant
                i <= results.len(),
                passed == passed_count(results@.subrange(0, i as int)),
                passed <= i,
            decreases results.len() - i,
        {
            assert(results@.subrange(0, i + 1).drop_last() =~= results@.subrange(0, i as int));
            if results[i].passed {
                passed = passed + 1;
            }
            i = i + 1;
        }
        assert(results@.subrange(0, results.len() as int) =~= results@);
        let mut out = owned("=== Environment Check Report ===\n\n");
        out.append("Summary: ");
        let p = u64_text(passed as u64);
        out.append(p.as_str());
        out.append("/");
        let t = u64_text(results.len() as u64);
        out.append(t.as_str());
        out.append(" checks passed\n\n");
        let ghost head = out@;
        let mut j: usize = 0;
        while j < results.len()
            invariant
                j <= results.len(),
                out@ == head + results_text(results@.subrange(0, j as int)),
            decreases results.len() - j,
        {
            assert(results@.subrange(0, j + 1).drop_last() =~= results@.subrange(0, j as int));
            push_result(&mut out, &results[j]);
            j = j + 1;
            assert(out@ =~= head + results_text(results@.subrange(0, j as int)));
        }
        if passed == results.len() {
            out.append("\n✅ All checks passed! Environment is ready.\n");
        } else {
            out.append("\n⚠️  Some checks failed. Please fix the issues above.\n");
        }
        assert(out@ =~= report_text(results@));
        out
    }

    /// The outcome of the Node.js runtime check for `version` (`latest`
    /// where none is given), given whether it is installed.
    pub fn node_runtime_result(&self, version: Option<&str>, installed: bool) -> (r: CheckResult)
        ensures
            ({
                let v = match version {
                    Some(x) => x@,
                    None => "latest"@,
                };
                &&& r.name@ == "Node.js Runtime"@
                &&& r.passed == installed
                &&& installed ==> r.details@ == "Node.js "@ + v + " is installed and ready"@
                    && r.suggestion is None
                &&& !installed ==> r.details@ == "Node.js "@ + v + " is not installed"@
                    && (r.suggestion matches Some(s) && s@ == "Run: node install "@ + v)
            }),
    {
        let v = match version {
            Some(x) => x,
            None => "latest",
        };
        if installed {
            let d = concat3("Node.js ", v, " is installed and ready");
            CheckResult::new("Node.js Runtime", true, d.as_str())
        } else {
            let d = concat3("Node.js ", v, " is not installed");
            let s = concat2("Run: node install ", v);
            CheckResult::new("Node.js Runtime", false, d.as_str()).with_suggestion(s.as_str())
        }
    }

    /// The outcome of the Python runtime check for `version` (`3.11` where
    /// none is given), given whether it is installed.
    pub fn python_runtime_result(&self, version: Option<&str>, installed: bool) -> (r: CheckResult)
        ensures
            ({
                let v = match version {
                    Some(x) => x@,
                    None => "3.11"@,
                };
                &&& r.name@ == "Python Runtime"@
                &&& r.passed == installed
                &&& installed ==> r.details@ == "Python "@ + v + " is installed and ready"@
                    && r.suggestion is None
                &&& !installed ==> r.details@ == "Python "@ + v + " is not installed"@
                    && (r.suggestion matches Some(s) && s@ == "Run: python install "@ + v)
            }),
    {
        let v = match version {
            Some(x) => x,
            None => "3.11",
        };
        if installed {
            let d = concat3("Python ", v, " is installed and ready");
            CheckResult::new("Python Runtime", true, d.as_str())
        } else {
            let d = concat3("Python ", v, " is not installed");
            let s = concat2("Run: python install ", v);
            CheckResult::new("Python Runtime", false, d.as_str()).with_suggestion(s.as_str())
        }
    }

    /// The outcome of the virtual environment check, given whether the
    /// environment exists.
    pub fn venv_result(&self, venv_path: &str, exists: bool) -> (r: CheckResult)
        ensures
            r.name@ == "Virtual Environment"@,
            r.passed == exists,
            exists ==> r.details@ == "Virtual environment at '"@ + venv_path@ + "' exists"@
                && r.suggestion is None,
            !exists ==> r.details@ == "Virtual environment at '"@ + venv_path@
                + "' does not exist"@ && (r.suggestion matches Some(s) && s@
                == "Run: python venv create "@ + venv_path@),
    {
        if exists {
            let d = concat3("Virtual environment at '", venv_path, "' exists");
            CheckResult::new("Virtual Environment", true, d.as_str())
        } else {
            let d = concat3("Virtual environment at '", venv_path, "' does not exist");
            let s = concat2("Run: python venv create ", venv_path);
            CheckResult::new("Virtual Environment", false, d.as_str()).with_suggestion(s.as_str())
        }
    }

    /// The outcome of the system command check, given whether the command
    /// was found.
    pub fn system_command_result(&self, command: &str, exists: bool) -> (r: CheckResult)
        ensures
            r.name@ == "System Command"@,
            r.passed == exists,
            r.suggestion is None,
            exists ==> r.details@ == "Command '"@ + command@ + "' is available"@,
            !exists ==> r.details@ == "Command '"@ + command@ + "' is not available"@,
    {
        if exists {
            let d = concat3("Command '", command, "' is available");
            CheckResult::new("System Command", true, d.as_str())
        } else {
            let d = concat3("Command '", command, "' is not available");
            CheckResult::new("System Command", false, d.as_str())
        }
    }

    /// The outcome of the script file check, given what the disk says:
    /// whether something is at the path, whether it is a file, and whether
    /// it could be read. A file must have the extension `js`, `py`, `sh`,
    /// `bat`, `cmd` or `ps1`.
    pub fn script_file_result(&self, script_path: &str, exists: bool, is_file: bool, readable: bool) -> (r: CheckResult)
        ensures
            r.name@ == "Script File"@,
            r.passed == (exists && is_file && readable && runnable_extension(
                reported_extension(script_path@),
            )),
            !exists ==> r.details@ == "Script file '"@ + script_path@ + "' does not exist"@
                && r.suggestion is None,
            exists && !is_file ==> r.details@ == "'"@ + script_path@ + "' is not a file"@
                && r.suggestion is None,
            exists && is_file && !readable ==> r.details@ == "Script file '"@ + script_path@
                + "' is not readable"@ && r.suggestion is None,
            exists && is_file && readable && !runnable_extension(reported_extension(script_path@))
                ==> r.details@ == "File extension '"@ + reported_extension(script_path@)
                + "' is not supported"@ && (r.suggestion matches Some(s) && s@
                == "Supported extensions: js, py, sh, bat, cmd, ps1"@),
            r.passed ==> r.details@ == "Script file '"@ + script_path@ + "' is valid"@
                && r.suggestion is None,
    {
        if !exists {
            let d = concat3("Script file '", script_path, "' does not exist");
            return CheckResult::new("Script File", false, d.as_str());
        }
        if !is_file {
            let d = concat3("'", script_path, "' is not a file");
            return CheckResult::new("Script File", false, d.as_str());
        }
        if !readable {
            let d = concat3("Script file '", script_path, "' is not readable");
            return CheckResult::new("Script File", false, d.as_str());
        }
        let ext = match extension_of(script_path) {
            Some(e) => e,
            None => String::new(),
        };
        let e = chars_of(ext.as_str());
        let ok = seq_eq(&e, &chars_of("js")) || seq_eq(&e, &chars_of("py")) || seq_eq(
            &e,
            &chars_of("sh"),
        ) || seq_eq(&e, &chars_of("bat")) || seq_eq(&e, &chars_of("cmd")) || seq_eq(
            &e,
            &chars_of("ps1"),
        );
        if !ok {
            let d = concat3("File extension '", ext.as_str(), "' is not supported");
            return CheckResult::new("Script File", false, d.as_str()).with_suggestion(
                "Supported extensions: js, py, sh, bat, cmd, ps1",
            );
        }
        let d = concat3("Script file '", script_path, "' is valid");
        CheckResult::new("Script File", true, d.as_str())
    }
}

/// The outcome of the check of package `package` in the environment at
/// `venv`, given the installed packages.
pub open spec fn dependency_check(r: CheckResult, venv: Seq<char>, package: Seq<char>, installed: Seq<Seq<char>>) -> bool {
    let ok = installed.contains(package);
    &&& r.name@ == "Dependency: "@ + package
    &&& r.passed == ok
    &&& ok ==> r.details@ == "Package '"@ + package + "' is installed"@ && r.suggestion is None
    &&& !ok ==> r.details@ == "Package '"@ + package + "' is not installed"@ && (
    r.suggestion matches Some(s) && s@ == "Run: python install "@ + venv + " "@ + package)
}

/// A check to run for a script, in the order of the plan.
#[derive(Clone, Copy, Debug, PartialEq, Eq, Structural)]
pub enum EnvCheck {
    /// The script file.
    ScriptFile,
    /// The Node.js runtime.
    NodeRuntime,
    /// The Python runtime.
    PythonRuntime,
    /// The virtual environment.
    VirtualEnvironment,
    /// The packages, in the virtual environment.
    Dependencies,
    /// The `sh` command.
    ShellCommand,
    /// A script type that cannot be run, reported as a failed check.
    UnsupportedType,
}

/// The checks a script needs: its file; then for `node` the runtime; for
/// `python` the runtime, and where a virtual environment is named, that
/// environment and, where dependencies are named, the packages; for `shell`
/// the `sh` command; for any other type a failed type check.
pub open spec fn env_plan(script_type: Seq<char>, has_venv: bool, has_deps: bool) -> Seq<EnvCheck> {
    seq![EnvCheck::ScriptFile] + if script_type == "node"@ {
        seq![EnvCheck::NodeRuntime]
    } else if script_type == "python"@ {
        seq![EnvCheck::PythonRuntime] + if has_venv {
            seq![EnvCheck::VirtualEnvironment] + if has_deps {
                seq![EnvCheck::Dependencies]
            } else {
                Seq::empty()
            }
        } else {
            Seq::empty()
        }
    } else if script_type == "shell"@ {
        seq![EnvCheck::ShellCommand]
    } else {
        seq![EnvCheck::UnsupportedType]
    }
}

impl SmartChecker {
    /// The outcomes of the package checks: where the environment does not
    /// exist, its failed check alone; else one outcome per package, in
    /// order, by whether `installed` lists it.
    pub fn dependency_results(&self, venv_path: &str, venv_exists: bool, packages: &[&str], installed: &Vec<String>) -> (r: Vec<CheckResult>)
        ensures
            !venv_exists ==> r.len() == 1 && r@[0].name@ == "Virtual Environment"@ && !r@[0].passed,
            venv_exists ==> r.len() == packages.len() && forall|i: int|
                0 <= i < packages.len() ==> dependency_check(
                    #[trigger] r@[i],
                    venv_path@,
                    packages@[i]@,
                    seq_view(installed@),
                ),
    {
        let mut out: Vec<CheckResult> = Vec::new();
        if !venv_exists {
            out.push(self.venv_result(venv_path, false));
            return out;
        }
        let mut i: usize = 0;
        while i < packages.len()
            invariant
                i <= packages.len(),
                out.len() == i,
                forall|j: int|
                    0 <= j < i ==> dependency_check(
                        #[trigger] out@[j],
                        venv_path@,
                        packages@[j]@,
                        seq_view(installed@),
                    ),
            decreases packages.len() - i,
        {
            let p = packages[i];
            let ok = listed(installed, p);
            let name = concat2("Dependency: ", p);
            let r = if ok {
                let d = concat3("Package '", p, "' is installed");
                CheckResult::new(name.as_str(), true, d.as_str())
            } else {
                let d = concat3("Package '", p, "' is not installed");
                let mut s = concat3("Run: python install ", venv_path, " ");
                s.append(p);
                CheckResult::new(name.as_str(), false, d.as_str()).with_suggestion(s.as_str())
            };
            out.push(r);
            i = i + 1;
        }
        out
    }

    /// The outcome of an unsupported script type.
    pub fn unsupported_type_result(&self, script_type: &str) -> (r: CheckResult)
        ensures
            r.name@ == "Script Type"@,
            !r.passed,
            r.details@ == "Unsupported script type: "@ + script_type@,
            r.suggestion is None,
    {
        let d = concat2("Unsupported script type: ", script_type);
        CheckResult::new("Script Type", false, d.as_str())
    }

    /// The checks a script of type `script_type` needs, in order.
    pub fn environment_plan(&self, script_type: &str, has_venv: bool, has_deps: bool) -> (r: Vec<EnvCheck>)
        ensures
            r@ == env_plan(script_type@, has_venv, has_deps),
    {
        let mut out: Vec<EnvCheck> = Vec::new();
        out.push(EnvCheck::ScriptFile);
        let t = chars_of(script_type);
        if seq_eq(&t, &chars_of("node")) {
            out.push(EnvCheck::NodeRuntime);
        } else if seq_eq(&t, &chars_of("python")) {
            out.push(EnvCheck::PythonRuntime);
            if has_venv {
                out.push(EnvCheck::VirtualEnvironment);
                if has_deps {
                    out.push(EnvCheck::Dependencies);
                }
            }
        } else if seq_eq(&t, &chars_of("shell")) {
            out.push(EnvCheck::ShellCommand);
        } else {
            out.push(EnvCheck::UnsupportedType);
        }
        assert(out@ =~= env_plan(script_type@, has_venv, has_deps));
        out
    }
}

fn listed(installed: &Vec<String>, package: &str) -> (b: bool)
    ensures
        b == seq_view(installed@).contains(package@),
{
    let p = chars_of(package);
    let mut i: usize = 0;
    while i < installed.len()
        invariant
            i <= installed.len(),
            p@ == package@,
            forall|j: int| 0 <= j < i ==> installed@[j]@ != package@,
        decreases installed.len() - i,
    {
        if seq_eq(&chars_of(installed[i].as_str()), &p) {
            assert(seq_view(installed@)[i as int] == package@);
            return true;
        }
        i = i + 1;
    }
    assert forall|j: int| 0 <= j < seq_view(installed@).len() implies seq_view(installed@)[j] != package@ by {
        assert(seq_view(installed@)[j] == installed@[j]@);
    }
    false
}

/// The count of passed checks equals the number of checks exactly when
/// every check passed, so the report's closing line says all passed exactly
/// then.
pub proof fn all_passed_iff_count(rs: Seq<CheckResult>)
    ensures
        (passed_count(rs) == rs.len()) <==> (forall|i: int| 0 <= i < rs.len() ==> #[trigger] rs[i].passed),
    decreases rs.len(),
{
    if rs.len() > 0 {
        all_passed_iff_count(rs.drop_last());
        passed_count_bound(rs.drop_last());
        if passed_count(rs) == rs.len() {
            assert forall|i: int| 0 <= i < rs.len() implies #[trigger] rs[i].passed by {
                if i < rs.len() - 1 {
                    assert(rs.drop_last()[i] == rs[i]);
                }
            }
        }
        if forall|i: int| 0 <= i < rs.len() ==> #[trigger] rs[i].passed {
            assert(rs.last().passed);
            assert forall|i: int| 0 <= i < rs.drop_last().len() implies #[trigger] rs.drop_last()[i].passed by {
                assert(rs.drop_last()[i] == rs[i]);
            }
        }
    }
}

/// The summary counts the checks that passed, wherever they stand: the
/// count is the number of outcomes whose flag is set.
pub proof fn passed_count_is_number_passed(rs: Seq<CheckResult>)
    ensures
        passed_count(rs) == rs.filter(|r: CheckResult| r.passed).len(),
    decreases rs.len(),
{
    reveal(Seq::filter);
    if rs.len() > 0 {
        passed_count_is_number_passed(rs.drop_last());
    }
}

/// The passed checks of two lists of outcomes, one after the other, are
/// those of the first and those of the second.
pub proof fn passed_count_of_concat(a: Seq<CheckResult>, b: Seq<CheckResult>)
    ensures
        passed_count(a + b) == passed_count(a) + passed_count(b),
    decreases b.len(),
{
    if b.len() == 0 {
        assert(a + b =~= a);
    } else {
        passed_count_of_concat(a, b.drop_last());
        assert((a + b).drop_last() =~= a + b.drop_last());
    }
}

/// One outcome counts one passed check where it passed, none where it failed.
pub proof fn passed_count_of_one(r: CheckResult)
    ensures
        passed_count(seq![r]) == (if r.passed {
            1nat
        } else {
            0nat
        }),
{
    assert(seq![r].drop_last() =~= Seq::<CheckResult>::empty());
    assert(seq![r].last() == r);
    assert(passed_count(Seq::<CheckResult>::empty()) == 0);
}

/// Every plan checks the script file first; the packages are checked only
/// for a Python script with both a virtual environment and dependencies,
/// and then right after that environment, last.
pub proof fn env_plan_shape(script_type: Seq<char>, has_venv: bool, has_deps: bool)
    ensures
        env_plan(script_type, has_venv, has_deps)[0] == EnvCheck::ScriptFile,
        script_type == "python"@ && has_venv && has_deps ==> env_plan(script_type, has_venv, has_deps)
            == seq![EnvCheck::ScriptFile, EnvCheck::PythonRuntime, EnvCheck::VirtualEnvironment, EnvCheck::Dependencies],
        !(script_type == "python"@ && has_venv && has_deps) ==> !env_plan(script_type, has_venv, has_deps).contains(
            EnvCheck::Dependencies,
        ),
        env_plan(script_type, has_venv, has_deps).len() <= 4,
{
    let p = env_plan(script_type, has_venv, has_deps);
    reveal_strlit("node");
    reveal_strlit("python");
    assert("python"@ != "node"@) by {
        assert("python"@.len() != "node"@.len());
    }
    if script_type == "python"@ && has_venv && has_deps {
        assert(p =~= seq![EnvCheck::ScriptFile, EnvCheck::PythonRuntime, EnvCheck::VirtualEnvironment, EnvCheck::Dependencies]);
    } else {
        if p.contains(EnvCheck::Dependencies) {
            let k = choose|k: int| 0 <= k < p.len() && p[k] == EnvCheck::Dependencies;
            assert(p[k] == EnvCheck::Dependencies);
        }
    }
}

/// The report lists the outcomes of two runs of checks one after the other,
/// each in its order.
pub proof fn results_text_of_concat(a: Seq<CheckResult>, b: Seq<CheckResult>)
    ensures
        results_text(a + b) == results_text(a) + results_text(b),
    decreases b.len(),
{
    if b.len() == 0 {
        assert(a + b =~= a);
        assert(results_text(a) + results_text(b) =~= results_text(a));
    } else {
        results_text_of_concat(a, b.drop_last());
        assert((a + b).drop_last() =~= a + b.drop_last());
        assert((a + b).last() == b.last());
        assert(results_text(a) + results_text(b.drop_last()) + result_text(b.last()) =~= results_text(a)
            + (results_text(b.drop_last()) + result_text(b.last())));
    }
}

/// One outcome is listed as its own lines.
pub proof fn results_text_of_one(r: CheckResult)
    ensures
        results_text(seq![r]) == result_text(r),
{
    assert(seq![r].drop_last() =~= Seq::<CheckResult>::empty());
    assert(seq![r].last() == r);
    assert(results_text(Seq::<CheckResult>::empty()) == Seq::<char>::empty());
    assert(Seq::<char>::empty() + result_text(r) =~= result_text(r));
}

} // verus!
