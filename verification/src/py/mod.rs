//! Python runtimes and virtual environments, through `uv`.

use vstd::prelude::*;

use crate::error::Error;
use crate::lexical::{lines, lines_exec, trim, trim_exec};
use crate::path::{join, join_on, join_path, join_path_on, OsFamily};
use crate::text::{
    chars_of, concat2, concat3, contains, lower_seq, owned, seq_view, string_from_chars, vec_contains,
    vec_lower,
};

pub mod installer;
pub mod manager;

verus! {

/// The virtual environment used when none is named.
pub open spec fn default_venv() -> Seq<char> {
    ".venv"@
}

/// The directory of a virtual environment that holds its programs:
/// `Scripts` on Windows, `bin` elsewhere.
pub open spec fn venv_bin_dir(venv: Seq<char>, os: OsFamily) -> Seq<char> {
    if os == OsFamily::Windows {
        join_on(venv, "Scripts"@, os)
    } else {
        join_on(venv, "bin"@, os)
    }
}

/// The Python executable of a virtual environment: `Scripts/python.exe` on
/// Windows, `bin/python3` elsewhere.
pub open spec fn venv_python(venv: Seq<char>, os: OsFamily) -> Seq<char> {
    if os == OsFamily::Windows {
        join_on(venv_bin_dir(venv, os), "python.exe"@, os)
    } else {
        join_on(venv_bin_dir(venv, os), "python3"@, os)
    }
}

/// The paths looked at to tell whether `venv` is a virtual environment, in
/// order: the directory, its `pyvenv.cfg`, its Python.
pub open spec fn venv_probes(venv: Seq<char>, os: OsFamily) -> Seq<Seq<char>> {
    seq![venv, join_on(venv, "pyvenv.cfg"@, os), venv_python(venv, os)]
}

/// Whether a `PATH` entry belongs to a virtual environment: in lower case it
/// holds `venv` and either `scripts` or `bin`.
pub open spec fn is_venv_entry(entry: Seq<char>) -> bool {
    let l = lower_seq(entry);
    (contains(l, "scripts"@) && contains(l, "venv"@)) || (contains(l, "bin"@) && contains(
        l,
        "venv"@,
    ))
}

/// The package lines of a `pip list --format freeze` output: each line
/// without surrounding white space, where anything is left.
pub open spec fn freeze_entries(ls: Seq<Seq<char>>) -> Seq<Seq<char>>
    decreases ls.len(),
{
    if ls.len() == 0 {
        Seq::empty()
    } else {
        let rest = freeze_entries(ls.drop_last());
        let t = trim(ls.last());
        if t.len() > 0 {
            rest.push(t)
        } else {
            rest
        }
    }
}

/// The entries that do not belong to a virtual environment, in order.
pub open spec fn without_venv_entries(paths: Seq<Seq<char>>) -> Seq<Seq<char>>
    decreases paths.len(),
{
    if paths.len() == 0 {
        Seq::empty()
    } else {
        let rest = without_venv_entries(paths.drop_last());
        if is_venv_entry(paths.last()) {
            rest
        } else {
            rest.push(paths.last())
        }
    }
}

/// Virtual environments and packages, with the Python installer they use.
#[derive(Debug)]
pub struct PyManager {
    installer: installer::PyInstaller,
}

impl Default for PyManager {
    fn default() -> (m: Self)
        ensures
            exists|h: Option<Seq<char>>| m.installer_settings().install_dir@
                == installer::default_py_root(h),
            m.installer_settings().default_version@ == "3.11"@,
            m.installer_settings().enable_cache,
    {
        Self::new()
    }
}

impl PyManager {
    /// The installer the manager uses.
    pub closed spec fn installer_settings(&self) -> installer::PyInstallerConfig {
        self.installer.settings()
    }

    /// A manager with the default installer for the user's home directory.
    pub fn new() -> (m: Self)
        ensures
            exists|h: Option<Seq<char>>| m.installer_settings().install_dir@
                == installer::default_py_root(h),
            m.installer_settings().default_version@ == "3.11"@,
            m.installer_settings().enable_cache,
    {
        PyManager { installer: installer::PyInstaller::new() }
    }

    /// A manager whose installer has the given settings.
    pub fn with_config(config: installer::PyInstallerConfig) -> (m: Self)
        ensures
            m.installer_settings() == config,
    {
        PyManager { installer: installer::PyInstaller::with_config(config) }
    }

    /// The installer the manager uses.
    pub fn installer(&self) -> (i: &installer::PyInstaller)
        ensures
            i.settings() == self.installer_settings(),
    {
        &self.installer
    }

    /// The virtual environment to use: the one named, else `.venv`.
    pub fn venv_or_default(path: Option<&str>) -> (p: String)
        ensures
            p@ == (match path {
                Some(x) => x@,
                None => default_venv(),
            }),
    {
        match path {
            Some(x) => owned(x),
            None => owned(".venv"),
        }
    }

    /// The interpreter that `uv venv --python` is given for a version:
    /// `python` followed by the version.
    pub fn interpreter_request(version: &str) -> (r: String)
        ensures
            r@ == "python"@ + version@,
    {
        concat2("python", version)
    }

    /// The directory of a virtual environment that holds its programs.
    pub fn bin_dir(venv_path: &str, os: OsFamily) -> (d: String)
        ensures
            d@ == venv_bin_dir(venv_path@, os),
    {
        match os {
            OsFamily::Windows => join_path_on(venv_path, "Scripts", os),
            _ => join_path_on(venv_path, "bin", os),
        }
    }

    /// The Python executable of a virtual environment.
    pub fn python_in_venv(venv_path: &str, os: OsFamily) -> (p: String)
        ensures
            p@ == venv_python(venv_path@, os),
    {
        let dir = Self::bin_dir(venv_path, os);
        match os {
            OsFamily::Windows => join_path_on(dir.as_str(), "python.exe", os),
            _ => join_path_on(dir.as_str(), "python3", os),
        }
    }

    /// The file that marks a directory as a virtual environment.
    pub fn venv_marker(venv_path: &str) -> (p: String)
        ensures
            p@ == join(venv_path@, "pyvenv.cfg"@),
    {
        join_path(venv_path, "pyvenv.cfg")
    }

    /// The paths looked at to tell whether `venv_path` is a virtual
    /// environment, in order: the directory, its `pyvenv.cfg`, its Python.
    pub fn venv_probe_paths(venv_path: &str, os: OsFamily) -> (r: Vec<String>)
        ensures
            seq_view(r@) == venv_probes(venv_path@, os),
    {
        let mut r: Vec<String> = Vec::new();
        r.push(owned(venv_path));
        r.push(join_path_on(venv_path, "pyvenv.cfg", os));
        r.push(Self::python_in_venv(venv_path, os));
        assert(seq_view(r@) =~= venv_probes(venv_path@, os));
        r
    }

    /// Whether a virtual environment is usable: every probed path is
    /// present and its Python ran.
    pub fn venv_usable(present: &Vec<bool>, python_runs: bool) -> (b: bool)
        ensures
            b == ((forall|i: int| 0 <= i < present.len() ==> present@[i]) && python_runs),
    {
        let mut i: usize = 0;
        while i < present.len()
            invariant
                i <= present.len(),
                forall|j: int| 0 <= j < i ==> present@[j],
            decreases present.len() - i,
        {
            if !present[i] {
                return false;
            }
            i = i + 1;
        }
        python_runs
    }

    /// The Python of the virtual environment at `venv_path`, given whether
    /// the environment is usable, whether its Python is present and whether
    /// it ran: the environment's, its Python's or the invalid Python's
    /// error where one of these fails.
    pub fn venv_python_outcome(venv_path: &str, os: OsFamily, venv_ok: bool, python_present: bool, python_runs: bool) -> (r: Result<String, Error>)
        ensures
            r is Ok <==> venv_ok && python_present && python_runs,
            r matches Ok(p) ==> p@ == venv_python(venv_path@, os),
            !venv_ok ==> (r matches Err(Error::VirtualEnvironmentNotFound(m)) && m@ == venv_path@),
            venv_ok && !python_present ==> (r matches Err(Error::PythonExecutableNotFound(m)) && m@
                == venv_python(venv_path@, os)),
            venv_ok && python_present && !python_runs ==> (r matches Err(
                Error::PythonExecutableNotValid(m),
            ) && m@ == venv_python(venv_path@, os)),
    {
        if !venv_ok {
            return Err(Error::VirtualEnvironmentNotFound(owned(venv_path)));
        }
        let exe = Self::python_in_venv(venv_path, os);
        if !python_present {
            return Err(Error::PythonExecutableNotFound(exe));
        }
        if !python_runs {
            return Err(Error::PythonExecutableNotValid(exe));
        }
        Ok(exe)
    }

    /// The system Python command: `python` on Windows, `python3` elsewhere.
    pub fn system_python(os: OsFamily) -> (c: &'static str)
        ensures
            c@ == (if os == OsFamily::Windows {
                "python"@
            } else {
                "python3"@
            }),
    {
        match os {
            OsFamily::Windows => "python",
            _ => "python3",
        }
    }

    /// The file a script is run from: the script itself where it names an
    /// existing file, else a temporary file in `temp_dir` that the script's
    /// text is written to. The flag says whether it is the temporary file.
    pub fn script_target(script: &str, is_existing_file: bool, temp_dir: &str) -> (r: (String, bool))
        ensures
            is_existing_file ==> r.0@ == script@ && !r.1,
            !is_existing_file ==> r.0@ == join(temp_dir@, "ai00_run_script.py"@) && r.1,
    {
        if is_existing_file {
            (owned(script), false)
        } else {
            (join_path(temp_dir, "ai00_run_script.py"), true)
        }
    }

    /// The message when running a script in the virtual environment at
    /// `path` fails: it names the script file where the script was one, and
    /// not where its text was run from a temporary file.
    pub fn script_failure_message(temporary: bool, script: &str, path: &str) -> (m: String)
        ensures
            temporary ==> m@ == "Failed to run script in virtual environment at "@ + path@,
            !temporary ==> m@ == "Failed to run script "@ + script@ + " in virtual environment at "@
                + path@,
    {
        if temporary {
            concat2("Failed to run script in virtual environment at ", path)
        } else {
            let mut m = concat3("Failed to run script ", script, " in virtual environment at ");
            m.append(path);
            m
        }
    }

    /// The Python executable of `version`: the path `uv python which` gave
    /// where it exists, else the system Python where it reports that
    /// version, else a runtime error.
    pub fn python_path_choice(version: &str, uv_path: Option<String>, system_path: Option<String>) -> (r: Result<String, Error>)
        ensures
            uv_path is Some ==> r == Ok::<String, Error>(uv_path.unwrap()),
            uv_path is None && system_path is Some ==> r == Ok::<String, Error>(system_path.unwrap()),
            uv_path is None && system_path is None ==> (r matches Err(Error::Runtime(m)) && m@
                == "Python version "@ + version@ + " not found or not installed"@),
    {
        match uv_path {
            Some(p) => Ok(p),
            None => match system_path {
                Some(p) => Ok(p),
                None => Err(Error::Runtime(concat3("Python version ", version, " not found or not installed"))),
            },
        }
    }

    /// Whether the system Python's `--version` output reports `version`: it
    /// ran and its output holds the version text.
    pub fn reports_version(success: bool, output: &str, version: &str) -> (b: bool)
        ensures
            b == (success && contains(output@, version@)),
    {
        success && vec_contains(&chars_of(output), &chars_of(version))
    }

    /// The packages of a `pip list --format freeze` output: its non-blank
    /// lines, without surrounding white space.
    pub fn parse_freeze_list(output: &str) -> (r: Vec<String>)
        ensures
            seq_view(r@) == freeze_entries(lines(output@)),
    {
        let ls = lines_exec(&chars_of(output));
        let ghost all = lines(output@);
        let mut out: Vec<String> = Vec::new();
        let mut i: usize = 0;
        while i < ls.len()
            invariant
                i <= ls.len(),
                ls@.map_values(|v: Vec<char>| v@) == all,
                seq_view(out@) == freeze_entries(all.subrange(0, i as int)),
            decreases ls.len() - i,
        {
            assert(ls@[i as int]@ == all[i as int]);
            assert(all.subrange(0, i + 1).drop_last() =~= all.subrange(0, i as int));
            assert(all.subrange(0, i + 1).last() == all[i as int]);
            let t = trim_exec(&ls[i]);
            if t.len() > 0 {
                let ghost prev = seq_view(out@);
                out.push(string_from_chars(&t));
                assert(seq_view(out@) =~= prev.push(t@));
            }
            i = i + 1;
        }
        assert(all.subrange(0, ls.len() as int) =~= all);
        out
    }

    /// Whether a `PATH` entry belongs to a virtual environment.
    pub fn is_venv_path_entry(entry: &str) -> (b: bool)
        ensures
            b == is_venv_entry(entry@),
    {
        let l = vec_lower(&chars_of(entry));
        let venv = vec_contains(&l, &chars_of("venv"));
        (vec_contains(&l, &chars_of("scripts")) && venv) || (vec_contains(&l, &chars_of("bin"))
            && venv)
    }

    /// The `PATH` entries without those of virtual environments, in order.
    pub fn without_venv_paths(paths: &Vec<String>) -> (r: Vec<String>)
        ensures
            seq_view(r@) == without_venv_entries(seq_view(paths@)),
    {
        let ghost all = seq_view(paths@);
        let mut out: Vec<String> = Vec::new();
        let mut i: usize = 0;
        while i < paths.len()
            invariant
                i <= paths.len(),
                all == seq_view(paths@),
                seq_view(out@) == without_venv_entries(all.subrange(0, i as int)),
            decreases paths.len() - i,
        {
            assert(all.subrange(0, i + 1).drop_last() =~= all.subrange(0, i as int));
            assert(all.subrange(0, i + 1).last() == paths@[i as int]@);
            if !Self::is_venv_path_entry(paths[i].as_str()) {
                let ghost prev = seq_view(out@);
                out.push(paths[i].clone());
                assert(seq_view(out@) =~= prev.push(paths@[i as int]@));
            }
            i = i + 1;
        }
        assert(all.subrange(0, paths.len() as int) =~= all);
        out
    }

    /// The `PATH` entries with the virtual environment's program directory
    /// put first.
    pub fn with_venv_first(venv_path: &str, os: OsFamily, paths: &Vec<String>) -> (r: Vec<String>)
        ensures
            seq_view(r@) == seq![venv_bin_dir(venv_path@, os)] + seq_view(paths@),
    {
        let mut out: Vec<String> = Vec::new();
        out.push(Self::bin_dir(venv_path, os));
        let mut i: usize = 0;
        while i < paths.len()
            invariant
                i <= paths.len(),
                seq_view(out@) == seq![venv_bin_dir(venv_path@, os)] + seq_view(paths@).subrange(
                    0,
                    i as int,
                ),
            decreases paths.len() - i,
        {
            let ghost prev = seq_view(out@);
            out.push(paths[i].clone());
            assert(seq_view(out@) =~= prev.push(paths@[i as int]@));
            assert(seq_view(paths@).subrange(0, i + 1) =~= seq_view(paths@).subrange(0, i as int).push(
                paths@[i as int]@,
            ));
            i = i + 1;
        }
        assert(seq_view(paths@).subrange(0, paths.len() as int) =~= seq_view(paths@));
        out
    }
}

/// The packages of two runs of lines, one after the other, are those of the
/// first run and then those of the second.
pub proof fn freeze_entries_of_concat(a: Seq<Seq<char>>, b: Seq<Seq<char>>)
    ensures
        freeze_entries(a + b) == freeze_entries(a) + freeze_entries(b),
    decreases b.len(),
{
    if b.len() == 0 {
        assert(a + b =~= a);
        assert(freeze_entries(a) + freeze_entries(b) =~= freeze_entries(a));
    } else {
        freeze_entries_of_concat(a, b.drop_last());
        assert((a + b).drop_last() =~= a + b.drop_last());
        assert((a + b).last() == b.last());
        assert((freeze_entries(a) + freeze_entries(b.drop_last())).push(trim(b.last())) =~= freeze_entries(a) + freeze_entries(b.drop_last()).push(trim(b.last())));
    }
}

/// Removing the virtual-environment entries from two runs of entries, one
/// after the other, removes them from each run in turn.
pub proof fn without_venv_entries_of_concat(a: Seq<Seq<char>>, b: Seq<Seq<char>>)
    ensures
        without_venv_entries(a + b) == without_venv_entries(a) + without_venv_entries(b),
    decreases b.len(),
{
    if b.len() == 0 {
        assert(a + b =~= a);
        assert(without_venv_entries(a) + without_venv_entries(b) =~= without_venv_entries(a));
    } else {
        without_venv_entries_of_concat(a, b.drop_last());
        assert((a + b).drop_last() =~= a + b.drop_last());
        assert((a + b).last() == b.last());
        assert((without_venv_entries(a) + without_venv_entries(b.drop_last())).push(b.last()) =~= without_venv_entries(a) + without_venv_entries(b.drop_last()).push(b.last()));
    }
}

/// One line gives its trimmed text as a package, where anything is left.
pub proof fn freeze_entries_of_one(l: Seq<char>)
    ensures
        trim(l).len() > 0 ==> freeze_entries(seq![l]) == seq![trim(l)],
        trim(l).len() == 0 ==> freeze_entries(seq![l]) == Seq::<Seq<char>>::empty(),
{
    assert(seq![l].drop_last() =~= Seq::<Seq<char>>::empty());
    assert(seq![l].last() == l);
    assert(freeze_entries(Seq::<Seq<char>>::empty()) == Seq::<Seq<char>>::empty());
    assert(Seq::<Seq<char>>::empty().push(trim(l)) =~= seq![trim(l)]);
}

/// The entries kept are exactly those that do not belong to a virtual
/// environment, in their order.
pub proof fn without_venv_entries_is_filter(paths: Seq<Seq<char>>)
    ensures
        without_venv_entries(paths) == paths.filter(|e: Seq<char>| !is_venv_entry(e)),
    decreases paths.len(),
{
    reveal(Seq::filter);
    if paths.len() > 0 {
        without_venv_entries_is_filter(paths.drop_last());
    }
}

} // verus!
