//! Python versions: the version rules, the installer's settings, and reading
//! what `uv python list` prints.

use vstd::prelude::*;

use crate::error::Error;
use crate::host;
use crate::lexical::{lines, lines_exec, split, split_around_separator, split_exec, split_without_sep};
use crate::number::{parse_decimal, parse_u32};
use crate::order::{flip, num_rank, ordering_of, to_ordering, Rank};
use crate::path::{join, join_path};
use crate::text::{
    chars_of, concat2, contains, first_occurrence, occurs_at, find_exec, opt_view, owned, seq_eq,
    starts_with, string_from_chars, vec_contains, vec_slice, vec_skip, vec_starts_with,
};

verus! {

// ---------------------------------------------------------------------------
// Version rules
// ---------------------------------------------------------------------------

/// What `str::parse::<u32>` reads from `t`, if it reads.
pub open spec fn u32_value(t: Seq<char>) -> Option<nat> {
    match parse_decimal(t) {
        Some(n) => if n <= u32::MAX {
            Some(n)
        } else {
            None
        },
        None => None,
    }
}

/// What is wrong with a Python version text, if anything: the message of the
/// error that `validate_python_version` gives. A version is `3.{minor}` or
/// `3.{minor}.{patch}` with a minor number of at least 8.
pub open spec fn python_version_problem(v: Seq<char>) -> Option<Seq<char>> {
    let parts = split(v, '.');
    if v.len() == 0 {
        Some("Version cannot be empty"@)
    } else if parts.len() < 2 || parts.len() > 3 {
        Some("Invalid Python version format: "@ + v)
    } else if parts[0] != "3"@ {
        Some("Only Python 3.x versions are supported: "@ + v)
    } else {
        match u32_value(parts[1]) {
            None => Some("Invalid minor version number: "@ + v),
            Some(m) => if m < 8 {
                Some("Python version must be at least 3.8: "@ + v)
            } else {
                None
            },
        }
    }
}

/// `3.{minor}` and `3.{minor}.{patch}` are accepted for a minor number of 8
/// or more and refused with their text below that; a major number other
/// than 3 is refused; a version of one part or of four is refused.
pub proof fn python_version_rules(minor: Seq<char>, patch: Seq<char>, major: Seq<char>)
    requires
        !minor.contains('.'),
        !patch.contains('.'),
        !major.contains('.'),
        u32_value(minor) is Some,
    ensures
        u32_value(minor).unwrap() >= 8 ==> python_version_problem("3."@ + minor) is None,
        u32_value(minor).unwrap() >= 8 ==> python_version_problem("3."@ + minor + seq!['.'] + patch)
            is None,
        u32_value(minor).unwrap() < 8 ==> python_version_problem("3."@ + minor) == Some(
            "Python version must be at least 3.8: "@ + ("3."@ + minor),
        ),
        major != "3"@ ==> python_version_problem(major + seq!['.'] + minor) == Some(
            "Only Python 3.x versions are supported: "@ + (major + seq!['.'] + minor),
        ),
        python_version_problem(minor) == (if minor.len() == 0 {
            Some("Version cannot be empty"@)
        } else {
            Some("Invalid Python version format: "@ + minor)
        }),
{
    reveal_strlit("3.");
    reveal_strlit("3");
    let three = seq!['3'];
    assert("3."@ =~= three + seq!['.']);
    assert(!three.contains('.'));
    split_without_sep(three, '.');
    split_without_sep(minor, '.');
    split_without_sep(patch, '.');
    split_without_sep(major, '.');
    split_around_separator(three, minor, '.');
    let two = three + seq!['.'] + minor;
    split_around_separator(two, patch, '.');
    split_around_separator(major, minor, '.');
    assert(split(two, '.') =~= seq![three, minor]);
    assert(split(two + seq!['.'] + patch, '.') =~= seq![three, minor, patch]);
    assert(split(major + seq!['.'] + minor, '.') =~= seq![major, minor]);
    assert("3."@ + minor + seq!['.'] + patch =~= two + seq!['.'] + patch);
    assert("3."@ + minor =~= two);
    assert(two.len() > 0);
    assert((major + seq!['.'] + minor).len() > 0);
    assert(three == "3"@);
}

fn u32_of(t: &Vec<char>) -> (r: Option<u32>)
    ensures
        match r {
            Some(x) => u32_value(t@) == Some(x as nat),
            None => u32_value(t@) is None,
        },
{
    parse_u32(t)
}

/// Checks a Python version text: not empty; two or three dot-separated
/// parts; major version 3; a minor number of at least 8. Each broken rule
/// gives its own runtime error.
pub fn validate_python_version(version: &str) -> (r: Result<(), Error>)
    ensures
        r is Ok <==> python_version_problem(version@) is None,
        r matches Err(e) ==> e matches Error::Runtime(m) && python_version_problem(version@)
            == Some(m@),
{
    let v = chars_of(version);
    if v.len() == 0 {
        return Err(Error::Runtime(owned("Version cannot be empty")));
    }
    let parts = split_exec(&v, '.');
    let ghost ps = split(version@, '.');
    assert(parts@.map_values(|x: Vec<char>| x@) == ps);
    if parts.len() < 2 || parts.len() > 3 {
        return Err(Error::Runtime(concat2("Invalid Python version format: ", version)));
    }
    assert(ps[0] == parts@[0]@ && ps[1] == parts@[1]@);
    if !seq_eq(&parts[0], &chars_of("3")) {
        return Err(Error::Runtime(concat2("Only Python 3.x versions are supported: ", version)));
    }
    match u32_of(&parts[1]) {
        Some(minor) => {
            if minor < 8 {
                return Err(Error::Runtime(concat2("Python version must be at least 3.8: ", version)));
            }
        },
        None => {
            return Err(Error::Runtime(concat2("Invalid minor version number: ", version)));
        },
    }
    Ok(())
}

/// The order of two valid Python versions: by minor number, then, where
/// both give one, by patch number; else the version with more parts is the
/// greater.
pub open spec fn python_rank(v1: Seq<char>, v2: Seq<char>) -> Rank {
    let p1 = split(v1, '.');
    let p2 = split(v2, '.');
    let m1 = u32_value(p1[1]).unwrap();
    let m2 = u32_value(p2[1]).unwrap();
    if m1 != m2 {
        num_rank(m1 as int, m2 as int)
    } else if p1.len() > 2 && p2.len() > 2 {
        num_rank(u32_value(p1[2]).unwrap() as int, u32_value(p2[2]).unwrap() as int)
    } else {
        num_rank(p1.len() as int, p2.len() as int)
    }
}

/// The inputs on which comparing two Python versions does not stop: where
/// both are valid, have three parts and the same minor number, both patch
/// numbers read as numbers.
pub open spec fn patches_readable(v1: Seq<char>, v2: Seq<char>) -> bool {
    let p1 = split(v1, '.');
    let p2 = split(v2, '.');
    (python_version_problem(v1) is None && python_version_problem(v2) is None && p1.len() > 2
        && p2.len() > 2 && u32_value(p1[1]) == u32_value(p2[1])) ==> (u32_value(p1[2]) is Some
        && u32_value(p2[2]) is Some)
}

fn rank_u32(a: u32, b: u32) -> (r: Rank)
    ensures
        r == num_rank(a as int, b as int),
{
    if a < b {
        Rank::Less
    } else if a == b {
        Rank::Equal
    } else {
        Rank::Greater
    }
}

fn rank_usize(a: usize, b: usize) -> (r: Rank)
    ensures
        r == num_rank(a as int, b as int),
{
    if a < b {
        Rank::Less
    } else if a == b {
        Rank::Equal
    } else {
        Rank::Greater
    }
}

fn python_rank_exec(version1: &str, version2: &str) -> (r: Rank)
    requires
        python_version_problem(version1@) is None,
        python_version_problem(version2@) is None,
        patches_readable(version1@, version2@),
    ensures
        r == python_rank(version1@, version2@),
{
    let p1 = split_exec(&chars_of(version1), '.');
    let p2 = split_exec(&chars_of(version2), '.');
    let ghost s1 = split(version1@, '.');
    let ghost s2 = split(version2@, '.');
    assert(p1@.map_values(|x: Vec<char>| x@) == s1);
    assert(p2@.map_values(|x: Vec<char>| x@) == s2);
    assert(s1[1] == p1@[1]@ && s2[1] == p2@[1]@);
    let m1 = u32_of(&p1[1]).unwrap();
    let m2 = u32_of(&p2[1]).unwrap();
    if m1 != m2 {
        return rank_u32(m1, m2);
    }
    if p1.len() > 2 && p2.len() > 2 {
        assert(s1[2] == p1@[2]@ && s2[2] == p2@[2]@);
        let a = u32_of(&p1[2]).unwrap();
        let b = u32_of(&p2[2]).unwrap();
        return rank_u32(a, b);
    }
    rank_usize(p1.len(), p2.len())
}

/// Compares two Python versions. Each must pass `validate_python_version`,
/// else its error is returned (the first version's first).
pub fn compare_python_versions(version1: &str, version2: &str) -> (r: Result<
    core::cmp::Ordering,
    Error,
>)
    requires
        patches_readable(version1@, version2@),
    ensures
        python_version_problem(version1@) matches Some(m) ==> r matches Err(Error::Runtime(e))
            && e@ == m,
        python_version_problem(version1@) is None ==> (python_version_problem(version2@) matches Some(
            m,
        ) ==> r matches Err(Error::Runtime(e)) && e@ == m),
        python_version_problem(version1@) is None && python_version_problem(version2@) is None
            ==> r == Ok::<core::cmp::Ordering, Error>(ordering_of(python_rank(version1@, version2@))),
{
    match validate_python_version(version1) {
        Err(e) => return Err(e),
        Ok(()) => {},
    }
    match validate_python_version(version2) {
        Err(e) => return Err(e),
        Ok(()) => {},
    }
    Ok(to_ordering(python_rank_exec(version1, version2)))
}

/// Between two valid Python versions whose minor numbers differ, the one
/// with the smaller minor number comes first, whatever their patch numbers.
pub proof fn python_minor_decides(v1: Seq<char>, v2: Seq<char>)
    requires
        python_version_problem(v1) is None,
        python_version_problem(v2) is None,
        u32_value(split(v1, '.')[1]) != u32_value(split(v2, '.')[1]),
    ensures
        u32_value(split(v1, '.')[1]).unwrap() < u32_value(split(v2, '.')[1]).unwrap()
            ==> python_rank(v1, v2) == Rank::Less,
        u32_value(split(v1, '.')[1]).unwrap() > u32_value(split(v2, '.')[1]).unwrap()
            ==> python_rank(v1, v2) == Rank::Greater,
{
}

/// Between two valid three-part Python versions with the same minor number,
/// the one with the smaller patch number comes first, and equal patch
/// numbers give equal versions.
pub proof fn python_patch_decides(v1: Seq<char>, v2: Seq<char>)
    requires
        python_version_problem(v1) is None,
        python_version_problem(v2) is None,
        u32_value(split(v1, '.')[1]) == u32_value(split(v2, '.')[1]),
        split(v1, '.').len() == 3,
        split(v2, '.').len() == 3,
        u32_value(split(v1, '.')[2]) is Some,
        u32_value(split(v2, '.')[2]) is Some,
    ensures
        u32_value(split(v1, '.')[2]).unwrap() < u32_value(split(v2, '.')[2]).unwrap()
            ==> python_rank(v1, v2) == Rank::Less,
        u32_value(split(v1, '.')[2]).unwrap() > u32_value(split(v2, '.')[2]).unwrap()
            ==> python_rank(v1, v2) == Rank::Greater,
        u32_value(split(v1, '.')[2]) == u32_value(split(v2, '.')[2]) ==> python_rank(v1, v2)
            == Rank::Equal,
{
}

/// Between two valid Python versions with the same minor number of which
/// only one gives a patch number, the one without comes first.
pub proof fn python_missing_patch_first(v1: Seq<char>, v2: Seq<char>)
    requires
        python_version_problem(v1) is None,
        python_version_problem(v2) is None,
        u32_value(split(v1, '.')[1]) == u32_value(split(v2, '.')[1]),
        split(v1, '.').len() == 2,
        split(v2, '.').len() == 3,
    ensures
        python_rank(v1, v2) == Rank::Less,
        python_rank(v2, v1) == Rank::Greater,
{
}

/// The recommended Python version.
pub open spec fn recommended_python_version() -> Seq<char> {
    "3.11"@
}

/// The recommended Python version: 3.11.
pub fn get_recommended_python_version() -> (v: String)
    ensures
        v@ == recommended_python_version(),
{
    owned("3.11")
}

/// Whether a Python version is supported: every version that passes
/// `validate_python_version` is (3.8 and later); any other gives that
/// function's error.
pub fn is_python_version_supported(version: &str) -> (r: Result<bool, Error>)
    ensures
        r matches Ok(b) ==> b && python_version_problem(version@) is None,
        r is Err <==> python_version_problem(version@) is Some,
        r matches Err(e) ==> e matches Error::Runtime(m) && python_version_problem(version@)
            == Some(m@),
{
    match validate_python_version(version) {
        Err(e) => return Err(e),
        Ok(()) => {},
    }
    let parts = split_exec(&chars_of(version), '.');
    let ghost ps = split(version@, '.');
    assert(parts@.map_values(|x: Vec<char>| x@) == ps);
    assert(ps[1] == parts@[1]@);
    let minor = u32_of(&parts[1]).unwrap();
    Ok(minor >= 8)
}

// ---------------------------------------------------------------------------
// What `uv python list` prints
// ---------------------------------------------------------------------------

/// The text after the first `cpython-` of a line, if it has one.
pub open spec fn after_cpython(line: Seq<char>) -> Option<Seq<char>> {
    match first_occurrence(line, "cpython-"@) {
        Some(i) => Some(line.subrange(i + 8, line.len() as int)),
        None => None,
    }
}

/// The text before the first `-`, if there is one.
pub open spec fn before_dash(t: Seq<char>) -> Option<Seq<char>> {
    match first_occurrence(t, "-"@) {
        Some(j) => Some(t.subrange(0, j)),
        None => None,
    }
}

/// The version in a line of `uv python list`: the text after the first
/// `cpython-` up to the next `-`, if the line has both.
pub open spec fn cpython_version(line: Seq<char>) -> Option<Seq<char>> {
    match after_cpython(line) {
        Some(rest) => before_dash(rest),
        None => None,
    }
}

/// Whether a line of `uv python list` names an installed interpreter: it
/// shows an `.exe` path and a `cpython` build.
pub open spec fn installed_line(line: Seq<char>) -> bool {
    contains(line, ".exe"@) && contains(line, "cpython"@)
}

/// The versions of the lines that `keep` admits, in order.
pub open spec fn listed_versions(ls: Seq<Seq<char>>, installed_only: bool) -> Seq<Seq<char>>
    decreases ls.len(),
{
    if ls.len() == 0 {
        Seq::empty()
    } else {
        let l = ls.last();
        let rest = listed_versions(ls.drop_last(), installed_only);
        if line_kept(l, installed_only) && cpython_version(l) is Some {
            rest.push(cpython_version(l).unwrap())
        } else {
            rest
        }
    }
}

/// The versions listed in two runs of lines, one after the other, are those
/// of the first run and then those of the second.
pub proof fn listed_versions_of_concat(a: Seq<Seq<char>>, b: Seq<Seq<char>>, installed_only: bool)
    ensures
        listed_versions(a + b, installed_only) == listed_versions(a, installed_only)
            + listed_versions(b, installed_only),
    decreases b.len(),
{
    if b.len() == 0 {
        assert(a + b =~= a);
        assert(listed_versions(a, installed_only) + listed_versions(b, installed_only)
            =~= listed_versions(a, installed_only));
    } else {
        listed_versions_of_concat(a, b.drop_last(), installed_only);
        assert((a + b).drop_last() =~= a + b.drop_last());
        assert((a + b).last() == b.last());
        let l = b.last();
        if line_kept(l, installed_only) && cpython_version(l) is Some {
            let v = cpython_version(l).unwrap();
            assert((listed_versions(a, installed_only) + listed_versions(b.drop_last(), installed_only)).push(v)
                =~= listed_versions(a, installed_only) + listed_versions(b.drop_last(), installed_only).push(v));
        }
    }
}

/// One line gives the version after its `cpython-` (up to the next `-`)
/// where it is read: with `installed_only`, where it shows an `.exe` path
/// and a `cpython` build; else where it has a `cpython-` build.
pub proof fn listed_versions_of_one(l: Seq<char>, installed_only: bool)
    ensures
        listed_versions(seq![l], installed_only) == (if (if installed_only {
            contains(l, ".exe"@) && contains(l, "cpython"@)
        } else {
            contains(l, "cpython-"@)
        }) && cpython_version(l) is Some {
            seq![cpython_version(l).unwrap()]
        } else {
            Seq::<Seq<char>>::empty()
        }),
{
    reveal(line_kept);
    assert(seq![l].drop_last() =~= Seq::<Seq<char>>::empty());
    assert(seq![l].last() == l);
    assert(listed_versions(Seq::<Seq<char>>::empty(), installed_only) == Seq::<Seq<char>>::empty());
    if cpython_version(l) is Some {
        assert(Seq::<Seq<char>>::empty().push(cpython_version(l).unwrap()) =~= seq![cpython_version(l).unwrap()]);
    }
}

fn after_cpython_exec(line: &Vec<char>) -> (r: Option<Vec<char>>)
    ensures
        match r {
            Some(v) => after_cpython(line@) == Some(v@),
            None => after_cpython(line@) is None,
        },
{
    let marker = chars_of("cpython-");
    assert(marker@.len() == 8) by {
        reveal_strlit("cpython-");
    }
    match find_exec(line, &marker) {
        Some(i) => {
            assert(occurs_at(line@, marker@, i as int));
            assert(i + 8 <= line.len());
            Some(vec_skip(line, i + 8))
        },
        None => None,
    }
}

fn before_dash_exec(t: &Vec<char>) -> (r: Option<Vec<char>>)
    ensures
        match r {
            Some(v) => before_dash(t@) == Some(v@),
            None => before_dash(t@) is None,
        },
{
    match find_exec(t, &chars_of("-")) {
        Some(j) => Some(vec_slice(t, 0, j)),
        None => None,
    }
}

fn cpython_version_exec(line: &Vec<char>) -> (r: Option<Vec<char>>)
    ensures
        match r {
            Some(v) => cpython_version(line@) == Some(v@),
            None => cpython_version(line@) is None,
        },
{
    match after_cpython_exec(line) {
        Some(rest) => before_dash_exec(&rest),
        None => None,
    }
}

/// Whether a listing line is read: with `installed_only`, lines of installed
/// interpreters; else every line with a `cpython-` build.
#[verifier::opaque]
pub open spec fn line_kept(line: Seq<char>, installed_only: bool) -> bool {
    if installed_only {
        installed_line(line)
    } else {
        contains(line, "cpython-"@)
    }
}

fn line_kept_exec(line: &Vec<char>, installed_only: bool) -> (b: bool)
    ensures
        b == line_kept(line@, installed_only),
{
    reveal(line_kept);
    if installed_only {
        vec_contains(line, &chars_of(".exe")) && vec_contains(line, &chars_of("cpython"))
    } else {
        vec_contains(line, &chars_of("cpython-"))
    }
}

fn versions_in_listing(output: &str, installed_only: bool) -> (r: Vec<String>)
    ensures
        r@.map_values(|s: String| s@) == listed_versions(lines(output@), installed_only),
{
    let ls = lines_exec(&chars_of(output));
    let ghost all = lines(output@);
    let mut out: Vec<String> = Vec::new();
    let mut i: usize = 0;
    while i < ls.len()
        invariant
            i <= ls.len(),
            ls@.map_values(|v: Vec<char>| v@) == all,
            out@.map_values(|s: String| s@) == listed_versions(all.subrange(0, i as int), installed_only),
        decreases ls.len() - i,
    {
        let line = &ls[i];
        let ghost pre = all.subrange(0, i as int);
        let ghost cur = all.subrange(0, i + 1);
        assert(line@ == all[i as int]);
        assert(cur.drop_last() =~= pre);
        assert(cur.last() == line@);
        if line_kept_exec(line, installed_only) {
            match cpython_version_exec(line) {
                Some(v) => {
                    let ghost prev = out@.map_values(|s: String| s@);
                    out.push(string_from_chars(&v));
                    assert(out@.map_values(|s: String| s@) =~= prev.push(v@));
                },
                None => {},
            }
        }
        i = i + 1;
    }
    assert(all.subrange(0, ls.len() as int) =~= all);
    out
}

/// The installed Python versions that a `uv python list` output shows: from
/// each line with an `.exe` path and a `cpython` build, its version.
pub fn parse_installed_versions(output: &str) -> (r: Vec<String>)
    ensures
        r@.map_values(|s: String| s@) == listed_versions(lines(output@), true),
{
    versions_in_listing(output, true)
}

/// All the Python versions that a `uv python list` output shows: from each
/// line with a `cpython-` build, its version.
pub fn parse_available_versions(output: &str) -> (r: Vec<String>)
    ensures
        r@.map_values(|s: String| s@) == listed_versions(lines(output@), false),
{
    versions_in_listing(output, false)
}

/// Whether a `uv python list` output shows an installed version that starts
/// with `version` (so `3.11` matches `3.11.13`).
pub fn listing_has_version(output: &str, version: &str) -> (b: bool)
    ensures
        b == exists|i: int|
            0 <= i < listed_versions(lines(output@), true).len() && starts_with(
                #[trigger] listed_versions(lines(output@), true)[i],
                version@,
            ),
{
    let vs = parse_installed_versions(output);
    let ghost all = listed_versions(lines(output@), true);
    let p = chars_of(version);
    let mut i: usize = 0;
    while i < vs.len()
        invariant
            i <= vs.len(),
            vs@.map_values(|s: String| s@) == all,
            all == listed_versions(lines(output@), true),
            p@ == version@,
            forall|j: int| 0 <= j < i ==> !starts_with(#[trigger] all[j], version@),
        decreases vs.len() - i,
    {
        assert(all[i as int] == vs@[i as int]@);
        if vec_starts_with(&chars_of(vs[i].as_str()), &p) {
            assert(starts_with(all[i as int], version@));
            assert(listed_versions(lines(output@), true)[i as int] == all[i as int]);
            return true;
        }
        i = i + 1;
    }
    false
}

// ---------------------------------------------------------------------------
// The installer's settings
// ---------------------------------------------------------------------------

/// Settings of the Python installer.
#[derive(Debug)]
pub struct PyInstallerConfig {
    /// Where Python versions are installed.
    pub install_dir: String,
    /// The default Python version.
    pub default_version: String,
    /// Whether downloads are cached.
    pub enable_cache: bool,
}

/// The default install directory: `.ai00-run/py` under the home directory,
/// or under `.` where no home directory is known.
pub open spec fn default_py_root(home: Option<Seq<char>>) -> Seq<char> {
    let base = match home {
        Some(h) => h,
        None => "."@,
    };
    join(join(base, ".ai00-run"@), "py"@)
}

/// The installer of Python versions, through `uv`. It keeps its settings;
/// the commands are run by the caller.
#[derive(Debug)]
pub struct PyInstaller {
    config: PyInstallerConfig,
}

impl Default for PyInstaller {
    fn default() -> (r: Self)
        ensures
            exists|h: Option<Seq<char>>| r.settings().install_dir@ == default_py_root(h),
            r.settings().default_version@ == "3.11"@,
            r.settings().enable_cache,
    {
        Self::new()
    }
}

impl PyInstaller {
    /// The installer's settings.
    pub closed spec fn settings(&self) -> PyInstallerConfig {
        self.config
    }

    /// An installer for the home directory `home`: it installs under
    /// `.ai00-run/py` there, defaults to Python 3.11 and caches.
    pub fn for_home(home: Option<String>) -> (r: Self)
        ensures
            r.settings().install_dir@ == default_py_root(opt_view(home)),
            r.settings().default_version@ == "3.11"@,
            r.settings().enable_cache,
    {
        let base = match home {
            Some(h) => h,
            None => owned("."),
        };
        let a = join_path(base.as_str(), ".ai00-run");
        PyInstaller {
            config: PyInstallerConfig {
                install_dir: join_path(a.as_str(), "py"),
                default_version: owned("3.11"),
                enable_cache: true,
            },
        }
    }

    /// An installer for the user's home directory.
    pub fn new() -> (r: Self)
        ensures
            exists|h: Option<Seq<char>>| r.settings().install_dir@ == default_py_root(h),
            r.settings().default_version@ == "3.11"@,
            r.settings().enable_cache,
    {
        let home = host::home_dir();
        let ghost h = opt_view(home);
        let r = Self::for_home(home);
        assert(r.settings().install_dir@ == default_py_root(h));
        r
    }

    /// An installer with the given settings.
    pub fn with_config(config: PyInstallerConfig) -> (r: Self)
        ensures
            r.settings() == config,
    {
        PyInstaller { config }
    }

    /// The installer's settings.
    pub fn config(&self) -> (c: &PyInstallerConfig)
        ensures
            *c == self.settings(),
    {
        &self.config
    }
}

/// Every valid Python version is equal to itself.
pub proof fn python_rank_reflexive(v: Seq<char>)
    requires
        python_version_problem(v) is None,
    ensures
        python_rank(v, v) == Rank::Equal,
{
}

/// Comparing two valid Python versions the other way round gives the
/// opposite order.
pub proof fn python_rank_antisymmetric(v1: Seq<char>, v2: Seq<char>)
    requires
        python_version_problem(v1) is None,
        python_version_problem(v2) is None,
    ensures
        python_rank(v2, v1) == flip(python_rank(v1, v2)),
{
}

} // verus!
