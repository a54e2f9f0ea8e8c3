//! A manager of Python virtual environments: its settings, the environment it
//! has activated, and reading what `uv` and `pip` print.

use vstd::prelude::*;

use crate::error::Error;
use crate::host;
use crate::lexical::{lines, lines_exec, trim, trim_exec, words, words_exec};
use crate::text::{
    chars_of, concat2, contains, opt_view, starts_with, string_from_chars, vec_contains,
    vec_skip, vec_starts_with,
};

verus! {

/// Settings of the Python manager.
#[derive(Debug)]
pub struct PyManagerConfig {
    /// Where Python is installed.
    pub python_dir: String,
    /// Where virtual environments are kept.
    pub venv_dir: String,
    /// Whether the system Python may be used.
    pub use_system_python: bool,
    /// Whether virtual environments are preferred.
    pub prefer_venv: bool,
}

/// Manages Python virtual environments and keeps the one that is active.
#[derive(Debug)]
pub struct PyManager {
    config: PyManagerConfig,
    current_venv: Option<String>,
}

/// The message of the error for a virtual environment that does not exist.
pub open spec fn missing_venv_message(path: Seq<char>) -> Seq<char> {
    "Virtual environment does not exist: "@ + path
}

impl PyManager {
    /// The manager's settings.
    pub closed spec fn settings(&self) -> PyManagerConfig {
        self.config
    }

    /// The active virtual environment, if any.
    pub closed spec fn active(&self) -> Option<Seq<char>> {
        opt_view(self.current_venv)
    }

    /// A manager for the given directories, which may use the system Python
    /// and prefers virtual environments; none is active.
    pub fn new(python_dir: String, venv_dir: String) -> (m: Self)
        ensures
            m.settings().python_dir == python_dir,
            m.settings().venv_dir == venv_dir,
            m.settings().use_system_python,
            m.settings().prefer_venv,
            m.active() is None,
    {
        PyManager {
            config: PyManagerConfig {
                python_dir,
                venv_dir,
                use_system_python: true,
                prefer_venv: true,
            },
            current_venv: None,
        }
    }

    /// A manager with the given settings; none is active.
    pub fn with_config(config: PyManagerConfig) -> (m: Self)
        ensures
            m.settings() == config,
            m.active() is None,
    {
        PyManager { config, current_venv: None }
    }

    /// The manager's settings.
    pub fn config(&self) -> (c: &PyManagerConfig)
        ensures
            *c == self.settings(),
    {
        &self.config
    }

    /// Replaces the settings; the active environment stays.
    pub fn set_config(&mut self, config: PyManagerConfig)
        ensures
            final(self).settings() == config,
            final(self).active() == old(self).active(),
    {
        self.config = config;
    }

    /// The active virtual environment, if any.
    pub fn current_venv(&self) -> (v: Option<&String>)
        ensures
            match v {
                Some(p) => self.active() == Some(p@),
                None => self.active() is None,
            },
    {
        match &self.current_venv {
            Some(p) => Some(p),
            None => None,
        }
    }

    /// Sets the active virtual environment.
    pub fn set_current_venv(&mut self, venv_path: Option<String>)
        ensures
            final(self).active() == opt_view(venv_path),
            final(self).settings() == old(self).settings(),
    {
        self.current_venv = venv_path;
    }

    /// Makes `venv_path` the active environment, where something is there on
    /// disk; else fails with a runtime error and changes nothing.
    pub fn activate_venv(&mut self, venv_path: &str) -> (r: Result<(), Error>)
        ensures
            final(self).settings() == old(self).settings(),
            r is Ok ==> final(self).active() == Some(venv_path@),
            r matches Err(e) ==> e matches Error::Runtime(m) && m@ == missing_venv_message(venv_path@)
                && final(self).active() == old(self).active(),
    {
        let exists = host::path_exists(venv_path);
        self.activate_checked(venv_path, exists)
    }

    /// Makes `venv_path` the active environment where `exists` says it is
    /// there; else fails with a runtime error and changes nothing.
    pub fn activate_checked(&mut self, venv_path: &str, exists: bool) -> (r: Result<(), Error>)
        ensures
            final(self).settings() == old(self).settings(),
            r is Ok <==> exists,
            r is Ok ==> final(self).active() == Some(venv_path@),
            r matches Err(e) ==> e matches Error::Runtime(m) && m@ == missing_venv_message(venv_path@)
                && final(self).active() == old(self).active(),
    {
        if !exists {
            return Err(Error::Runtime(concat2("Virtual environment does not exist: ", venv_path)));
        }
        self.current_venv = Some(string_from_chars(&chars_of(venv_path)));
        Ok(())
    }

    /// Leaves the active environment: none is active afterwards.
    pub fn deactivate_venv(&mut self) -> (r: Result<(), Error>)
        ensures
            r is Ok,
            final(self).active() is None,
            final(self).settings() == old(self).settings(),
    {
        self.current_venv = None;
        Ok(())
    }

    /// The Python versions that a `uv python list` output mentions: from each
    /// line with both `Python` and `version`, its first word that starts with
    /// `3.`.
    pub fn parse_python_versions(output: &str) -> (r: Vec<String>)
        ensures
            r@.map_values(|s: String| s@) == mentioned_versions(lines(output@)),
    {
        let ls = lines_exec(&chars_of(output));
        let ghost all = lines(output@);
        let mut out: Vec<String> = Vec::new();
        let mut i: usize = 0;
        while i < ls.len()
            invariant
                i <= ls.len(),
                ls@.map_values(|v: Vec<char>| v@) == all,
                out@.map_values(|s: String| s@) == mentioned_versions(all.subrange(0, i as int)),
            decreases ls.len() - i,
        {
            let line = &ls[i];
            assert(line@ == all[i as int]);
            assert(all.subrange(0, i + 1).drop_last() =~= all.subrange(0, i as int));
            assert(all.subrange(0, i + 1).last() == line@);
            match version_in_line(line) {
                Some(v) => {
                    let ghost prev = out@.map_values(|s: String| s@);
                    out.push(string_from_chars(&v));
                    assert(out@.map_values(|s: String| s@) =~= prev.push(v@));
                },
                None => {},
            }
            i = i + 1;
        }
        assert(all.subrange(0, ls.len() as int) =~= all);
        out
    }

    /// The packages that a `pip list` output shows: the first word of each
    /// line after the two heading lines.
    pub fn parse_pip_list(output: &str) -> (r: Vec<String>)
        ensures
            r@.map_values(|s: String| s@) == first_words(after_headings(lines(output@))),
    {
        let ls = lines_exec(&chars_of(output));
        let ghost all = lines(output@);
        let mut out: Vec<String> = Vec::new();
        let mut i: usize = 2;
        if ls.len() < 2 {
            assert(after_headings(all) =~= Seq::<Seq<char>>::empty());
            return out;
        }
        while i < ls.len()
            invariant
                2 <= i <= ls.len(),
                ls@.map_values(|v: Vec<char>| v@) == all,
                out@.map_values(|s: String| s@) == first_words(all.subrange(2, i as int)),
            decreases ls.len() - i,
        {
            let line = &ls[i];
            assert(line@ == all[i as int]);
            assert(all.subrange(2, i + 1).drop_last() =~= all.subrange(2, i as int));
            assert(all.subrange(2, i + 1).last() == line@);
            let ws = words_exec(line);
            assert(ws@.map_values(|v: Vec<char>| v@) == words(line@));
            if ws.len() > 0 {
                assert(ws@[0]@ == words(line@)[0]);
                let ghost prev = out@.map_values(|s: String| s@);
                out.push(string_from_chars(&ws[0]));
                assert(out@.map_values(|s: String| s@) =~= prev.push(words(line@)[0]));
            }
            i = i + 1;
        }
        assert(all.subrange(2, ls.len() as int) =~= all.skip(2));
        out
    }

    /// The Python version that `python --version` printed: the output
    /// without surrounding white space, and without a leading `Python `.
    pub fn parse_python_version(output: &str) -> (r: String)
        ensures
            r@ == version_from_banner(output@),
    {
        let t = trim_exec(&chars_of(output));
        let p = chars_of("Python ");
        assert(p@.len() == 7) by {
            reveal_strlit("Python ");
        }
        if vec_starts_with(&t, &p) {
            string_from_chars(&vec_skip(&t, 7))
        } else {
            string_from_chars(&t)
        }
    }
}

/// The first word of `line` that starts with `3.`, if `line` holds both
/// `Python` and `version`.
pub open spec fn line_version(line: Seq<char>) -> Option<Seq<char>> {
    if contains(line, "Python"@) && contains(line, "version"@) {
        first_word_with(words(line), "3."@)
    } else {
        None
    }
}

/// The first of `ws` that starts with `p`, if any.
pub open spec fn first_word_with(ws: Seq<Seq<char>>, p: Seq<char>) -> Option<Seq<char>>
    decreases ws.len(),
{
    if ws.len() == 0 {
        None
    } else if starts_with(ws[0], p) {
        Some(ws[0])
    } else {
        first_word_with(ws.drop_first(), p)
    }
}

/// The versions that the lines mention, in order.
pub open spec fn mentioned_versions(ls: Seq<Seq<char>>) -> Seq<Seq<char>>
    decreases ls.len(),
{
    if ls.len() == 0 {
        Seq::empty()
    } else {
        let rest = mentioned_versions(ls.drop_last());
        match line_version(ls.last()) {
            Some(v) => rest.push(v),
            None => rest,
        }
    }
}

/// The lines after the first two (none where there are fewer).
pub open spec fn after_headings(ls: Seq<Seq<char>>) -> Seq<Seq<char>> {
    if ls.len() >= 2 {
        ls.skip(2)
    } else {
        Seq::empty()
    }
}

/// The first word of each line that has one, in order.
pub open spec fn first_words(ls: Seq<Seq<char>>) -> Seq<Seq<char>>
    decreases ls.len(),
{
    if ls.len() == 0 {
        Seq::empty()
    } else {
        let rest = first_words(ls.drop_last());
        let ws = words(ls.last());
        if ws.len() > 0 {
            rest.push(ws[0])
        } else {
            rest
        }
    }
}

/// The version in the output of `python --version`.
pub open spec fn version_from_banner(output: Seq<char>) -> Seq<char> {
    let t = trim(output);
    if starts_with(t, "Python "@) {
        t.skip(7)
    } else {
        t
    }
}

fn first_word_with_exec(ws: &Vec<Vec<char>>, p: &Vec<char>) -> (r: Option<Vec<char>>)
    ensures
        match r {
            Some(w) => first_word_with(ws@.map_values(|v: Vec<char>| v@), p@) == Some(w@),
            None => first_word_with(ws@.map_values(|v: Vec<char>| v@), p@) is None,
        },
{
    let ghost all = ws@.map_values(|v: Vec<char>| v@);
    assert(all.skip(0) =~= all);
    let mut i: usize = 0;
    while i < ws.len()
        invariant
            i <= ws.len(),
            all == ws@.map_values(|v: Vec<char>| v@),
            first_word_with(all, p@) == first_word_with(all.skip(i as int), p@),
        decreases ws.len() - i,
    {
        let ghost rest = all.skip(i as int);
        assert(rest[0] == ws@[i as int]@);
        if vec_starts_with(&ws[i], p) {
            return Some(ws[i].clone());
        }
        assert(rest.drop_first() =~= all.skip(i + 1));
        i = i + 1;
    }
    assert(all.skip(ws.len() as int) =~= Seq::<Seq<char>>::empty());
    None
}

fn version_in_line(line: &Vec<char>) -> (r: Option<Vec<char>>)
    ensures
        match r {
            Some(v) => line_version(line@) == Some(v@),
            None => line_version(line@) is None,
        },
{
    if vec_contains(line, &chars_of("Python")) && vec_contains(line, &chars_of("version")) {
        let ws = words_exec(line);
        first_word_with_exec(&ws, &chars_of("3."))
    } else {
        None
    }
}

/// The versions mentioned in two runs of lines, one after the other, are
/// those of the first run and then those of the second.
pub proof fn mentioned_versions_of_concat(a: Seq<Seq<char>>, b: Seq<Seq<char>>)
    ensures
        mentioned_versions(a + b) == mentioned_versions(a) + mentioned_versions(b),
    decreases b.len(),
{
    if b.len() == 0 {
        assert(a + b =~= a);
        assert(mentioned_versions(a) + mentioned_versions(b) =~= mentioned_versions(a));
    } else {
        mentioned_versions_of_concat(a, b.drop_last());
        assert((a + b).drop_last() =~= a + b.drop_last());
        assert((a + b).last() == b.last());
        match line_version(b.last()) {
            Some(v) => {
                assert((mentioned_versions(a) + mentioned_versions(b.drop_last())).push(v)
                    =~= mentioned_versions(a) + mentioned_versions(b.drop_last()).push(v));
            },
            None => {},
        }
    }
}

/// One line mentions a version where it holds `Python` and `version`: its
/// first word that starts with `3.`.
pub proof fn mentioned_versions_of_one(l: Seq<char>)
    ensures
        mentioned_versions(seq![l]) == (if contains(l, "Python"@) && contains(l, "version"@)
            && first_word_with(words(l), "3."@) is Some {
            seq![first_word_with(words(l), "3."@).unwrap()]
        } else {
            Seq::<Seq<char>>::empty()
        }),
{
    assert(seq![l].drop_last() =~= Seq::<Seq<char>>::empty());
    assert(seq![l].last() == l);
    assert(mentioned_versions(Seq::<Seq<char>>::empty()) == Seq::<Seq<char>>::empty());
    match line_version(l) {
        Some(v) => {
            assert(Seq::<Seq<char>>::empty().push(v) =~= seq![v]);
        },
        None => {},
    }
}

/// The first word that starts with a prefix is one of the words, starts
/// with it, and no earlier word does.
pub proof fn first_word_with_is_first(ws: Seq<Seq<char>>, p: Seq<char>)
    ensures
        first_word_with(ws, p) matches Some(w) ==> exists|i: int|
            0 <= i < ws.len() && ws[i] == w && starts_with(w, p) && forall|j: int|
                0 <= j < i ==> !starts_with(#[trigger] ws[j], p),
        first_word_with(ws, p) is None ==> forall|j: int|
            0 <= j < ws.len() ==> !starts_with(#[trigger] ws[j], p),
    decreases ws.len(),
{
    if ws.len() > 0 {
        first_word_with_is_first(ws.drop_first(), p);
        if !starts_with(ws[0], p) {
            if let Some(w) = first_word_with(ws, p) {
                let i = choose|i: int|
                    0 <= i < ws.drop_first().len() && ws.drop_first()[i] == w && starts_with(w, p)
                        && forall|j: int| 0 <= j < i ==> !starts_with(#[trigger] ws.drop_first()[j], p);
                assert(ws[i + 1] == w);
                assert forall|j: int| 0 <= j < i + 1 implies !starts_with(#[trigger] ws[j], p) by {
                    if j > 0 {
                        assert(ws[j] == ws.drop_first()[j - 1]);
                    }
                }
            } else {
                assert forall|j: int| 0 <= j < ws.len() implies !starts_with(#[trigger] ws[j], p) by {
                    if j > 0 {
                        assert(ws[j] == ws.drop_first()[j - 1]);
                    }
                }
            }
        } else {
            assert(ws[0] == ws[0]);
        }
    }
}

/// The first words of two runs of lines, one after the other, are those of
/// the first run and then those of the second.
pub proof fn first_words_of_concat(a: Seq<Seq<char>>, b: Seq<Seq<char>>)
    ensures
        first_words(a + b) == first_words(a) + first_words(b),
    decreases b.len(),
{
    if b.len() == 0 {
        assert(a + b =~= a);
        assert(first_words(a) + first_words(b) =~= first_words(a));
    } else {
        first_words_of_concat(a, b.drop_last());
        assert((a + b).drop_last() =~= a + b.drop_last());
        assert((a + b).last() == b.last());
        let ws = words(b.last());
        if ws.len() > 0 {
            assert((first_words(a) + first_words(b.drop_last())).push(ws[0]) =~= first_words(a)
                + first_words(b.drop_last()).push(ws[0]));
        }
    }
}

/// A line gives its first word, where it has one.
pub proof fn first_words_of_one(l: Seq<char>)
    ensures
        words(l).len() > 0 ==> first_words(seq![l]) == seq![words(l)[0]],
        words(l).len() == 0 ==> first_words(seq![l]) == Seq::<Seq<char>>::empty(),
{
    assert(seq![l].drop_last() =~= Seq::<Seq<char>>::empty());
    assert(seq![l].last() == l);
    assert(first_words(Seq::<Seq<char>>::empty()) == Seq::<Seq<char>>::empty());
    if words(l).len() > 0 {
        assert(Seq::<Seq<char>>::empty().push(words(l)[0]) =~= seq![words(l)[0]]);
    }
}

} // verus!
