//! Node.js releases: version rules, the release index, download names and
//! archive layout.

use vstd::prelude::*;

use crate::error::Error;
use crate::host;
use crate::lexical::{split, split_around_separator, split_exec, split_without_sep};
use crate::number::{parse_decimal, parse_u64};
use crate::order::{
    flip, lex_rank, lex_rank_exec, lex_rank_flip, lex_rank_same, num_rank, ordering_of, to_ordering,
    Rank,
};
use crate::path::{join, join_on, join_path, join_path_on, Arch, OsFamily};
use crate::text::{
    chars_of, concat2, opt_view, concat3, seq_view, is_alpha, is_digit, lower_seq, owned, seq_eq, starts_with,
    string_from_chars, vec_lower, vec_skip, vec_starts_with,
};

verus! {

// ---------------------------------------------------------------------------
// Version rules
// ---------------------------------------------------------------------------

/// The names that stand for a release rather than a number, in any case.
pub open spec fn is_special_version(v: Seq<char>) -> bool {
    let l = lower_seq(v);
    l == "lts"@ || l == "latest"@ || l == "current"@ || l == "stable"@
}

/// A dot-separated part of a version: not empty, and made of ASCII digits,
/// ASCII letters and `-`.
pub open spec fn version_part_ok(p: Seq<char>) -> bool {
    p.len() > 0 && forall|i: int|
        0 <= i < p.len() ==> (is_digit(#[trigger] p[i]) || p[i] == '-' || is_alpha(p[i]))
}

/// What is wrong with a Node.js version text, if anything: the message of the
/// error that `validate_version` gives.
pub open spec fn version_problem(v: Seq<char>) -> Option<Seq<char>> {
    if v.len() == 0 {
        Some("Version cannot be empty"@)
    } else if is_special_version(v) {
        None
    } else {
        let parts = split(v, '.');
        if parts.len() < 3 || exists|i: int| 0 <= i < parts.len() && !version_part_ok(#[trigger] parts[i]) {
            Some("Invalid version format: "@ + v)
        } else {
            None
        }
    }
}

proof fn dotted_not_special(v: Seq<char>, k: int)
    requires
        0 <= k < v.len(),
        v[k] == '.',
    ensures
        !is_special_version(v),
{
    reveal_strlit("lts");
    reveal_strlit("latest");
    reveal_strlit("current");
    reveal_strlit("stable");
    let l = lower_seq(v);
    assert(l[k] == '.');
    assert(!"lts"@.contains('.'));
    assert(!"latest"@.contains('.'));
    assert(!"current"@.contains('.'));
    assert(!"stable"@.contains('.'));
}

/// A version of three or more dot-separated parts, each made of digits,
/// letters and `-`, is accepted (`18.0.0`, `20.1.0-rc1`); one of two such
/// parts is refused with its text (`18.0`).
pub proof fn dotted_versions(x: Seq<char>, y: Seq<char>, z: Seq<char>)
    requires
        version_part_ok(x) && !x.contains('.'),
        version_part_ok(y) && !y.contains('.'),
        version_part_ok(z) && !z.contains('.'),
    ensures
        version_problem(x + seq!['.'] + y + seq!['.'] + z) is None,
        version_problem(x + seq!['.'] + y) == Some("Invalid version format: "@ + (x + seq!['.']
            + y)),
{
    let two = x + seq!['.'] + y;
    let three = two + seq!['.'] + z;
    dotted_not_special(two, x.len() as int);
    dotted_not_special(three, x.len() as int);
    split_without_sep(x, '.');
    split_without_sep(y, '.');
    split_without_sep(z, '.');
    split_around_separator(x, y, '.');
    split_around_separator(two, z, '.');
    assert(split(two, '.') =~= seq![x, y]);
    assert(split(three, '.') =~= seq![x, y, z]);
    assert(!exists|i: int| 0 <= i < split(three, '.').len() && !version_part_ok(
        #[trigger] split(three, '.')[i],
    ));
}

fn part_ok(p: &Vec<char>) -> (b: bool)
    ensures
        b == version_part_ok(p@),
{
    if p.len() == 0 {
        return false;
    }
    let mut i: usize = 0;
    while i < p.len()
        invariant
            i <= p.len(),
            forall|j: int| 0 <= j < i ==> (is_digit(#[trigger] p@[j]) || p@[j] == '-' || is_alpha(p@[j])),
        decreases p.len() - i,
    {
        let c = p[i];
        if !(('0' <= c && c <= '9') || c == '-' || ('a' <= c && c <= 'z') || ('A' <= c && c <= 'Z')) {
            assert(!(is_digit(p@[i as int]) || p@[i as int] == '-' || is_alpha(p@[i as int])));
            return false;
        }
        i = i + 1;
    }
    true
}

fn is_special_exec(v: &Vec<char>) -> (b: bool)
    ensures
        b == is_special_version(v@),
{
    let l = vec_lower(v);
    let lts = chars_of("lts");
    let latest = chars_of("latest");
    let current = chars_of("current");
    let stable = chars_of("stable");
    seq_eq(&l, &lts) || seq_eq(&l, &latest) || seq_eq(&l, &current) || seq_eq(&l, &stable)
}

/// Checks a Node.js version text: a release name (`lts`, `latest`, `current`,
/// `stable`, in any case) or three or more dot-separated parts made of
/// digits, letters and `-`.
pub fn validate_version(version: &str) -> (r: Result<(), Error>)
    ensures
        r is Ok <==> version_problem(version@) is None,
        r matches Err(e) ==> e matches Error::Version(m) && version_problem(version@) == Some(m@),
{
    let v = chars_of(version);
    if v.len() == 0 {
        return Err(Error::Version(owned("Version cannot be empty")));
    }
    if is_special_exec(&v) {
        return Ok(());
    }
    let parts = split_exec(&v, '.');
    let ghost ps = split(v@, '.');
    assert(parts@.map_values(|x: Vec<char>| x@) == ps);
    assert(v@ == version@);
    if parts.len() < 3 {
        return Err(Error::Version(concat2("Invalid version format: ", version)));
    }
    let mut i: usize = 0;
    while i < parts.len()
        invariant
            i <= parts.len(),
            ps == parts@.map_values(|x: Vec<char>| x@),
            ps == split(version@, '.'),
            ps.len() >= 3,
            version@.len() > 0,
            !is_special_version(version@),
            forall|j: int| 0 <= j < i ==> version_part_ok(#[trigger] ps[j]),
        decreases parts.len() - i,
    {
        assert(ps[i as int] == parts@[i as int]@);
        if !part_ok(&parts[i]) {
            assert(!version_part_ok(ps[i as int]));
            return Err(Error::Version(concat2("Invalid version format: ", version)));
        }
        i = i + 1;
    }
    Ok(())
}

/// What `str::parse::<u64>` reads from a version part, if it reads.
pub open spec fn part_number(t: Seq<char>) -> Option<nat> {
    match parse_decimal(t) {
        Some(n) => if n <= u64::MAX {
            Some(n)
        } else {
            None
        },
        None => None,
    }
}

/// The order of two version parts: as numbers where both read as numbers,
/// else as text.
pub open spec fn part_rank(a: Seq<char>, b: Seq<char>) -> Rank {
    match (part_number(a), part_number(b)) {
        (Some(x), Some(y)) => num_rank(x as int, y as int),
        _ => lex_rank(a, b),
    }
}

/// The order of two lists of version parts: part by part, the first that
/// differs decides; where one list is a beginning of the other, the shorter
/// comes first.
pub open spec fn parts_rank(p: Seq<Seq<char>>, q: Seq<Seq<char>>) -> Rank
    decreases p.len(),
{
    if p.len() == 0 && q.len() == 0 {
        Rank::Equal
    } else if p.len() == 0 {
        Rank::Less
    } else if q.len() == 0 {
        Rank::Greater
    } else if part_rank(p[0], q[0]) != Rank::Equal {
        part_rank(p[0], q[0])
    } else {
        parts_rank(p.drop_first(), q.drop_first())
    }
}

/// The order of two version texts: their `.`-separated parts compared one
/// after another, numerically where both parts are numbers (so `10.0.0`
/// comes after `9.0.0`).
pub open spec fn version_rank(a: Seq<char>, b: Seq<char>) -> Rank {
    parts_rank(split(a, '.'), split(b, '.'))
}

fn rank_of_numbers(a: u64, b: u64) -> (r: Rank)
    ensures
        r == num_rank(a as int, b as int),
{
    if a < b {
        Rank::Less
    } else if a == b {
        Rank::Equal
    } else {
        Rank::Greater
    }
}

fn part_rank_exec(a: &Vec<char>, b: &Vec<char>) -> (r: Rank)
    ensures
        r == part_rank(a@, b@),
{
    match (parse_u64(a), parse_u64(b)) {
        (Some(x), Some(y)) => rank_of_numbers(x, y),
        _ => lex_rank_exec(a, b),
    }
}

fn version_rank_exec(version1: &str, version2: &str) -> (r: Rank)
    ensures
        r == version_rank(version1@, version2@),
{
    let p = split_exec(&chars_of(version1), '.');
    let q = split_exec(&chars_of(version2), '.');
    let ghost ps = split(version1@, '.');
    let ghost qs = split(version2@, '.');
    assert(p@.map_values(|x: Vec<char>| x@) == ps);
    assert(q@.map_values(|x: Vec<char>| x@) == qs);
    assert(ps.skip(0) =~= ps);
    assert(qs.skip(0) =~= qs);
    let mut i: usize = 0;
    loop
        invariant
            i <= p.len(),
            i <= q.len(),
            p@.map_values(|x: Vec<char>| x@) == ps,
            q@.map_values(|x: Vec<char>| x@) == qs,
            parts_rank(ps, qs) == parts_rank(ps.skip(i as int), qs.skip(i as int)),
            parts_rank(ps, qs) == version_rank(version1@, version2@),
        decreases p.len() - i,
    {
        let ghost pi = ps.skip(i as int);
        let ghost qi = qs.skip(i as int);
        if i == p.len() && i == q.len() {
            return Rank::Equal;
        }
        if i == p.len() {
            return Rank::Less;
        }
        if i == q.len() {
            return Rank::Greater;
        }
        assert(pi[0] == p@[i as int]@);
        assert(qi[0] == q@[i as int]@);
        let r = part_rank_exec(&p[i], &q[i]);
        if r != Rank::Equal {
            return r;
        }
        assert(pi.drop_first() =~= ps.skip(i + 1));
        assert(qi.drop_first() =~= qs.skip(i + 1));
        i = i + 1;
    }
}

/// Compares two version texts part by part, numerically where both parts
/// are numbers: `10.0.0` comes after `9.0.0`, and `1.10.0` after `1.9.0`.
pub fn compare_versions(version1: &str, version2: &str) -> (r: Result<
    core::cmp::Ordering,
    Error,
>)
    ensures
        r == Ok::<core::cmp::Ordering, Error>(ordering_of(version_rank(version1@, version2@))),
{
    Ok(to_ordering(version_rank_exec(version1, version2)))
}

/// Comparing two versions the other way round gives the opposite order.
pub proof fn version_rank_antisymmetric(a: Seq<char>, b: Seq<char>)
    ensures
        version_rank(b, a) == flip(version_rank(a, b)),
{
    parts_rank_flip(split(a, '.'), split(b, '.'));
}

/// Every version is equal to itself.
pub proof fn version_rank_reflexive(a: Seq<char>)
    ensures
        version_rank(a, a) == Rank::Equal,
{
    parts_rank_same(split(a, '.'));
}

/// Where two versions agree on their first `i` parts and the next parts are
/// both numbers, the smaller number comes first: `1.9.0` before `1.10.0`,
/// `9.0.0` before `10.0.0`.
pub proof fn version_first_differing_number_decides(a: Seq<char>, b: Seq<char>, i: int)
    requires
        0 <= i < split(a, '.').len(),
        i < split(b, '.').len(),
        forall|j: int| 0 <= j < i ==> split(a, '.')[j] == split(b, '.')[j],
        part_number(split(a, '.')[i]) is Some,
        part_number(split(b, '.')[i]) is Some,
        part_number(split(a, '.')[i]).unwrap() < part_number(split(b, '.')[i]).unwrap(),
    ensures
        version_rank(a, b) == Rank::Less,
        version_rank(b, a) == Rank::Greater,
{
    parts_first_difference(split(a, '.'), split(b, '.'), i);
    version_rank_antisymmetric(a, b);
}

/// A version whose parts all begin another, longer version comes before
/// it: `18.0` before `18.0.0`.
pub proof fn version_prefix_comes_first(a: Seq<char>, b: Seq<char>)
    requires
        split(a, '.').len() < split(b, '.').len(),
        forall|j: int| 0 <= j < split(a, '.').len() ==> split(a, '.')[j] == split(b, '.')[j],
    ensures
        version_rank(a, b) == Rank::Less,
        version_rank(b, a) == Rank::Greater,
{
    parts_prefix_first(split(a, '.'), split(b, '.'));
    version_rank_antisymmetric(a, b);
}

proof fn part_rank_same(a: Seq<char>)
    ensures
        part_rank(a, a) == Rank::Equal,
{
    lex_rank_same(a);
}

proof fn parts_first_difference(p: Seq<Seq<char>>, q: Seq<Seq<char>>, i: int)
    requires
        0 <= i < p.len(),
        i < q.len(),
        forall|j: int| 0 <= j < i ==> p[j] == q[j],
        part_number(p[i]) is Some,
        part_number(q[i]) is Some,
        part_number(p[i]).unwrap() < part_number(q[i]).unwrap(),
    ensures
        parts_rank(p, q) == Rank::Less,
    decreases i,
{
    if i > 0 {
        assert(p[0] == q[0]);
        part_rank_same(p[0]);
        assert forall|j: int| 0 <= j < i - 1 implies p.drop_first()[j] == q.drop_first()[j] by {
            assert(p[j + 1] == q[j + 1]);
        }
        parts_first_difference(p.drop_first(), q.drop_first(), i - 1);
    }
}

proof fn parts_prefix_first(p: Seq<Seq<char>>, q: Seq<Seq<char>>)
    requires
        p.len() < q.len(),
        forall|j: int| 0 <= j < p.len() ==> p[j] == q[j],
    ensures
        parts_rank(p, q) == Rank::Less,
    decreases p.len(),
{
    if p.len() > 0 {
        assert(p[0] == q[0]);
        part_rank_same(p[0]);
        assert forall|j: int| 0 <= j < p.drop_first().len() implies p.drop_first()[j]
            == q.drop_first()[j] by {
            assert(p[j + 1] == q[j + 1]);
        }
        parts_prefix_first(p.drop_first(), q.drop_first());
    }
}

proof fn part_rank_flip(a: Seq<char>, b: Seq<char>)
    ensures
        part_rank(b, a) == flip(part_rank(a, b)),
{
    lex_rank_flip(a, b);
}

proof fn parts_rank_flip(p: Seq<Seq<char>>, q: Seq<Seq<char>>)
    ensures
        parts_rank(q, p) == flip(parts_rank(p, q)),
    decreases p.len(),
{
    if p.len() > 0 && q.len() > 0 {
        part_rank_flip(p[0], q[0]);
        parts_rank_flip(p.drop_first(), q.drop_first());
    }
}

proof fn parts_rank_same(p: Seq<Seq<char>>)
    ensures
        parts_rank(p, p) == Rank::Equal,
    decreases p.len(),
{
    if p.len() > 0 {
        lex_rank_same(p[0]);
        parts_rank_same(p.drop_first());
    }
}

// ---------------------------------------------------------------------------
// The release index
// ---------------------------------------------------------------------------

/// The `lts` field of a release in the index: `false`, or the release line's
/// name, or something else.
#[derive(Debug)]
pub enum LtsValue {
    /// A boolean.
    Bool(bool),
    /// A text, such as the name of the release line.
    Text(String),
    /// Any other JSON value.
    Other,
}

/// A release as the Node.js index lists it.
#[derive(Debug)]
pub struct NodeVersionInfo {
    /// The version, such as `v18.0.0`.
    pub version: String,
    /// The release date.
    pub date: String,
    /// The files published for the release.
    pub files: Vec<String>,
    /// The bundled npm version.
    pub npm: Option<String>,
    /// The bundled V8 version.
    pub v8: Option<String>,
    /// The bundled libuv version.
    pub uv: Option<String>,
    /// The bundled zlib version.
    pub zlib: Option<String>,
    /// The bundled OpenSSL version.
    pub openssl: Option<String>,
    /// The module ABI version.
    pub modules: Option<String>,
    /// The LTS mark.
    pub lts: Option<LtsValue>,
}

/// Whether an `lts` mark makes a release a long-term-support release: `true`,
/// or a non-empty text other than `false` in any case.
pub open spec fn lts_flag(lts: Option<LtsValue>) -> bool {
    match lts {
        Some(LtsValue::Bool(b)) => b,
        Some(LtsValue::Text(s)) => s@.len() > 0 && lower_seq(s@) != "false"@,
        _ => false,
    }
}

impl NodeVersionInfo {
    /// Whether the release is a long-term-support release.
    pub fn is_lts(&self) -> (b: bool)
        ensures
            b == lts_flag(self.lts),
    {
        match &self.lts {
            Some(LtsValue::Bool(b)) => *b,
            Some(LtsValue::Text(s)) => {
                let v = chars_of(s.as_str());
                let l = vec_lower(&v);
                let f = chars_of("false");
                v.len() > 0 && !seq_eq(&l, &f)
            },
            _ => false,
        }
    }
}

/// Whether a release of index version `info` answers the request `wanted`
/// (a version with or without its leading `v`).
pub open spec fn release_matches(info: Seq<char>, wanted: Seq<char>) -> bool {
    info == seq!['v'] + wanted || info == wanted
}

/// Whether the release `r` is what `wanted` asks for: `lts` asks for a
/// long-term-support release; other texts ask for that version.
pub open spec fn release_wanted(r: NodeVersionInfo, wanted: Seq<char>) -> bool {
    if wanted == "lts"@ {
        lts_flag(r.lts)
    } else {
        release_matches(r.version@, wanted)
    }
}

/// The index of the release that `wanted` names in `releases`, newest first:
/// `latest` is the first release; otherwise the first release that
/// `release_wanted` accepts.
pub open spec fn chosen_release(releases: Seq<NodeVersionInfo>, wanted: Seq<char>, i: int) -> bool {
    0 <= i < releases.len() && if wanted == "latest"@ {
        i == 0
    } else {
        release_wanted(releases[i], wanted) && forall|j: int|
            0 <= j < i ==> !release_wanted(#[trigger] releases[j], wanted)
    }
}

/// A request names at most one release: the chosen index is unique.
pub proof fn chosen_release_unique(releases: Seq<NodeVersionInfo>, wanted: Seq<char>, i: int, j: int)
    requires
        chosen_release(releases, wanted, i),
        chosen_release(releases, wanted, j),
    ensures
        i == j,
{
    if wanted != "latest"@ {
        if i < j {
            assert(!release_wanted(releases[i], wanted));
        } else if j < i {
            assert(!release_wanted(releases[j], wanted));
        }
    }
}

/// A version asked for with or without its leading `v` picks the same
/// release.
pub proof fn release_request_ignores_leading_v(r: NodeVersionInfo, version: Seq<char>)
    requires
        version != "lts"@,
        seq!['v'] + version != "lts"@,
        r.version@ == seq!['v'] + version,
    ensures
        release_wanted(r, version),
        release_wanted(r, seq!['v'] + version),
{
}

/// Picks the release that `version` names from the index (newest first), or
/// fails with `Version {version} not found`.
pub fn select_release(releases: &Vec<NodeVersionInfo>, version: &str) -> (r: Result<usize, Error>)
    ensures
        r matches Ok(i) ==> chosen_release(releases@, version@, i as int),
        r is Err <==> !exists|i: int| chosen_release(releases@, version@, i),
        r matches Err(e) ==> e matches Error::Runtime(m) && m@ == "Version "@ + version@
            + " not found"@,
{
    let w = chars_of(version);
    let latest = chars_of("latest");
    let lts = chars_of("lts");
    if seq_eq(&w, &latest) {
        if releases.len() > 0 {
            assert(chosen_release(releases@, version@, 0));
            return Ok(0);
        }
        return Err(Error::Runtime(concat3("Version ", version, " not found")));
    }
    let want_lts = seq_eq(&w, &lts);
    let mut vw: Vec<char> = Vec::new();
    vw.push('v');
    let vw = crate::text::vec_concat(&vw, &w);
    assert(vw@ == seq!['v'] + version@);
    let mut i: usize = 0;
    while i < releases.len()
        invariant
            i <= releases.len(),
            w@ == version@,
            vw@ == seq!['v'] + version@,
            version@ != "latest"@,
            want_lts == (version@ == "lts"@),
            forall|j: int| 0 <= j < i ==> !release_wanted(#[trigger] releases@[j], version@),
        decreases releases.len() - i,
    {
        let ok = if want_lts {
            releases[i].is_lts()
        } else {
            let rv = chars_of(releases[i].version.as_str());
            seq_eq(&rv, &vw) || seq_eq(&rv, &w)
        };
        if ok {
            assert(chosen_release(releases@, version@, i as int));
            return Ok(i);
        }
        i = i + 1;
    }
    Err(Error::Runtime(concat3("Version ", version, " not found")))
}

// ---------------------------------------------------------------------------
// Archives
// ---------------------------------------------------------------------------

/// `s` with every `from` replaced by `to`.
pub open spec fn replace_char(s: Seq<char>, from: char, to: char) -> Seq<char> {
    s.map_values(|c: char| if c == from { to } else { c })
}

/// The top directory of a zip archive, read from its first entry name: the
/// text before the first `/`, or nothing where the name has no `/` or the
/// archive is empty.
pub open spec fn zip_root(first: Option<Seq<char>>) -> Seq<char> {
    match first {
        Some(n) => if n.contains('/') {
            split(n, '/')[0]
        } else {
            Seq::empty()
        },
        None => Seq::empty(),
    }
}

/// The top directory of a zip archive from the name of its first entry.
pub fn zip_root_dir(first_entry: Option<&str>) -> (r: String)
    ensures
        r@ == zip_root(match first_entry {
            Some(n) => Some(n@),
            None => None,
        }),
{
    match first_entry {
        Some(n) => {
            let v = chars_of(n);
            let parts = split_exec(&v, '/');
            let mut has_slash = false;
            let mut i: usize = 0;
            while i < v.len()
                invariant
                    i <= v.len(),
                    has_slash == exists|j: int| 0 <= j < i && v@[j] == '/',
                decreases v.len() - i,
            {
                if v[i] == '/' {
                    has_slash = true;
                }
                i = i + 1;
            }
            if has_slash {
                assert(parts@[0]@ == split(v@, '/')[0]);
                string_from_chars(&parts[0])
            } else {
                assert(!v@.contains('/'));
                String::new()
            }
        },
        None => String::new(),
    }
}

/// Where an entry of a zip archive goes, relative to the version directory,
/// or `None` for an entry that is skipped (the top directory itself). Under a
/// top directory `root`, its entries lose the `root/` prefix and have `/`
/// replaced by `separator`; other entries keep their name.
pub open spec fn zip_entry_target(root: Seq<char>, name: Seq<char>, separator: char) -> Option<
    Seq<char>,
> {
    if root.len() > 0 && starts_with(name, root) {
        if name.len() > root.len() + 1 {
            Some(replace_char(name.skip(root.len() as int + 1), '/', separator))
        } else {
            None
        }
    } else {
        Some(name)
    }
}

/// Where an archive entry `name` goes under the top directory `root`. The
/// character just after `root` must take one byte in UTF-8: the name is cut
/// one byte after `root`, which must fall on a character boundary.
pub fn zip_entry_path(root: &str, name: &str, separator: char) -> (r: Option<String>)
    requires
        root@.len() > 0 && starts_with(name@, root@) && name@.len() > root@.len() ==> (
        name@[root@.len() as int] as u32) < 128,
    ensures
        r matches Some(p) ==> zip_entry_target(root@, name@, separator) == Some(p@),
        r is None ==> zip_entry_target(root@, name@, separator) is None,
{
    let rv = chars_of(root);
    let nv = chars_of(name);
    if rv.len() > 0 && vec_starts_with(&nv, &rv) {
        if nv.len() - rv.len() > 1 {
            let rest = vec_skip(&nv, rv.len() + 1);
            let mut out: Vec<char> = Vec::new();
            let mut i: usize = 0;
            while i < rest.len()
                invariant
                    i <= rest.len(),
                    out@ == replace_char(rest@.subrange(0, i as int), '/', separator),
                decreases rest.len() - i,
            {
                let c = rest[i];
                out.push(if c == '/' { separator } else { c });
                i = i + 1;
                assert(out@ =~= replace_char(rest@.subrange(0, i as int), '/', separator));
            }
            assert(rest@.subrange(0, rest.len() as int) =~= rest@);
            Some(string_from_chars(&out))
        } else {
            None
        }
    } else {
        Some(owned(name))
    }
}

/// The top directory of an archive whose first entry is `root/rest` is
/// `root`, where `root` has no `/` of its own.
pub proof fn zip_root_of_entry(root: Seq<char>, rest: Seq<char>)
    requires
        !root.contains('/'),
    ensures
        zip_root(Some(root + seq!['/'] + rest)) == root,
{
    let n = root + seq!['/'] + rest;
    assert(n[root.len() as int] == '/');
    split_around_separator(root, rest, '/');
    split_without_sep(root, '/');
}

/// An entry `root/rest` of an archive with top directory `root` goes to
/// `rest`, each `/` in it made `separator` and nothing else changed; with
/// `/` as the separator it goes to `rest` itself. The top directory's own
/// entries (`root` and `root/`) are skipped, and an entry outside `root`
/// keeps its name.
pub proof fn zip_entry_under_root(root: Seq<char>, rest: Seq<char>, name: Seq<char>, separator: char)
    requires
        root.len() > 0,
        rest.len() > 0,
    ensures
        zip_entry_target(root, root + seq!['/'] + rest, separator) matches Some(t) && t.len()
            == rest.len() && (forall|i: int|
            0 <= i < rest.len() ==> #[trigger] t[i] == (if rest[i] == '/' {
                separator
            } else {
                rest[i]
            })),
        zip_entry_target(root, root + seq!['/'] + rest, '/') == Some(rest),
        zip_entry_target(root, root, separator) is None,
        zip_entry_target(root, root + seq!['/'], separator) is None,
        !starts_with(name, root) ==> zip_entry_target(root, name, separator) == Some(name),
{
    let n = root + seq!['/'] + rest;
    assert(n.subrange(0, root.len() as int) =~= root);
    assert(n.skip(root.len() as int + 1) =~= rest);
    assert(replace_char(rest, '/', '/') =~= rest);
    assert(root.subrange(0, root.len() as int) =~= root);
    assert((root + seq!['/']).subrange(0, root.len() as int) =~= root);
}

/// The names of installed versions among the entries of the install
/// directory: the entries whose name starts with `v` and that hold a Node.js
/// executable (`entries` pairs a directory name with that fact).
pub open spec fn installed_names(entries: Seq<(String, bool)>) -> Seq<Seq<char>> {
    entries.filter_map(
        |e: (String, bool)|
            if e.1 && e.0@.len() > 0 && e.0@[0] == 'v' {
                Some(e.0@)
            } else {
                None
            },
    )
}

/// The installed versions among two runs of entries, one after the other,
/// are those of the first run and then those of the second.
pub proof fn installed_names_of_concat(a: Seq<(String, bool)>, b: Seq<(String, bool)>)
    ensures
        installed_names(a + b) == installed_names(a) + installed_names(b),
    decreases b.len(),
{
    if b.len() == 0 {
        assert(a + b =~= a);
        assert(installed_names(b) =~= Seq::<Seq<char>>::empty());
        assert(installed_names(a) + installed_names(b) =~= installed_names(a));
    } else {
        installed_names_of_concat(a, b.drop_last());
        assert((a + b).drop_last() =~= a + b.drop_last());
        assert((a + b).last() == b.last());
    }
}

/// An entry is listed as installed exactly when it holds an executable and
/// its name starts with `v`; it is listed under its own name.
pub proof fn installed_names_of_one(e: (String, bool))
    ensures
        installed_names(seq![e]) == (if e.1 && e.0@.len() > 0 && e.0@[0] == 'v' {
            seq![e.0@]
        } else {
            Seq::<Seq<char>>::empty()
        }),
{
    assert(seq![e].drop_last() =~= Seq::<(String, bool)>::empty());
    assert(seq![e].last() == e);
    assert(installed_names(Seq::<(String, bool)>::empty()) =~= Seq::<Seq<char>>::empty());
    assert(Seq::<Seq<char>>::empty() + seq![e.0@] =~= seq![e.0@]);
}

// ---------------------------------------------------------------------------
// The installer's settings
// ---------------------------------------------------------------------------

/// Settings of the Node.js installer.
#[derive(Debug)]
pub struct NodeInstallerConfig {
    /// Base URL of the download mirror.
    pub mirror_url: String,
    /// Where versions are installed.
    pub install_dir: String,
    /// Whether long-term-support releases are preferred.
    pub prefer_lts: bool,
}

/// The default install directory: `.ai00-run/node` under the home directory,
/// or under `.` where no home directory is known.
pub open spec fn default_node_root(home: Option<Seq<char>>) -> Seq<char> {
    let base = match home {
        Some(h) => h,
        None => "."@,
    };
    join(join(base, ".ai00-run"@), "node"@)
}

/// Where version `version` is installed under `root`: `root/v{version}`.
pub open spec fn version_dir_of(root: Seq<char>, version: Seq<char>) -> Seq<char> {
    join(root, seq!['v'] + version)
}

/// Where version `version` is installed under `root`, joined as paths are
/// on `os`.
pub open spec fn version_dir_on(root: Seq<char>, version: Seq<char>, os: OsFamily) -> Seq<char> {
    join_on(root, seq!['v'] + version, os)
}

/// The Node.js executable inside a version directory.
pub open spec fn node_exe_in(dir: Seq<char>, os: OsFamily) -> Seq<char> {
    if os == OsFamily::Windows {
        join_on(dir, "node.exe"@, os)
    } else {
        join_on(join_on(dir, "bin"@, os), "node"@, os)
    }
}

/// The platform name in Node.js download file names.
pub open spec fn platform_name(os: OsFamily) -> Seq<char> {
    if os == OsFamily::Windows {
        "win"@
    } else if os == OsFamily::MacOs {
        "darwin"@
    } else {
        "linux"@
    }
}

/// The architecture name in Node.js download file names: `x64` on x86-64,
/// `arm64` on everything else.
pub open spec fn arch_name(arch: Arch) -> Seq<char> {
    if arch == Arch::X86_64 {
        "x64"@
    } else {
        "arm64"@
    }
}

/// The archive extension: `zip` on Windows, `tar.gz` elsewhere.
pub open spec fn archive_ext(os: OsFamily) -> Seq<char> {
    if os == OsFamily::Windows {
        "zip"@
    } else {
        "tar.gz"@
    }
}

/// The download URL of release `version` (with its leading `v`):
/// `{mirror}/{version}/node-{version}-{platform}-{arch}.{ext}`.
pub open spec fn download_url_of(mirror: Seq<char>, version: Seq<char>, os: OsFamily, arch: Arch) -> Seq<char> {
    mirror + "/"@ + version + "/"@ + "node-"@ + version + "-"@ + platform_name(os) + "-"@
        + arch_name(arch) + "."@ + archive_ext(os)
}

/// The installer of Node.js versions. It keeps its settings; downloading and
/// unpacking are done by the caller with the names and paths it gives.
#[derive(Debug)]
pub struct NodeInstaller {
    config: NodeInstallerConfig,
}

impl NodeInstaller {
    /// The installer's settings.
    pub closed spec fn settings(&self) -> NodeInstallerConfig {
        self.config
    }

    /// An installer that installs under `install_dir`, or under the default
    /// directory for the home directory `home` where none is given.
    pub fn with_home(install_dir: Option<String>, home: Option<String>) -> (r: Self)
        ensures
            r.settings().mirror_url@ == "https://nodejs.org/dist"@,
            r.settings().prefer_lts,
            r.settings().install_dir@ == match install_dir {
                Some(d) => d@,
                None => default_node_root(opt_view(home)),
            },
    {
        let dir = match install_dir {
            Some(d) => d,
            None => {
                let base = match home {
                    Some(h) => h,
                    None => owned("."),
                };
                let a = join_path(base.as_str(), ".ai00-run");
                join_path(a.as_str(), "node")
            },
        };
        NodeInstaller {
            config: NodeInstallerConfig {
                mirror_url: owned("https://nodejs.org/dist"),
                install_dir: dir,
                prefer_lts: true,
            },
        }
    }

    /// An installer that installs under `install_dir`, or under
    /// `.ai00-run/node` in the user's home directory.
    pub fn new(install_dir: Option<String>) -> (r: Self)
        ensures
            r.settings().mirror_url@ == "https://nodejs.org/dist"@,
            r.settings().prefer_lts,
            install_dir matches Some(d) ==> r.settings().install_dir@ == d@,
            install_dir is None ==> exists|h: Option<Seq<char>>|
                r.settings().install_dir@ == default_node_root(h),
    {
        let home = host::home_dir();
        let ghost h = opt_view(home);
        let r = Self::with_home(install_dir, home);
        proof {
            if install_dir is None {
                assert(r.settings().install_dir@ == default_node_root(h));
            }
        }
        r
    }

    /// The install directory.
    pub fn install_dir(&self) -> (d: &String)
        ensures
            d@ == self.settings().install_dir@,
    {
        &self.config.install_dir
    }

    /// The download mirror.
    pub fn mirror_url(&self) -> (m: &String)
        ensures
            m@ == self.settings().mirror_url@,
    {
        &self.config.mirror_url
    }

    /// Sets the install directory.
    pub fn set_install_dir(&mut self, install_dir: String)
        ensures
            final(self).settings().install_dir == install_dir,
            final(self).settings().mirror_url == old(self).settings().mirror_url,
            final(self).settings().prefer_lts == old(self).settings().prefer_lts,
    {
        self.config.install_dir = install_dir;
    }

    /// Sets the download mirror.
    pub fn set_mirror_url(&mut self, mirror_url: String)
        ensures
            final(self).settings().mirror_url == mirror_url,
            final(self).settings().install_dir == old(self).settings().install_dir,
            final(self).settings().prefer_lts == old(self).settings().prefer_lts,
    {
        self.config.mirror_url = mirror_url;
    }

    /// The directory of version `version`.
    pub fn version_dir(&self, version: &str) -> (d: String)
        ensures
            d@ == version_dir_of(self.settings().install_dir@, version@),
    {
        let name = concat2("v", version);
        proof {
            reveal_strlit("v");
        }
        assert(name@ =~= seq!['v'] + version@);
        join_path(self.config.install_dir.as_str(), name.as_str())
    }

    /// The directory of version `version`, joined as paths are on `os`.
    pub fn version_dir_for(&self, version: &str, os: OsFamily) -> (d: String)
        ensures
            d@ == version_dir_on(self.settings().install_dir@, version@, os),
    {
        let name = concat2("v", version);
        proof {
            reveal_strlit("v");
        }
        assert(name@ =~= seq!['v'] + version@);
        join_path_on(self.config.install_dir.as_str(), name.as_str(), os)
    }

    /// The executable of version `version`, given whether its directory
    /// (`version_dir_for`) and that executable (`node_executable`) are
    /// present: a runtime error where the directory is missing, another
    /// where the executable is. The version is installed exactly where this
    /// succeeds.
    pub fn node_path_outcome(&self, version: &str, os: OsFamily, dir_present: bool, exe_present: bool) -> (r: Result<String, Error>)
        ensures
            r is Ok <==> dir_present && exe_present,
            r matches Ok(p) ==> p@ == node_exe_in(
                version_dir_on(self.settings().install_dir@, version@, os),
                os,
            ),
            !dir_present ==> (r matches Err(Error::Runtime(m)) && m@ == "Node.js version "@
                + version@ + " is not installed"@),
            dir_present && !exe_present ==> (r matches Err(Error::Runtime(m)) && m@
                == "Node.js executable not found at: "@ + node_exe_in(
                version_dir_on(self.settings().install_dir@, version@, os),
                os,
            )),
    {
        if !dir_present {
            let mut m = concat2("Node.js version ", version);
            m.append(" is not installed");
            return Err(Error::Runtime(m));
        }
        let exe = self.node_executable(version, os);
        if !exe_present {
            return Err(Error::Runtime(concat2("Node.js executable not found at: ", exe.as_str())));
        }
        Ok(exe)
    }

    /// The Node.js executable of version `version`.
    pub fn node_executable(&self, version: &str, os: OsFamily) -> (p: String)
        ensures
            p@ == node_exe_in(version_dir_on(self.settings().install_dir@, version@, os), os),
    {
        let name = concat2("v", version);
        proof {
            reveal_strlit("v");
        }
        assert(name@ =~= seq!['v'] + version@);
        let dir = join_path_on(self.config.install_dir.as_str(), name.as_str(), os);
        match os {
            OsFamily::Windows => join_path_on(dir.as_str(), "node.exe", os),
            _ => {
                let bin = join_path_on(dir.as_str(), "bin", os);
                join_path_on(bin.as_str(), "node", os)
            },
        }
    }

    /// The download URL of the release `release_version` (as the index
    /// writes it, with its `v`) for the given platform.
    pub fn download_url(&self, release_version: &str, os: OsFamily, arch: Arch) -> (u: String)
        ensures
            u@ == download_url_of(self.settings().mirror_url@, release_version@, os, arch),
    {
        let platform = match os {
            OsFamily::Windows => "win",
            OsFamily::MacOs => "darwin",
            _ => "linux",
        };
        let arch_s = match arch {
            Arch::X86_64 => "x64",
            _ => "arm64",
        };
        let ext = match os {
            OsFamily::Windows => "zip",
            _ => "tar.gz",
        };
        let mut u = concat3(self.config.mirror_url.as_str(), "/", release_version);
        u.append("/");
        u.append("node-");
        u.append(release_version);
        u.append("-");
        u.append(platform);
        u.append("-");
        u.append(arch_s);
        u.append(".");
        u.append(ext);
        u
    }
}

/// The last `/`-separated part of `url`: the name a download is saved under.
pub fn download_file_name(url: &str) -> (n: String)
    ensures
        n@ == split(url@, '/').last(),
{
    let v = chars_of(url);
    let parts = split_exec(&v, '/');
    assert(parts@[parts.len() - 1]@ == split(url@, '/').last());
    string_from_chars(&parts[parts.len() - 1])
}

/// The installed versions among the entries of the install directory.
pub fn installed_version_names(entries: &Vec<(String, bool)>) -> (r: Vec<String>)
    ensures
        r@.map_values(|s: String| s@) == installed_names(entries@),
{
    let mut out: Vec<String> = Vec::new();
    let mut i: usize = 0;
    while i < entries.len()
        invariant
            i <= entries.len(),
            out@.map_values(|s: String| s@) == installed_names(entries@.subrange(0, i as int)),
        decreases entries.len() - i,
    {
        let ghost pre = entries@.subrange(0, i as int);
        assert(entries@.subrange(0, i + 1).drop_last() =~= pre);
        assert(entries@.subrange(0, i + 1).last() == entries@[i as int]);
        let name = chars_of(entries[i].0.as_str());
        if entries[i].1 && name.len() > 0 && name[0] == 'v' {
            let ghost prev = out@.map_values(|s: String| s@);
            out.push(entries[i].0.clone());
            assert(out@.map_values(|s: String| s@) =~= prev + seq![entries@[i as int].0@]);
        }
        i = i + 1;
    }
    assert(entries@.subrange(0, entries.len() as int) =~= entries@);
    out
}

/// Where the Node.js executable may be after a release archive is unpacked
/// into `dir`, in the order they are tried: on Windows `node.exe` at the top
/// and then `bin/node.exe`; elsewhere `bin/node`.
pub open spec fn unpacked_candidates(dir: Seq<char>, os: OsFamily) -> Seq<Seq<char>> {
    if os == OsFamily::Windows {
        seq![join_on(dir, "node.exe"@, os), join_on(join_on(dir, "bin"@, os), "node.exe"@, os)]
    } else {
        seq![join_on(join_on(dir, "bin"@, os), "node"@, os)]
    }
}

/// The first candidate, from position `i` on, that `exists` marks as present
/// (candidates without a mark count as absent).
pub open spec fn first_present(candidates: Seq<Seq<char>>, exists: Seq<bool>, i: int) -> Option<
    Seq<char>,
>
    decreases candidates.len() - i,
{
    if i < 0 || i >= candidates.len() || i >= exists.len() {
        None
    } else if exists[i] {
        Some(candidates[i])
    } else {
        first_present(candidates, exists, i + 1)
    }
}

/// The places the Node.js executable may be after unpacking into `dir`.
pub fn unpacked_node_candidates(dir: &str, os: OsFamily) -> (r: Vec<String>)
    ensures
        seq_view(r@) == unpacked_candidates(dir@, os),
{
    let mut r: Vec<String> = Vec::new();
    match os {
        OsFamily::Windows => {
            r.push(join_path_on(dir, "node.exe", os));
            let bin = join_path_on(dir, "bin", os);
            r.push(join_path_on(bin.as_str(), "node.exe", os));
        },
        _ => {
            let bin = join_path_on(dir, "bin", os);
            r.push(join_path_on(bin.as_str(), "node", os));
        },
    }
    assert(seq_view(r@) =~= unpacked_candidates(dir@, os));
    r
}

/// The Node.js executable found after unpacking into `dir`: the first of
/// `candidates` that `exists` marks as present, else a runtime error
/// `Node executable not found in {dir}`.
pub fn unpacked_node_choice(dir: &str, candidates: &Vec<String>, exists: &Vec<bool>) -> (r: Result<
    String,
    Error,
>)
    ensures
        match first_present(seq_view(candidates@), exists@, 0) {
            Some(p) => r matches Ok(x) && x@ == p,
            None => r matches Err(Error::Runtime(m)) && m@ == "Node executable not found in "@
                + dir@,
        },
{
    let ghost c = seq_view(candidates@);
    let mut i: usize = 0;
    while i < candidates.len() && i < exists.len()
        invariant
            i <= candidates.len(),
            c == seq_view(candidates@),
            first_present(c, exists@, 0) == first_present(c, exists@, i as int),
        decreases candidates.len() - i,
    {
        if exists[i] {
            return Ok(candidates[i].clone());
        }
        i = i + 1;
    }
    Err(Error::Runtime(concat2("Node executable not found in ", dir)))
}

} // verus!
