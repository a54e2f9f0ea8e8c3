//! File-system paths as text.
//!
//! A path is the text of a `PathBuf`. `join` follows `Path::join` on Unix;
//! `join_on` joins as the named system does. Functions that are told the
//! system join with `join_on`; those that are not (the default and version
//! directories) join with `/`, which Windows accepts as well.

use vstd::prelude::*;

use crate::text::{chars_of, is_alpha, string_from_chars, vec_concat};

verus! {

/// The host's operating-system family, which decides file names and layout.
#[derive(Clone, Copy, Debug, PartialEq, Eq, Structural)]
pub enum OsFamily {
    /// Microsoft Windows.
    Windows,
    /// Apple macOS.
    MacOs,
    /// Linux and the other Unix systems.
    Linux,
    /// Any other system.
    Other,
}

/// The host's processor architecture.
#[derive(Clone, Copy, Debug, PartialEq, Eq, Structural)]
pub enum Arch {
    /// 64-bit x86.
    X86_64,
    /// 64-bit ARM.
    Aarch64,
    /// Any other architecture.
    Other,
}

/// `Path::join`: `comp` after `base`, with one separator between them where
/// `base` does not already end in one; an absolute `comp` replaces `base`.
pub open spec fn join(base: Seq<char>, comp: Seq<char>) -> Seq<char> {
    if comp.len() > 0 && comp[0] == '/' {
        comp
    } else if base.len() == 0 {
        comp
    } else if base.last() == '/' {
        base + comp
    } else {
        base + seq!['/'] + comp
    }
}

/// `base` joined with `comp`.
pub fn join_path(base: &str, comp: &str) -> (r: String)
    ensures
        r@ == join(base@, comp@),
{
    let b = chars_of(base);
    let c = chars_of(comp);
    if c.len() > 0 && c[0] == '/' {
        return string_from_chars(&c);
    }
    if b.len() == 0 {
        return string_from_chars(&c);
    }
    if b[b.len() - 1] == '/' {
        let r = vec_concat(&b, &c);
        return string_from_chars(&r);
    }
    let mut b2 = b.clone();
    b2.push('/');
    let r = vec_concat(&b2, &c);
    assert(r@ =~= b@ + seq!['/'] + c@);
    string_from_chars(&r)
}

/// A path separator on Windows: `\` or `/`.
pub open spec fn is_windows_separator(c: char) -> bool {
    c == '\\' || c == '/'
}

/// Whether `s` begins with a drive prefix such as `C:` (an ASCII letter and
/// a colon).
pub open spec fn has_drive(s: Seq<char>) -> bool {
    s.len() >= 2 && s[1] == ':' && is_alpha(s[0])
}

/// `base` joined with `comp` as paths are joined on `os` (`Path::join`).
/// Elsewhere than on Windows this is `join`. On Windows:
/// - a `comp` with a drive prefix replaces `base`;
/// - a `comp` that starts with `\` or `/` replaces all of `base` but its
///   drive prefix, if it has one;
/// - a `base` that is empty, only a drive prefix, or ends in `\` or `/` is
///   followed directly by `comp`;
/// - otherwise `\` comes between them.
/// Network (`\\server\share`) and verbatim (`\\?\`) prefixes are not
/// told apart from plain separators here.
pub open spec fn join_on(base: Seq<char>, comp: Seq<char>, os: OsFamily) -> Seq<char> {
    if os != OsFamily::Windows {
        join(base, comp)
    } else if has_drive(comp) {
        comp
    } else if comp.len() > 0 && is_windows_separator(comp[0]) {
        if has_drive(base) {
            base.subrange(0, 2) + comp
        } else {
            comp
        }
    } else if base.len() == 0 || (base.len() == 2 && has_drive(base)) {
        base + comp
    } else if is_windows_separator(base.last()) {
        base + comp
    } else {
        base + seq!['\\'] + comp
    }
}

fn drive_exec(s: &Vec<char>) -> (b: bool)
    ensures
        b == has_drive(s@),
{
    s.len() >= 2 && s[1] == ':' && (('a' <= s[0] && s[0] <= 'z') || ('A' <= s[0] && s[0] <= 'Z'))
}

/// `base` joined with `comp` as paths are joined on `os`.
pub fn join_path_on(base: &str, comp: &str, os: OsFamily) -> (r: String)
    ensures
        r@ == join_on(base@, comp@, os),
{
    match os {
        OsFamily::Windows => {},
        _ => {
            return join_path(base, comp);
        },
    }
    let b = chars_of(base);
    let c = chars_of(comp);
    if drive_exec(&c) {
        return string_from_chars(&c);
    }
    if c.len() > 0 && (c[0] == '\\' || c[0] == '/') {
        if drive_exec(&b) {
            let mut d: Vec<char> = Vec::new();
            d.push(b[0]);
            d.push(b[1]);
            assert(d@ =~= b@.subrange(0, 2));
            let r = vec_concat(&d, &c);
            return string_from_chars(&r);
        }
        return string_from_chars(&c);
    }
    if b.len() == 0 || (b.len() == 2 && drive_exec(&b)) {
        let r = vec_concat(&b, &c);
        return string_from_chars(&r);
    }
    let last = b[b.len() - 1];
    if last == '\\' || last == '/' {
        let r = vec_concat(&b, &c);
        return string_from_chars(&r);
    }
    let mut b2 = b.clone();
    b2.push('\\');
    let r = vec_concat(&b2, &c);
    assert(r@ =~= b@ + seq!['\\'] + c@);
    string_from_chars(&r)
}

} // verus!
