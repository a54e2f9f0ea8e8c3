//! Node.js runtime management: the steps of running `npx` under an installed
//! version.

use vstd::prelude::*;

use crate::error::Error;
use crate::number::{i32_text, signed_decimal};
use crate::path::{join_on, join_path_on, OsFamily};
use crate::run::executor::{quoted, quoted_args};
use crate::run::ScriptResult;
use crate::text::{
    chars_of, concat2, owned, seq_eq, seq_view, string_from_chars, strip_all_prefix,
    strip_all_prefix_exec,
};

pub mod installer;
pub mod manager;

verus! {

/// The version `npx` runs under: for `current`, the first installed version
/// without its leading `v`s (an error where none is installed); else the
/// version asked for.
pub open spec fn npx_version(version: Seq<char>, installed: Seq<Seq<char>>) -> Result<
    Seq<char>,
    Seq<char>,
> {
    if version == "current"@ {
        if installed.len() == 0 {
            Err("No Node.js versions installed"@)
        } else {
            Ok(strip_all_prefix(installed[0], "v"@))
        }
    } else {
        Ok(version)
    }
}

/// Where `npx` is looked for, from the directory that holds the Node.js
/// executable: `npx.cmd` there on Windows, `npx` there elsewhere (that
/// directory is the version's `bin`).
pub open spec fn npx_beside(node_dir: Seq<char>, os: OsFamily) -> Seq<char> {
    if os == OsFamily::Windows {
        join_on(node_dir, "npx.cmd"@, os)
    } else {
        join_on(node_dir, "npx"@, os)
    }
}

/// The `npx` command line: the quoted `npx` path, the command as it is, and
/// each argument quoted.
pub open spec fn npx_line(npx: Seq<char>, command: Seq<char>, args: Seq<Seq<char>>) -> Seq<char> {
    quoted(npx) + seq![' '] + command + quoted_args(args)
}

/// Runs Node.js tools under installed versions.
#[derive(Debug)]
pub struct NodeManager;

impl Default for NodeManager {
    fn default() -> (m: Self) {
        NodeManager
    }
}

impl NodeManager {
    /// A Node.js manager.
    pub fn new() -> (m: Self) {
        NodeManager
    }

    /// The version `npx` runs under, given the installed versions in the
    /// order they were listed.
    pub fn npx_target_version(&self, version: &str, installed: &Vec<String>) -> (r: Result<
        String,
        Error,
    >)
        ensures
            match npx_version(version@, seq_view(installed@)) {
                Ok(v) => r matches Ok(s) && s@ == v,
                Err(m) => r matches Err(Error::Version(e)) && e@ == m,
            },
    {
        if seq_eq(&chars_of(version), &chars_of("current")) {
            if installed.len() == 0 {
                return Err(Error::Version(owned("No Node.js versions installed")));
            }
            let first = chars_of(installed[0].as_str());
            let v = chars_of("v");
            let stripped = strip_all_prefix_exec(&first, &v);
            Ok(string_from_chars(&stripped))
        } else {
            Ok(owned(version))
        }
    }

    /// Whether `npx` can run under version `target`: the version must be
    /// installed and its `npx` present.
    pub fn npx_readiness(&self, target: &str, installed: bool, npx_present: bool) -> (r: Result<
        (),
        Error,
    >)
        ensures
            r is Ok <==> installed && npx_present,
            !installed ==> (r matches Err(Error::Version(m)) && m@ == "Node.js version "@ + target@
                + " is not installed"@),
            installed && !npx_present ==> (r matches Err(Error::Version(m)) && m@
                == "npx not found for Node.js version "@ + target@),
    {
        if !installed {
            let mut m = concat2("Node.js version ", target);
            m.append(" is not installed");
            return Err(Error::Version(m));
        }
        if !npx_present {
            return Err(Error::Version(concat2("npx not found for Node.js version ", target)));
        }
        Ok(())
    }

    /// Where `npx` is looked for, from the directory that holds the Node.js
    /// executable.
    pub fn npx_path(&self, node_dir: &str, os: OsFamily) -> (p: String)
        ensures
            p@ == npx_beside(node_dir@, os),
    {
        match os {
            OsFamily::Windows => join_path_on(node_dir, "npx.cmd", os),
            _ => join_path_on(node_dir, "npx", os),
        }
    }

    /// The command line that runs `npx` with `command` and `args`.
    pub fn npx_command_line(&self, npx: &str, command: &str, args: &Vec<String>) -> (r: String)
        ensures
            r@ == npx_line(npx@, command@, seq_view(args@)),
    {
        proof {
            reveal_strlit("\"");
            reveal_strlit("\" ");
            reveal_strlit(" \"");
        }
        let mut line = concat2("\"", npx);
        line.append("\" ");
        line.append(command);
        assert(line@ =~= quoted(npx@) + seq![' '] + command@ + quoted_args(
            seq_view(args@).subrange(0, 0),
        ));
        let mut i: usize = 0;
        while i < args.len()
            invariant
                i <= args.len(),
                line@ == quoted(npx@) + seq![' '] + command@ + quoted_args(
                    seq_view(args@).subrange(0, i as int),
                ),
            decreases args.len() - i,
        {
            proof {
                reveal_strlit("\"");
                reveal_strlit(" \"");
            }
            line.append(" \"");
            line.append(args[i].as_str());
            line.append("\"");
            let ghost sub = seq_view(args@).subrange(0, i + 1);
            assert(sub.drop_last() =~= seq_view(args@).subrange(0, i as int));
            assert(sub.last() == args@[i as int]@);
            i = i + 1;
            assert(line@ =~= quoted(npx@) + seq![' '] + command@ + quoted_args(
                seq_view(args@).subrange(0, i as int),
            ));
        }
        assert(seq_view(args@).subrange(0, args.len() as int) =~= seq_view(args@));
        line
    }

    /// What a finished `npx` run answers: success where it exited with 0,
    /// else a script error with the exit code.
    pub fn npx_outcome(&self, result: &ScriptResult) -> (r: Result<(), Error>)
        ensures
            r is Ok <==> result.exit_code == 0,
            r matches Err(e) ==> e matches Error::Script(m) && m@
                == "npx command failed with exit code: "@ + signed_decimal(result.exit_code as int),
    {
        if result.is_success() {
            Ok(())
        } else {
            let code = i32_text(result.exit_code);
            Err(Error::Script(concat2("npx command failed with exit code: ", code.as_str())))
        }
    }
}

} // verus!
