//! Where the library keeps its files, and what it reports about itself.

use vstd::prelude::*;

use crate::host;
use crate::path::{join, join_path};
use crate::text::{concat2, opt_view, owned, seq_view, versions_with_prefix, with_prefix_stripped};
use crate::{NAME, VERSION};

verus! {

/// The install directory for a data directory: `ai00-run` under it, or
/// under `.ai00-run` where none is known.
pub open spec fn install_dir_for(data_dir: Option<Seq<char>>) -> Seq<char> {
    join(
        match data_dir {
            Some(d) => d,
            None => ".ai00-run"@,
        },
        "ai00-run"@,
    )
}

/// The `uv` cache directory for a working directory: `uv-cache` under it,
/// or under `.` where none is known.
pub open spec fn uv_cache_dir_for(current_dir: Option<Seq<char>>) -> Seq<char> {
    join(
        match current_dir {
            Some(d) => d,
            None => "."@,
        },
        "uv-cache"@,
    )
}

/// The text that describes the library: name and version, then the two
/// directories, each on a line of its own.
pub open spec fn info_text(name: Seq<char>, version: Seq<char>, install_dir: Seq<char>, uv_cache_dir: Seq<char>) -> Seq<char> {
    name + " v"@ + version + "\nInstallation Directory: "@ + install_dir + "\nUV Cache Directory: "@
        + uv_cache_dir
}

/// Sets up the library's directories.
#[derive(Debug)]
pub struct InitManager {
    install_dir: String,
    uv_cache_dir: String,
}

impl InitManager {
    /// The install directory.
    pub closed spec fn install_path(&self) -> Seq<char> {
        self.install_dir@
    }

    /// The `uv` cache directory.
    pub closed spec fn cache_path(&self) -> Seq<char> {
        self.uv_cache_dir@
    }

    /// A manager for the given data directory and working directory.
    pub fn for_locations(data_dir: Option<String>, current_dir: Option<String>) -> (m: Self)
        ensures
            m.install_path() == install_dir_for(opt_view(data_dir)),
            m.cache_path() == uv_cache_dir_for(opt_view(current_dir)),
    {
        let base = match data_dir {
            Some(d) => d,
            None => owned(".ai00-run"),
        };
        let work = match current_dir {
            Some(d) => d,
            None => owned("."),
        };
        InitManager {
            install_dir: join_path(base.as_str(), "ai00-run"),
            uv_cache_dir: join_path(work.as_str(), "uv-cache"),
        }
    }

    /// A manager for the user's data directory and the working directory
    /// `current_dir`.
    pub fn new(current_dir: Option<String>) -> (m: Self)
        ensures
            exists|d: Option<Seq<char>>| m.install_path() == install_dir_for(d),
            m.cache_path() == uv_cache_dir_for(opt_view(current_dir)),
    {
        let data = host::data_dir();
        let ghost d = opt_view(data);
        let m = Self::for_locations(data, current_dir);
        assert(m.install_path() == install_dir_for(d));
        m
    }

    /// A manager with the given directories.
    pub fn with_config(install_dir: String, uv_cache_dir: String) -> (m: Self)
        ensures
            m.install_path() == install_dir@,
            m.cache_path() == uv_cache_dir@,
    {
        InitManager { install_dir, uv_cache_dir }
    }

    /// The install directory.
    pub fn install_dir(&self) -> (d: &String)
        ensures
            d@ == self.install_path(),
    {
        &self.install_dir
    }

    /// The `uv` cache directory.
    pub fn uv_cache_dir(&self) -> (d: &String)
        ensures
            d@ == self.cache_path(),
    {
        &self.uv_cache_dir
    }

    /// The directory of the Python installations: `python` under the
    /// install directory.
    pub fn python_dir(&self) -> (d: String)
        ensures
            d@ == join(self.install_path(), "python"@),
    {
        join_path(self.install_dir.as_str(), "python")
    }

    /// The directory of the Node.js installations: `node` under the install
    /// directory.
    pub fn node_dir(&self) -> (d: String)
        ensures
            d@ == join(self.install_path(), "node"@),
    {
        join_path(self.install_dir.as_str(), "node")
    }

    /// Where a `uv` executable is kept in the cache directory.
    pub fn uv_executable(&self) -> (p: String)
        ensures
            p@ == join(self.cache_path(), "uv.exe"@),
    {
        join_path(self.uv_cache_dir.as_str(), "uv.exe")
    }

    /// The Python versions among the names of the directories in the Python
    /// installation directory: those named `python-{version}`.
    pub fn python_versions_in(dir_names: &Vec<String>) -> (r: Vec<String>)
        ensures
            seq_view(r@) == with_prefix_stripped(dir_names@, "python-"@),
    {
        versions_with_prefix(dir_names, "python-")
    }

    /// The Node.js versions among the names of the directories in the
    /// Node.js installation directory: those named `node-{version}`.
    pub fn node_versions_in(dir_names: &Vec<String>) -> (r: Vec<String>)
        ensures
            seq_view(r@) == with_prefix_stripped(dir_names@, "node-"@),
    {
        versions_with_prefix(dir_names, "node-")
    }

    /// The library's name, version and directories.
    pub fn get_library_info(&self) -> (i: LibraryInfo)
        ensures
            i.name@ == NAME@,
            i.version@ == VERSION@,
            i.install_dir@ == self.install_path(),
            i.uv_cache_dir@ == self.cache_path(),
    {
        LibraryInfo {
            name: owned(NAME),
            version: owned(VERSION),
            install_dir: self.install_dir.clone(),
            uv_cache_dir: self.uv_cache_dir.clone(),
        }
    }
}

/// What the library reports about itself.
#[derive(Debug)]
pub struct LibraryInfo {
    /// The library's name.
    pub name: String,
    /// The library's version.
    pub version: String,
    /// The install directory.
    pub install_dir: String,
    /// The `uv` cache directory.
    pub uv_cache_dir: String,
}

impl LibraryInfo {
    /// The description: `{name} v{version}`, then the install directory and
    /// the `uv` cache directory on lines of their own.
    pub fn display(&self) -> (s: String)
        ensures
            s@ == info_text(self.name@, self.version@, self.install_dir@, self.uv_cache_dir@),
    {
        let mut s = concat2(self.name.as_str(), " v");
        s.append(self.version.as_str());
        s.append("\nInstallation Directory: ");
        s.append(self.install_dir.as_str());
        s.append("\nUV Cache Directory: ");
        s.append(self.uv_cache_dir.as_str());
        s
    }
}

/// The library's name, version and directories, for the user's data
/// directory and the working directory `current_dir`.
pub fn get_library_info(current_dir: Option<String>) -> (i: LibraryInfo)
    ensures
        i.name@ == NAME@,
        i.version@ == VERSION@,
        i.uv_cache_dir@ == uv_cache_dir_for(opt_view(current_dir)),
        exists|d: Option<Seq<char>>| i.install_dir@ == install_dir_for(d),
{
    InitManager::new(current_dir).get_library_info()
}

} // verus!
