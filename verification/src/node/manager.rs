//! The Node.js version manager: version names, aliases, paths, downloads and
//! the environment of a version.

use vstd::prelude::*;

use crate::error::Error;
use crate::path::{join, join_on, join_path, join_path_on, Arch, OsFamily};
use crate::strmap::StringMap;
use crate::text::{
    chars_of, concat2, concat3, copy_opt, copy_strings, is_digit, opt_view, owned, seq_eq,
    seq_view, starts_with, strip_all_prefix, string_from_chars, vec_skip, vec_starts_with,
    versions_with_prefix, with_prefix_stripped,
};

verus! {

/// Settings of the Node.js version manager.
#[derive(Debug)]
pub struct NodeManagerConfig {
    /// Where versions are installed.
    pub install_dir: String,
    /// The default version.
    pub default_version: Option<String>,
    /// Whether versions are switched automatically.
    pub auto_switch: bool,
    /// Version aliases: alias name to version.
    pub aliases: StringMap,
    /// Base URL of the download mirror.
    pub mirror_url: Option<String>,
    /// Whether the long-term-support release is the default.
    pub use_lts_as_default: bool,
}

/// The mirror used where none is set.
pub open spec fn default_mirror() -> Seq<char> {
    "https://nodejs.org/dist"@
}

/// The default settings.
pub open spec fn is_default_node_config(c: NodeManagerConfig) -> bool {
    &&& c.install_dir@ == "./ai00-run/runtimes/node"@
    &&& c.default_version is None
    &&& c.auto_switch
    &&& c.aliases@ == Map::<Seq<char>, Seq<char>>::empty()
    &&& opt_view(c.mirror_url) == Some(default_mirror())
    &&& !c.use_lts_as_default
}

impl Default for NodeManagerConfig {
    fn default() -> (c: Self)
        ensures
            is_default_node_config(c),
    {
        NodeManagerConfig {
            install_dir: owned("./ai00-run/runtimes/node"),
            default_version: None,
            auto_switch: true,
            aliases: StringMap::new(),
            mirror_url: Some(owned("https://nodejs.org/dist")),
            use_lts_as_default: false,
        }
    }
}

/// A Node.js version request, by its form.
#[derive(Debug, Clone, PartialEq, Eq)]
pub enum NodeVersion {
    /// Any other version text, such as `18.17.1-beta`.
    Semver(String),
    /// A long-term-support line, `lts/<name>`; holds the name.
    Lts(String),
    /// `latest` or `stable`.
    Alias(String),
    /// Digits and dots only, such as `18.17.1`.
    Exact(String),
}

/// Only ASCII digits and dots.
pub open spec fn digits_and_dots(v: Seq<char>) -> bool {
    forall|i: int| 0 <= i < v.len() ==> (is_digit(#[trigger] v[i]) || v[i] == '.')
}

impl NodeVersion {
    /// Reads a version request: `lts/<name>`, `latest` or `stable`, digits and
    /// dots only, or anything else. It never fails.
    pub fn parse(version_str: &str) -> (r: Result<NodeVersion, Error>)
        ensures
            starts_with(version_str@, "lts/"@) ==> (r matches Ok(NodeVersion::Lts(x)) && x@
                == version_str@.skip(4)),
            !starts_with(version_str@, "lts/"@) && (version_str@ == "latest"@ || version_str@
                == "stable"@) ==> (r matches Ok(NodeVersion::Alias(x)) && x@ == version_str@),
            !starts_with(version_str@, "lts/"@) && version_str@ != "latest"@ && version_str@
                != "stable"@ && digits_and_dots(version_str@) ==> (r matches Ok(
                NodeVersion::Exact(x),
            ) && x@ == version_str@),
            !starts_with(version_str@, "lts/"@) && version_str@ != "latest"@ && version_str@
                != "stable"@ && !digits_and_dots(version_str@) ==> (r matches Ok(
                NodeVersion::Semver(x),
            ) && x@ == version_str@),
    {
        let v = chars_of(version_str);
        let lts = chars_of("lts/");
        proof {
            reveal_strlit("lts/");
        }
        if vec_starts_with(&v, &lts) {
            let rest = vec_skip(&v, 4);
            return Ok(NodeVersion::Lts(string_from_chars(&rest)));
        }
        let latest = chars_of("latest");
        let stable = chars_of("stable");
        if seq_eq(&v, &latest) || seq_eq(&v, &stable) {
            return Ok(NodeVersion::Alias(owned(version_str)));
        }
        let mut all = true;
        let mut i: usize = 0;
        while i < v.len()
            invariant
                i <= v.len(),
                all == forall|j: int| 0 <= j < i ==> (is_digit(#[trigger] v@[j]) || v@[j] == '.'),
            decreases v.len() - i,
        {
            let c = v[i];
            if !(('0' <= c && c <= '9') || c == '.') {
                all = false;
            }
            i = i + 1;
        }
        if all {
            Ok(NodeVersion::Exact(owned(version_str)))
        } else {
            Ok(NodeVersion::Semver(owned(version_str)))
        }
    }
}

/// Where version `version` is installed under `root`: `root/node-{version}`.
pub open spec fn node_version_dir(root: Seq<char>, version: Seq<char>) -> Seq<char> {
    join(root, "node-"@ + version)
}

/// Where version `version` is installed under `root`, joined as paths are
/// on `os`.
pub open spec fn node_version_dir_on(root: Seq<char>, version: Seq<char>, os: OsFamily) -> Seq<
    char,
> {
    join_on(root, "node-"@ + version, os)
}

/// The directory of a version that holds its executables.
pub open spec fn bin_dir_of(dir: Seq<char>, os: OsFamily) -> Seq<char> {
    if os == OsFamily::Windows {
        dir
    } else {
        join_on(dir, "bin"@, os)
    }
}

/// A tool of a version: `name` plus `windows_ext` on Windows, `bin/name`
/// elsewhere.
pub open spec fn tool_path(dir: Seq<char>, name: Seq<char>, windows_ext: Seq<char>, os: OsFamily) -> Seq<char> {
    if os == OsFamily::Windows {
        join_on(dir, name + windows_ext, os)
    } else {
        join_on(join_on(dir, "bin"@, os), name, os)
    }
}

/// The download URL and file name of version `version` (without `v`):
/// `node-v{version}-{platform}-{arch}.{ext}` under `{mirror}/v{version}/`.
pub open spec fn download_info_of(mirror: Seq<char>, version: Seq<char>, os: OsFamily, arch: Arch) -> (Seq<char>, Seq<char>) {
    let platform = if os == OsFamily::Windows {
        "win"@
    } else if os == OsFamily::MacOs {
        "darwin"@
    } else {
        "linux"@
    };
    let arch_s = if arch == Arch::X86_64 {
        "x64"@
    } else {
        "arm64"@
    };
    let ext = if os == OsFamily::Windows {
        "zip"@
    } else {
        "tar.gz"@
    };
    let filename = "node-v"@ + version + "-"@ + platform + "-"@ + arch_s + "."@ + ext;
    (mirror + "/v"@ + version + "/"@ + filename, filename)
}

/// The Node.js version manager.
#[derive(Debug)]
pub struct NodeManager {
    config: NodeManagerConfig,
    current_version: Option<String>,
    installed_versions: Vec<String>,
    remote_versions: Option<Vec<String>>,
}

impl NodeManager {
    /// The manager's settings.
    pub closed spec fn settings(&self) -> NodeManagerConfig {
        self.config
    }

    /// The version in use, if any.
    pub closed spec fn current(&self) -> Option<Seq<char>> {
        opt_view(self.current_version)
    }

    /// The remembered list of installed versions.
    pub closed spec fn installed(&self) -> Seq<Seq<char>> {
        seq_view(self.installed_versions@)
    }

    /// The remembered list of remote versions, if fetched.
    pub closed spec fn remote(&self) -> Option<Seq<Seq<char>>> {
        match self.remote_versions {
            Some(v) => Some(seq_view(v@)),
            None => None,
        }
    }

    /// A manager with the default settings and nothing remembered.
    pub fn new() -> (m: Self)
        ensures
            is_default_node_config(m.settings()),
            m.current() is None,
            m.installed().len() == 0,
            m.remote() is None,
    {
        NodeManager {
            config: NodeManagerConfig::default(),
            current_version: None,
            installed_versions: Vec::new(),
            remote_versions: None,
        }
    }

    /// A manager with the given settings and nothing remembered.
    pub fn with_config(config: NodeManagerConfig) -> (m: Self)
        ensures
            m.settings() == config,
            m.current() is None,
            m.installed().len() == 0,
            m.remote() is None,
    {
        NodeManager {
            config,
            current_version: None,
            installed_versions: Vec::new(),
            remote_versions: None,
        }
    }

    /// The settings.
    pub fn config(&self) -> (c: &NodeManagerConfig)
        ensures
            *c == self.settings(),
    {
        &self.config
    }

    /// Replaces the settings.
    pub fn set_config(&mut self, config: NodeManagerConfig)
        ensures
            final(self).settings() == config,
            final(self).current() == old(self).current(),
            final(self).installed() == old(self).installed(),
            final(self).remote() == old(self).remote(),
    {
        self.config = config;
    }

    /// The version in use.
    pub fn current_version(&self) -> (v: Option<&str>)
        ensures
            match v {
                Some(s) => self.current() == Some(s@),
                None => self.current() is None,
            },
    {
        match &self.current_version {
            Some(s) => Some(s.as_str()),
            None => None,
        }
    }

    /// Sets the version in use.
    pub fn set_current_version(&mut self, version: Option<String>)
        ensures
            final(self).current() == opt_view(version),
            final(self).settings() == old(self).settings(),
            final(self).installed() == old(self).installed(),
            final(self).remote() == old(self).remote(),
    {
        self.current_version = version;
    }

    /// Asks to use a version. Versions are named on each run, so nothing is
    /// switched and nothing changes.
    pub fn use_version(&mut self, version: &str) -> (r: Result<(), Error>)
        ensures
            r is Ok,
            final(self).settings() == old(self).settings(),
            final(self).current() == old(self).current(),
            final(self).installed() == old(self).installed(),
            final(self).remote() == old(self).remote(),
    {
        let _actual = match self.resolve_alias(version) {
            Some(v) => v,
            None => owned(version),
        };
        Ok(())
    }

    /// The version an alias stands for.
    pub fn resolve_alias(&self, alias: &str) -> (r: Option<String>)
        ensures
            match r {
                Some(v) => self.settings().aliases@.contains_key(alias@)
                    && self.settings().aliases@[alias@] == v@,
                None => !self.settings().aliases@.contains_key(alias@),
            },
    {
        match self.config.aliases.get(alias) {
            Some(v) => Some(v.clone()),
            None => None,
        }
    }

    /// Makes `alias` stand for `version`.
    pub fn set_alias(&mut self, alias: &str, version: &str)
        ensures
            final(self).settings().aliases@ == old(self).settings().aliases@.insert(alias@, version@),
            final(self).settings().install_dir == old(self).settings().install_dir,
            final(self).settings().default_version == old(self).settings().default_version,
            final(self).settings().auto_switch == old(self).settings().auto_switch,
            final(self).settings().mirror_url == old(self).settings().mirror_url,
            final(self).settings().use_lts_as_default == old(self).settings().use_lts_as_default,
            final(self).current() == old(self).current(),
            final(self).installed() == old(self).installed(),
            final(self).remote() == old(self).remote(),
    {
        self.config.aliases.insert(owned(alias), owned(version));
    }

    /// Removes `alias`, giving back the version it stood for.
    pub fn remove_alias(&mut self, alias: &str) -> (r: Option<String>)
        ensures
            final(self).settings().aliases@ == old(self).settings().aliases@.remove(alias@),
            match r {
                Some(v) => old(self).settings().aliases@.contains_key(alias@)
                    && old(self).settings().aliases@[alias@] == v@,
                None => !old(self).settings().aliases@.contains_key(alias@),
            },
            final(self).settings().install_dir == old(self).settings().install_dir,
            final(self).settings().default_version == old(self).settings().default_version,
            final(self).settings().auto_switch == old(self).settings().auto_switch,
            final(self).settings().mirror_url == old(self).settings().mirror_url,
            final(self).settings().use_lts_as_default == old(self).settings().use_lts_as_default,
            final(self).current() == old(self).current(),
            final(self).installed() == old(self).installed(),
            final(self).remote() == old(self).remote(),
    {
        self.config.aliases.remove(alias)
    }

    /// All aliases.
    pub fn aliases(&self) -> (m: &StringMap)
        ensures
            m@ == self.settings().aliases@,
    {
        &self.config.aliases
    }

    /// Whether the installed list must be read from disk: it is empty.
    pub fn needs_installed_refresh(&self) -> (b: bool)
        ensures
            b == (self.installed().len() == 0),
    {
        self.installed_versions.len() == 0
    }

    /// Remembers the installed versions found in the install directory: the
    /// directory names that start with `node-`, without that prefix.
    pub fn record_installed_versions(&mut self, dir_names: &Vec<String>)
        ensures
            final(self).installed() == with_prefix_stripped(dir_names@, "node-"@),
            final(self).settings() == old(self).settings(),
            final(self).current() == old(self).current(),
            final(self).remote() == old(self).remote(),
    {
        self.installed_versions = versions_with_prefix(dir_names, "node-");
    }

    /// The remembered installed versions.
    pub fn installed_versions(&self) -> (v: Vec<String>)
        ensures
            seq_view(v@) == self.installed(),
    {
        copy_strings(&self.installed_versions)
    }

    /// Remembers the versions listed by the mirror, without their leading `v`s.
    pub fn record_remote_versions(&mut self, listed: &Vec<String>)
        ensures
            final(self).remote() == Some(
                listed@.map_values(|s: String| strip_all_prefix(s@, seq!['v'])),
            ),
            final(self).settings() == old(self).settings(),
            final(self).current() == old(self).current(),
            final(self).installed() == old(self).installed(),
    {
        let mut out: Vec<String> = Vec::new();
        let mut vv: Vec<char> = Vec::new();
        vv.push('v');
        let mut i: usize = 0;
        while i < listed.len()
            invariant
                i <= listed.len(),
                vv@ == seq!['v'],
                seq_view(out@) == listed@.subrange(0, i as int).map_values(
                    |s: String| strip_all_prefix(s@, seq!['v']),
                ),
            decreases listed.len() - i,
        {
            let c = chars_of(listed[i].as_str());
            let s = crate::text::strip_all_prefix_exec(&c, &vv);
            let ghost prev = seq_view(out@);
            out.push(string_from_chars(&s));
            assert(seq_view(out@) =~= prev.push(strip_all_prefix(listed@[i as int]@, seq!['v'])));
            assert(listed@.subrange(0, i + 1) =~= listed@.subrange(0, i as int).push(listed@[i as int]));
            i = i + 1;
            assert(seq_view(out@) =~= listed@.subrange(0, i as int).map_values(
                |s: String| strip_all_prefix(s@, seq!['v']),
            ));
        }
        assert(listed@.subrange(0, listed.len() as int) =~= listed@);
        self.remote_versions = Some(out);
    }

    /// The remembered remote versions, if fetched.
    pub fn remote_versions(&self) -> (v: Option<Vec<String>>)
        ensures
            match v {
                Some(l) => self.remote() == Some(seq_view(l@)),
                None => self.remote() is None,
            },
    {
        match &self.remote_versions {
            Some(l) => Some(copy_strings(l)),
            None => None,
        }
    }

    /// Whether the remembered remote list has `version`, or `None` where no
    /// list was fetched.
    pub fn remote_cache_contains(&self, version: &str) -> (r: Option<bool>)
        ensures
            match r {
                Some(b) => self.remote() matches Some(l) && b == l.contains(version@),
                None => self.remote() is None,
            },
    {
        match &self.remote_versions {
            Some(l) => {
                let v = chars_of(version);
                let mut i: usize = 0;
                while i < l.len()
                    invariant
                        i <= l.len(),
                        v@ == version@,
                        self.remote() == Some(seq_view(l@)),
                        forall|j: int| 0 <= j < i ==> l@[j]@ != version@,
                    decreases l.len() - i,
                {
                    let c = chars_of(l[i].as_str());
                    if seq_eq(&c, &v) {
                        assert(seq_view(l@)[i as int] == version@);
                        assert(seq_view(l@).contains(version@));
                        assert(self.remote() == Some(seq_view(l@)));
                        return Some(true);
                    }
                    i = i + 1;
                }
                assert(!seq_view(l@).contains(version@)) by {
                    if seq_view(l@).contains(version@) {
                        let k = choose|k: int| 0 <= k < seq_view(l@).len() && seq_view(l@)[k] == version@;
                        assert(l@[k]@ == version@);
                    }
                }
                Some(false)
            },
            None => None,
        }
    }

    /// The mirror in use.
    pub open spec fn mirror_of(c: NodeManagerConfig) -> Seq<char> {
        match opt_view(c.mirror_url) {
            Some(m) => m,
            None => default_mirror(),
        }
    }

    fn mirror(&self) -> (m: String)
        ensures
            m@ == Self::mirror_of(self.settings()),
    {
        match &self.config.mirror_url {
            Some(m) => m.clone(),
            None => owned("https://nodejs.org/dist"),
        }
    }

    /// The directory of version `version`.
    pub fn version_dir(&self, version: &str) -> (d: String)
        ensures
            d@ == node_version_dir(self.settings().install_dir@, version@),
    {
        let name = concat2("node-", version);
        join_path(self.config.install_dir.as_str(), name.as_str())
    }

    fn version_dir_on(&self, version: &str, os: OsFamily) -> (d: String)
        ensures
            d@ == node_version_dir_on(self.settings().install_dir@, version@, os),
    {
        let name = concat2("node-", version);
        join_path_on(self.config.install_dir.as_str(), name.as_str(), os)
    }

    fn tool(&self, version: &str, name: &str, windows_ext: &str, os: OsFamily) -> (p: String)
        ensures
            p@ == tool_path(node_version_dir_on(self.settings().install_dir@, version@, os), name@, windows_ext@, os),
    {
        let dir = self.version_dir_on(version, os);
        match os {
            OsFamily::Windows => {
                let file = concat2(name, windows_ext);
                join_path_on(dir.as_str(), file.as_str(), os)
            },
            _ => {
                let bin = join_path_on(dir.as_str(), "bin", os);
                join_path_on(bin.as_str(), name, os)
            },
        }
    }

    /// The Node.js executable of `version`.
    pub fn get_node_path(&self, version: &str, os: OsFamily) -> (p: String)
        ensures
            p@ == tool_path(node_version_dir_on(self.settings().install_dir@, version@, os), "node"@, ".exe"@, os),
    {
        self.tool(version, "node", ".exe", os)
    }

    /// The npm executable of `version`.
    pub fn get_npm_path(&self, version: &str, os: OsFamily) -> (p: String)
        ensures
            p@ == tool_path(node_version_dir_on(self.settings().install_dir@, version@, os), "npm"@, ".cmd"@, os),
    {
        self.tool(version, "npm", ".cmd", os)
    }

    /// The npx executable of `version`.
    pub fn get_npx_path(&self, version: &str, os: OsFamily) -> (p: String)
        ensures
            p@ == tool_path(node_version_dir_on(self.settings().install_dir@, version@, os), "npx"@, ".cmd"@, os),
    {
        self.tool(version, "npx", ".cmd", os)
    }

    /// The download URL and archive file name of `version` for the platform;
    /// fails on an architecture other than x86-64 and ARM64, and on a system
    /// other than Windows, macOS and Linux.
    pub fn get_download_info(&self, version: &str, os: OsFamily, arch: Arch) -> (r: Result<
        (String, String),
        Error,
    >)
        ensures
            arch == Arch::Other ==> r matches Err(Error::UnsupportedArchitecture),
            arch != Arch::Other && os == OsFamily::Other ==> (r matches Err(Error::Platform(m))
                && m@ == "Unsupported platform"@),
            arch != Arch::Other && os != OsFamily::Other ==> (r matches Ok((u, f)) && (u@, f@)
                == download_info_of(Self::mirror_of(self.settings()), version@, os, arch)),
    {
        let arch_s = match arch {
            Arch::X86_64 => "x64",
            Arch::Aarch64 => "arm64",
            Arch::Other => {
                return Err(Error::UnsupportedArchitecture);
            },
        };
        let platform = match os {
            OsFamily::Windows => "win",
            OsFamily::MacOs => "darwin",
            OsFamily::Linux => "linux",
            OsFamily::Other => {
                return Err(Error::Platform(owned("Unsupported platform")));
            },
        };
        let ext = match os {
            OsFamily::Windows => "zip",
            _ => "tar.gz",
        };
        let mut filename = concat3("node-v", version, "-");
        filename.append(platform);
        filename.append("-");
        filename.append(arch_s);
        filename.append(".");
        filename.append(ext);
        let mirror = self.mirror();
        let mut url = concat3(mirror.as_str(), "/v", version);
        url.append("/");
        url.append(filename.as_str());
        Ok((url, filename))
    }

    /// The environment variables of `version`: `PATH` with the version's
    /// executable directory in front of `current_path`, and `NODE_VERSION`,
    /// `NODE_PATH`, `NPM_PATH`, `NPX_PATH`.
    pub fn get_version_env(&self, version: &str, os: OsFamily, current_path: Option<String>) -> (m: StringMap)
        ensures
            m@ == Map::<Seq<char>, Seq<char>>::empty().insert(
                "PATH"@,
                bin_dir_of(node_version_dir_on(self.settings().install_dir@, version@, os), os) + (
                if os == OsFamily::Windows {
                    seq![';']
                } else {
                    seq![':']
                }) + match opt_view(current_path) {
                    Some(p) => p,
                    None => Seq::<char>::empty(),
                },
            ).insert("NODE_VERSION"@, version@).insert(
                "NODE_PATH"@,
                tool_path(node_version_dir_on(self.settings().install_dir@, version@, os), "node"@, ".exe"@, os),
            ).insert(
                "NPM_PATH"@,
                tool_path(node_version_dir_on(self.settings().install_dir@, version@, os), "npm"@, ".cmd"@, os),
            ).insert(
                "NPX_PATH"@,
                tool_path(node_version_dir_on(self.settings().install_dir@, version@, os), "npx"@, ".cmd"@, os),
            ),
    {
        let mut env = StringMap::new();
        let node_path = self.get_node_path(version, os);
        let npm_path = self.get_npm_path(version, os);
        let npx_path = self.get_npx_path(version, os);
        let dir = self.version_dir_on(version, os);
        let bin = match os {
            OsFamily::Windows => dir,
            _ => join_path_on(dir.as_str(), "bin", os),
        };
        let sep = match os {
            OsFamily::Windows => ";",
            _ => ":",
        };
        proof {
            reveal_strlit(";");
            reveal_strlit(":");
        }
        let rest = match current_path {
            Some(p) => p,
            None => String::new(),
        };
        let path = concat3(bin.as_str(), sep, rest.as_str());
        assert(bin@ == bin_dir_of(node_version_dir_on(self.settings().install_dir@, version@, os), os));
        assert(sep@ == (if os == OsFamily::Windows {
            seq![';']
        } else {
            seq![':']
        }));
        assert(rest@ == match opt_view(current_path) {
            Some(p) => p,
            None => Seq::<char>::empty(),
        });
        env.insert(owned("PATH"), path);
        env.insert(owned("NODE_VERSION"), owned(version));
        env.insert(owned("NODE_PATH"), node_path);
        env.insert(owned("NPM_PATH"), npm_path);
        env.insert(owned("NPX_PATH"), npx_path);
        env
    }
}

impl Default for NodeManager {
    fn default() -> (m: Self)
        ensures
            is_default_node_config(m.settings()),
            m.current() is None,
            m.installed().len() == 0,
            m.remote() is None,
    {
        Self::new()
    }
}

/// An alias that was set resolves to the version it was set to; one that
/// was removed resolves to nothing; other aliases are untouched by either.
pub proof fn alias_laws(aliases: Map<Seq<char>, Seq<char>>, alias: Seq<char>, version: Seq<char>, other: Seq<char>)
    requires
        other != alias,
    ensures
        aliases.insert(alias, version).contains_key(alias),
        aliases.insert(alias, version)[alias] == version,
        !aliases.remove(alias).contains_key(alias),
        aliases.insert(alias, version).contains_key(other) == aliases.contains_key(other),
        aliases.remove(alias).contains_key(other) == aliases.contains_key(other),
        aliases.contains_key(other) ==> aliases.insert(alias, version)[other] == aliases[other]
            && aliases.remove(alias)[other] == aliases[other],
{
}

/// Setting an alias that was not there and then removing it gives back the
/// alias map as it was.
pub proof fn alias_set_then_remove(aliases: Map<Seq<char>, Seq<char>>, alias: Seq<char>, version: Seq<char>)
    requires
        !aliases.contains_key(alias),
    ensures
        aliases.insert(alias, version).remove(alias) == aliases,
{
    assert(aliases.insert(alias, version).remove(alias) =~= aliases);
}

} // verus!
