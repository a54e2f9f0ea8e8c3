use ai00_run::error::Error;
use ai00_run::node::installer::{
    compare_versions, download_file_name, installed_version_names, select_release,
    unpacked_node_candidates, unpacked_node_choice,
    validate_version, zip_entry_path, zip_root_dir, LtsValue, NodeInstaller, NodeVersionInfo,
};
use ai00_run::node::manager::{NodeManager as VersionManager, NodeManagerConfig, NodeVersion};
use ai00_run::node::NodeManager;
use ai00_run::path::{Arch, OsFamily};
use ai00_run::run::ScriptResult;
use std::cmp::Ordering;

#[test]
fn test_validate_version() {
    assert!(validate_version("18.0.0").is_ok());
    assert!(validate_version("16.20.2").is_ok());
    assert!(validate_version("lts").is_ok());
    assert!(validate_version("latest").is_ok());

    assert!(validate_version("").is_err());
    assert!(validate_version("18.0").is_err());
    assert!(validate_version("18..0").is_err());
}

#[test]
fn test_compare_versions() {
    let result = compare_versions("18.0.0", "16.0.0");
    assert!(result.is_ok());
}

#[test]
fn compare_versions_by_number() {
    assert_eq!(compare_versions("18.0.0", "16.0.0").unwrap(), Ordering::Greater);
    assert_eq!(compare_versions("10.0.0", "9.0.0").unwrap(), Ordering::Greater);
    assert_eq!(compare_versions("9.0.0", "10.0.0").unwrap(), Ordering::Less);
    assert_eq!(compare_versions("1.10.0", "1.9.0").unwrap(), Ordering::Greater);
    assert_eq!(compare_versions("1.2.3", "1.2.3").unwrap(), Ordering::Equal);
    assert_eq!(compare_versions("01.2.3", "1.2.3").unwrap(), Ordering::Equal);
    assert_eq!(compare_versions("16.0.0", "18.0.0").unwrap(), Ordering::Less);
    assert_eq!(compare_versions("18.0", "18.0.0").unwrap(), Ordering::Less);
    assert_eq!(compare_versions("18.0.0-rc1", "18.0.0-rc2").unwrap(), Ordering::Less);
    assert_eq!(compare_versions("18.0.x", "18.0.1").unwrap(), Ordering::Greater);
}

#[test]
fn validate_version_messages() {
    match validate_version("") {
        Err(Error::Version(m)) => assert_eq!(m, "Version cannot be empty"),
        _ => panic!("expected a version error"),
    }
    match validate_version("18.x!.0") {
        Err(Error::Version(m)) => assert_eq!(m, "Invalid version format: 18.x!.0"),
        _ => panic!("expected a version error"),
    }
    assert!(validate_version("LTS").is_ok());
    assert!(validate_version("18.0.0-rc1").is_ok());
}

#[test]
fn manager_test_node_manager_creation() {
    let config = NodeManagerConfig::default();
    let manager = VersionManager::with_config(config);
    assert!(manager.config().mirror_url.as_ref().unwrap().starts_with("https://"));
}

#[test]
fn test_version_parsing() {
    let version = NodeVersion::parse("18.17.1").unwrap();
    assert!(matches!(version, NodeVersion::Exact(_)));

    let lts_version = NodeVersion::parse("lts/hydrogen").unwrap();
    assert!(matches!(lts_version, NodeVersion::Lts(_)));

    let alias_version = NodeVersion::parse("latest").unwrap();
    assert!(matches!(alias_version, NodeVersion::Alias(_)));

    let semver_version = NodeVersion::parse("18.17.1-beta").unwrap();
    assert!(matches!(semver_version, NodeVersion::Semver(_)));
}

#[test]
fn lts_name_is_kept() {
    assert_eq!(NodeVersion::parse("lts/hydrogen").unwrap(), NodeVersion::Lts("hydrogen".to_string()));
}

#[test]
fn aliases_round_trip() {
    let mut manager = VersionManager::new();
    assert_eq!(manager.resolve_alias("default"), None);
    manager.set_alias("default", "18.17.1");
    assert_eq!(manager.resolve_alias("default"), Some("18.17.1".to_string()));
    manager.set_alias("default", "20.0.0");
    assert_eq!(manager.resolve_alias("default"), Some("20.0.0".to_string()));
    assert_eq!(manager.remove_alias("default"), Some("20.0.0".to_string()));
    assert_eq!(manager.resolve_alias("default"), None);
    assert_eq!(manager.remove_alias("default"), None);
}

#[test]
fn version_manager_paths() {
    let manager = VersionManager::new();
    assert_eq!(
        manager.get_node_path("18.0.0", OsFamily::Linux),
        "./ai00-run/runtimes/node/node-18.0.0/bin/node"
    );
    assert_eq!(
        manager.get_npm_path("18.0.0", OsFamily::Windows),
        "./ai00-run/runtimes/node\\node-18.0.0\\npm.cmd"
    );
    let (url, file) = manager.get_download_info("18.0.0", OsFamily::Linux, Arch::X86_64).unwrap();
    assert_eq!(file, "node-v18.0.0-linux-x64.tar.gz");
    assert_eq!(url, "https://nodejs.org/dist/v18.0.0/node-v18.0.0-linux-x64.tar.gz");
    assert!(matches!(
        manager.get_download_info("18.0.0", OsFamily::Linux, Arch::Other),
        Err(Error::UnsupportedArchitecture)
    ));
    assert!(matches!(
        manager.get_download_info("18.0.0", OsFamily::Other, Arch::X86_64),
        Err(Error::Platform(_))
    ));
}

#[test]
fn version_manager_environment() {
    let manager = VersionManager::new();
    let env = manager.get_version_env("18.0.0", OsFamily::Linux, Some("/usr/bin".to_string()));
    assert_eq!(
        env.get("PATH"),
        Some(&"./ai00-run/runtimes/node/node-18.0.0/bin:/usr/bin".to_string())
    );
    assert_eq!(env.get("NODE_VERSION"), Some(&"18.0.0".to_string()));
}

#[test]
fn version_manager_records() {
    let mut manager = VersionManager::new();
    assert!(manager.needs_installed_refresh());
    manager.record_installed_versions(&vec!["node-18.0.0".to_string(), "tmp".to_string()]);
    assert_eq!(manager.installed_versions(), vec!["18.0.0"]);
    assert_eq!(manager.remote_cache_contains("20.0.0"), None);
    manager.record_remote_versions(&vec!["v20.0.0".to_string(), "v18.0.0".to_string()]);
    assert_eq!(manager.remote_versions(), Some(vec!["20.0.0".to_string(), "18.0.0".to_string()]));
    assert_eq!(manager.remote_cache_contains("20.0.0"), Some(true));
    assert_eq!(manager.remote_cache_contains("19.0.0"), Some(false));
}

fn release(version: &str, lts: Option<LtsValue>) -> NodeVersionInfo {
    NodeVersionInfo {
        version: version.to_string(),
        date: "2024-01-01".to_string(),
        files: vec![],
        npm: None,
        v8: None,
        uv: None,
        zlib: None,
        openssl: None,
        modules: None,
        lts,
    }
}

#[test]
fn release_selection() {
    let releases = vec![
        release("v21.0.0", Some(LtsValue::Bool(false))),
        release("v20.9.0", Some(LtsValue::Text("Iron".to_string()))),
        release("v18.0.0", Some(LtsValue::Text("Hydrogen".to_string()))),
    ];
    assert_eq!(select_release(&releases, "latest").unwrap(), 0);
    assert_eq!(select_release(&releases, "lts").unwrap(), 1);
    assert_eq!(select_release(&releases, "18.0.0").unwrap(), 2);
    assert_eq!(select_release(&releases, "v18.0.0").unwrap(), 2);
    match select_release(&releases, "17.0.0") {
        Err(Error::Runtime(m)) => assert_eq!(m, "Version 17.0.0 not found"),
        _ => panic!("expected a runtime error"),
    }
    assert!(!release("v1", Some(LtsValue::Text("FALSE".to_string()))).is_lts());
}

#[test]
fn installer_names_and_paths() {
    let installer = NodeInstaller::with_home(None, Some("/home/u".to_string()));
    assert_eq!(installer.install_dir(), "/home/u/.ai00-run/node");
    assert_eq!(installer.mirror_url(), "https://nodejs.org/dist");
    assert_eq!(installer.version_dir("18.0.0"), "/home/u/.ai00-run/node/v18.0.0");
    assert_eq!(
        installer.node_executable("18.0.0", OsFamily::MacOs),
        "/home/u/.ai00-run/node/v18.0.0/bin/node"
    );
    assert_eq!(
        installer.download_url("v18.0.0", OsFamily::Windows, Arch::Aarch64),
        "https://nodejs.org/dist/v18.0.0/node-v18.0.0-win-arm64.zip"
    );
    assert_eq!(
        download_file_name("https://nodejs.org/dist/v18.0.0/node-v18.0.0-win-arm64.zip"),
        "node-v18.0.0-win-arm64.zip"
    );
    let entries = vec![("v18.0.0".to_string(), true), ("x".to_string(), true), ("v9".to_string(), false)];
    assert_eq!(installed_version_names(&entries), vec!["v18.0.0"]);
}

#[test]
fn zip_layout() {
    assert_eq!(zip_root_dir(Some("node-v18.0.0-win-x64/node.exe")), "node-v18.0.0-win-x64");
    assert_eq!(
        zip_entry_path("node-v18.0.0-win-x64", "node-v18.0.0-win-x64/node.exe", '/'),
        Some("node.exe".to_string())
    );
}

#[test]
fn npx_steps() {
    let manager = NodeManager::new();
    let installed = vec!["vv18.0.0".to_string(), "v16.0.0".to_string()];
    assert_eq!(manager.npx_target_version("current", &installed).unwrap(), "18.0.0");
    assert_eq!(manager.npx_target_version("20.1.0", &installed).unwrap(), "20.1.0");
    match manager.npx_target_version("current", &vec![]) {
        Err(Error::Version(m)) => assert_eq!(m, "No Node.js versions installed"),
        _ => panic!("expected a version error"),
    }
    match manager.npx_readiness("18.0.0", false, true) {
        Err(Error::Version(m)) => assert_eq!(m, "Node.js version 18.0.0 is not installed"),
        _ => panic!("expected a version error"),
    }
    match manager.npx_readiness("18.0.0", true, false) {
        Err(Error::Version(m)) => assert_eq!(m, "npx not found for Node.js version 18.0.0"),
        _ => panic!("expected a version error"),
    }
    assert!(manager.npx_readiness("18.0.0", true, true).is_ok());
    assert_eq!(manager.npx_path("/n/v18/bin", OsFamily::Linux), "/n/v18/bin/npx");
    assert_eq!(manager.npx_path("C:\\n\\v18", OsFamily::Windows), "C:\\n\\v18\\npx.cmd");
    let line = manager.npx_command_line("/n/npx", "create-app", &vec!["my app".to_string()]);
    assert_eq!(line, "\"/n/npx\" create-app \"my app\"");
    let failed = ScriptResult::new(-2, String::new(), "bad".to_string(), 5);
    match manager.npx_outcome(&failed) {
        Err(Error::Script(m)) => assert_eq!(m, "npx command failed with exit code: -2"),
        _ => panic!("expected a script error"),
    }
    let ok = ScriptResult::new(0, "done".to_string(), String::new(), 5);
    assert!(manager.npx_outcome(&ok).is_ok());
}

#[test]
fn setters() {
    let mut installer = NodeInstaller::with_home(Some("/opt/node".to_string()), None);
    assert_eq!(installer.install_dir(), "/opt/node");
    installer.set_install_dir("/srv/node".to_string());
    installer.set_mirror_url("https://mirror.example/dist".to_string());
    assert_eq!(installer.version_dir("20.0.0"), "/srv/node/v20.0.0");
    assert_eq!(
        installer.download_url("v20.0.0", OsFamily::Linux, Arch::X86_64),
        "https://mirror.example/dist/v20.0.0/node-v20.0.0-linux-x64.tar.gz"
    );
    let mut manager = VersionManager::new();
    assert_eq!(manager.current_version(), None);
    manager.set_current_version(Some("18.0.0".to_string()));
    assert_eq!(manager.current_version(), Some("18.0.0"));
    assert!(manager.use_version("18.0.0").is_ok());
    let mut config = NodeManagerConfig::default();
    config.install_dir = "/n".to_string();
    manager.set_config(config);
    assert_eq!(manager.version_dir("1.0.0"), "/n/node-1.0.0");
    assert_eq!(manager.current_version(), Some("18.0.0"));
}

#[test]
fn unpacked_executable_choice() {
    let win = unpacked_node_candidates("/n/v20", OsFamily::Windows);
    assert_eq!(win, vec!["/n/v20\\node.exe", "/n/v20\\bin\\node.exe"]);
    assert_eq!(unpacked_node_choice("/n/v20", &win, &vec![false, true]).unwrap(), "/n/v20\\bin\\node.exe");
    assert_eq!(unpacked_node_choice("/n/v20", &win, &vec![true, true]).unwrap(), "/n/v20\\node.exe");
    let unix = unpacked_node_candidates("/n/v20", OsFamily::Linux);
    assert_eq!(unix, vec!["/n/v20/bin/node"]);
    match unpacked_node_choice("/n/v20", &unix, &vec![false]) {
        Err(Error::Runtime(m)) => assert_eq!(m, "Node executable not found in /n/v20"),
        _ => panic!("expected a runtime error"),
    }
}

#[test]
fn alias_changes_touch_nothing_else() {
    let mut config = NodeManagerConfig::default();
    config.default_version = Some("18.0.0".to_string());
    config.auto_switch = false;
    config.use_lts_as_default = true;
    let mut manager = VersionManager::with_config(config);
    manager.set_alias("prod", "20.0.0");
    assert_eq!(manager.remove_alias("prod"), Some("20.0.0".to_string()));
    assert_eq!(manager.remove_alias("prod"), None);
    assert!(manager.aliases().is_empty());
    assert_eq!(manager.config().default_version, Some("18.0.0".to_string()));
    assert!(!manager.config().auto_switch);
    assert!(manager.config().use_lts_as_default);
}

#[test]
fn version_order_is_reversed_by_swapping() {
    let pairs = [
        ("18.0.0", "16.0.0"),
        ("1.10.0", "1.9.0"),
        ("2.0", "2.0.0"),
        ("v1.0.0", "1.0.0"),
        ("7.7.7", "7.7.7"),
    ];
    for (a, b) in pairs {
        let ab = compare_versions(a, b).unwrap();
        let ba = compare_versions(b, a).unwrap();
        assert_eq!(ab, ba.reverse());
        assert_eq!(compare_versions(a, a).unwrap(), Ordering::Equal);
    }
}

#[test]
fn installed_node_lookup() {
    let installer = NodeInstaller::with_home(Some("/opt/node".to_string()), None);
    assert_eq!(installer.version_dir_for("20.1.0", OsFamily::Linux), "/opt/node/v20.1.0");
    assert_eq!(
        installer.node_path_outcome("20.1.0", OsFamily::Linux, true, true).unwrap(),
        "/opt/node/v20.1.0/bin/node"
    );
    match installer.node_path_outcome("20.1.0", OsFamily::Linux, false, false) {
        Err(Error::Runtime(m)) => assert_eq!(m, "Node.js version 20.1.0 is not installed"),
        _ => panic!("expected a runtime error"),
    }
    match installer.node_path_outcome("20.1.0", OsFamily::Linux, true, false) {
        Err(Error::Runtime(m)) => {
            assert_eq!(m, "Node.js executable not found at: /opt/node/v20.1.0/bin/node")
        }
        _ => panic!("expected a runtime error"),
    }
    let win = NodeInstaller::with_home(Some("C:\\node".to_string()), None);
    assert_eq!(win.version_dir_for("20.1.0", OsFamily::Windows), "C:\\node\\v20.1.0");
    assert_eq!(
        win.node_path_outcome("20.1.0", OsFamily::Windows, true, true).unwrap(),
        "C:\\node\\v20.1.0\\node.exe"
    );
}
