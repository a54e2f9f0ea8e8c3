use ai00_run::init::{InitManager, LibraryInfo};
use ai00_run::{get_library_info, NAME, VERSION};

#[test]
fn test_version_macro() {
    assert_eq!(VERSION, "0.1.0");
}

#[test]
fn test_name_macro() {
    assert_eq!(NAME, "ai00-run");
}

#[test]
fn test_library_info_display() {
    let info = LibraryInfo {
        name: "test-lib".to_string(),
        version: "1.0.0".to_string(),
        install_dir: "/test/install".to_string(),
        uv_cache_dir: "/test/uv-cache".to_string(),
    };

    let display = info.display();
    assert!(display.contains("test-lib v1.0.0"));
    assert!(display.contains("/test/install"));
    assert!(display.contains("/test/uv-cache"));
}

#[test]
fn library_info_display_is_exact() {
    let info = LibraryInfo {
        name: "test-lib".to_string(),
        version: "1.0.0".to_string(),
        install_dir: "/test/install".to_string(),
        uv_cache_dir: "/test/uv-cache".to_string(),
    };
    assert_eq!(
        info.display(),
        "test-lib v1.0.0\nInstallation Directory: /test/install\nUV Cache Directory: /test/uv-cache"
    );
}

#[test]
fn test_init_manager_with_config() {
    let install_dir = "/tmp/test-init-manager".to_string();
    let uv_cache_dir = "/tmp/test-uv-cache".to_string();
    let manager = InitManager::with_config(install_dir.clone(), uv_cache_dir.clone());
    assert_eq!(manager.install_dir(), &install_dir);
    assert_eq!(manager.uv_cache_dir(), &uv_cache_dir);
}

#[test]
fn test_get_library_info() {
    let info = get_library_info(Some("/work".to_string()));
    assert_eq!(info.name, "ai00-run");
    assert_eq!(info.version, VERSION);
    assert!(info.install_dir.contains("ai00-run"));
    assert!(info.uv_cache_dir.contains("uv-cache"));
}

#[test]
fn init_test_convenience_functions() {
    let info = get_library_info(None);
    assert_eq!(info.name, "ai00-run");
}

#[test]
fn init_manager_locations() {
    let m = InitManager::for_locations(Some("/data".to_string()), Some("/work/".to_string()));
    assert_eq!(m.install_dir(), "/data/ai00-run");
    assert_eq!(m.uv_cache_dir(), "/work/uv-cache");
    assert_eq!(m.python_dir(), "/data/ai00-run/python");
    assert_eq!(m.node_dir(), "/data/ai00-run/node");
    assert_eq!(m.uv_executable(), "/work/uv-cache/uv.exe");
    let fallback = InitManager::for_locations(None, None);
    assert_eq!(fallback.install_dir(), ".ai00-run/ai00-run");
    assert_eq!(fallback.uv_cache_dir(), "./uv-cache");
}

#[test]
fn init_manager_version_directories() {
    let names = vec![
        "python-3.11.4".to_string(),
        "other".to_string(),
        "python-python-3.12".to_string(),
    ];
    assert_eq!(InitManager::python_versions_in(&names), vec!["3.11.4", "3.12"]);
    let nodes = vec!["node-18.0.0".to_string(), "python-3.11".to_string()];
    assert_eq!(InitManager::node_versions_in(&nodes), vec!["18.0.0"]);
}
