use ai00_run::error::Error;
use ai00_run::path::OsFamily;
use ai00_run::py::installer::{
    compare_python_versions, get_recommended_python_version, is_python_version_supported,
    listing_has_version, parse_available_versions, parse_installed_versions,
    validate_python_version, PyInstaller, PyInstallerConfig,
};
use ai00_run::py::manager::{PyManager as VenvManager, PyManagerConfig};
use ai00_run::py::PyManager;
use std::cmp::Ordering;

#[test]
fn test_validate_python_version() {
    assert!(validate_python_version("3.8").is_ok());
    assert!(validate_python_version("3.11.4").is_ok());
    assert!(validate_python_version("2.7").is_err());
    assert!(validate_python_version("3.7").is_err());
    assert!(validate_python_version("invalid").is_err());
}

#[test]
fn python_version_messages() {
    let msg = |v: &str| match validate_python_version(v) {
        Err(Error::Runtime(m)) => m,
        _ => panic!("expected a runtime error"),
    };
    assert_eq!(msg(""), "Version cannot be empty");
    assert_eq!(msg("invalid"), "Invalid Python version format: invalid");
    assert_eq!(msg("3.1.2.3"), "Invalid Python version format: 3.1.2.3");
    assert_eq!(msg("2.7"), "Only Python 3.x versions are supported: 2.7");
    assert_eq!(msg("3.x"), "Invalid minor version number: 3.x");
    assert_eq!(msg("3.7"), "Python version must be at least 3.8: 3.7");
    assert!(validate_python_version("3.+9").is_ok());
}

#[test]
fn python_version_order() {
    assert_eq!(compare_python_versions("3.9", "3.11").unwrap(), Ordering::Less);
    assert_eq!(compare_python_versions("3.11.4", "3.11.10").unwrap(), Ordering::Less);
    assert_eq!(compare_python_versions("3.11.4", "3.11.4").unwrap(), Ordering::Equal);
    assert_eq!(compare_python_versions("3.11.1", "3.11").unwrap(), Ordering::Greater);
    assert_eq!(compare_python_versions("3.12", "3.11.9").unwrap(), Ordering::Greater);
    assert!(matches!(compare_python_versions("2.7", "3.11"), Err(Error::Runtime(_))));
    assert!(matches!(compare_python_versions("3.11", "3.1"), Err(Error::Runtime(_))));
}

#[test]
fn python_support() {
    assert_eq!(get_recommended_python_version(), "3.11");
    assert_eq!(is_python_version_supported("3.11").unwrap(), true);
    assert!(is_python_version_supported("3.5").is_err());
}

#[test]
fn uv_listing() {
    let out = "cpython-3.12.1-windows-x86_64-none    <download available>\n\
               cpython-3.11.13-windows-x86_64-none   C:\\py\\python.exe\n\
               pypy-3.10.0-windows-x86_64-none       <download available>\n";
    assert_eq!(parse_installed_versions(out), vec!["3.11.13"]);
    assert_eq!(parse_available_versions(out), vec!["3.12.1", "3.11.13"]);
    assert!(listing_has_version(out, "3.11"));
    assert!(!listing_has_version(out, "3.12"));
}

#[test]
fn py_installer_settings() {
    let installer = PyInstaller::for_home(Some("/home/u".to_string()));
    assert_eq!(installer.config().install_dir, "/home/u/.ai00-run/py");
    assert_eq!(installer.config().default_version, "3.11");
    assert!(installer.config().enable_cache);
}

#[test]
fn manager_test_py_manager_creation() {
    let manager = VenvManager::new("/tmp/x/python".to_string(), "/tmp/x/venv".to_string());
    assert_eq!(manager.config().use_system_python, true);
    assert_eq!(manager.config().prefer_venv, true);
}

#[test]
fn manager_test_py_manager_with_config() {
    let config = PyManagerConfig {
        python_dir: "/tmp/x/python".to_string(),
        venv_dir: "/tmp/x/venv".to_string(),
        use_system_python: false,
        prefer_venv: false,
    };
    let manager = VenvManager::with_config(config);
    assert_eq!(manager.config().use_system_python, false);
    assert_eq!(manager.config().prefer_venv, false);
}

#[test]
fn venv_activation() {
    let mut manager = VenvManager::new("p".to_string(), "v".to_string());
    assert_eq!(manager.current_venv(), None);
    match manager.activate_checked("/no/such/venv", false) {
        Err(Error::Runtime(m)) => assert_eq!(m, "Virtual environment does not exist: /no/such/venv"),
        _ => panic!("expected a runtime error"),
    }
    assert_eq!(manager.current_venv(), None);
    assert!(manager.activate_checked("/envs/a", true).is_ok());
    assert_eq!(manager.current_venv(), Some(&"/envs/a".to_string()));
    assert!(manager.deactivate_venv().is_ok());
    assert_eq!(manager.current_venv(), None);
    assert!(manager.activate_venv("/definitely/not/here/venv").is_err());
}

#[test]
fn manager_output_readers() {
    let out = "Python 3.11.4 version found\nnothing here\nPython version 2.7 3.9.1\n";
    assert_eq!(VenvManager::parse_python_versions(out), vec!["3.11.4", "3.9.1"]);
    let pip = "Package    Version\n---------- -------\nrequests   2.31.0\n\nflask 3.0\n";
    assert_eq!(VenvManager::parse_pip_list(pip), vec!["requests", "flask"]);
    assert_eq!(VenvManager::parse_pip_list("only one line"), Vec::<String>::new());
    assert_eq!(VenvManager::parse_python_version("  Python 3.11.7\n"), "3.11.7");
    assert_eq!(VenvManager::parse_python_version("3.12.0"), "3.12.0");
}

#[test]
fn mod_test_py_manager_creation() {
    let manager = PyManager::new();
    assert_eq!(manager.installer().config().default_version, "3.11");
    assert!(manager.installer().config().enable_cache);
}

#[test]
fn mod_test_py_manager_with_config() {
    let config = PyInstallerConfig {
        install_dir: "/tmp/test-python-manager".to_string(),
        default_version: "3.11".to_string(),
        enable_cache: true,
    };
    let manager = PyManager::with_config(config);
    assert_eq!(manager.installer().config().default_version, "3.11");
    assert!(manager.installer().config().enable_cache);
}

#[test]
fn venv_layout() {
    assert_eq!(PyManager::venv_or_default(None), ".venv");
    assert_eq!(PyManager::venv_or_default(Some("env")), "env");
    assert_eq!(PyManager::interpreter_request("3.11"), "python3.11");
    assert_eq!(PyManager::python_in_venv(".venv", OsFamily::Linux), ".venv/bin/python3");
    assert_eq!(PyManager::python_in_venv(".venv", OsFamily::Windows), ".venv\\Scripts\\python.exe");
    assert_eq!(PyManager::python_in_venv("C:\\envs\\", OsFamily::Windows), "C:\\envs\\Scripts\\python.exe");
    assert_eq!(PyManager::venv_marker("/e"), "/e/pyvenv.cfg");
    assert_eq!(PyManager::system_python(OsFamily::Windows), "python");
    assert_eq!(PyManager::system_python(OsFamily::Linux), "python3");
}

#[test]
fn venv_path_entries() {
    assert!(PyManager::is_venv_path_entry("/home/u/My-VENV/bin"));
    assert!(PyManager::is_venv_path_entry("C:\\venv\\Scripts"));
    assert!(!PyManager::is_venv_path_entry("/usr/bin"));
    let paths = vec!["/p/.venv/bin".to_string(), "/usr/bin".to_string(), "/opt".to_string()];
    assert_eq!(PyManager::without_venv_paths(&paths), vec!["/usr/bin", "/opt"]);
    assert_eq!(
        PyManager::with_venv_first("/p/.venv", OsFamily::Linux, &paths[1..].to_vec()),
        vec!["/p/.venv/bin", "/usr/bin", "/opt"]
    );
    assert_eq!(
        PyManager::parse_freeze_list("requests==2.31.0\n   \n  flask==3.0 \n"),
        vec!["requests==2.31.0", "flask==3.0"]
    );
}

#[test]
fn python_path_decisions() {
    assert_eq!(PyManager::script_target("main.py", true, "/tmp"), ("main.py".to_string(), false));
    assert_eq!(
        PyManager::script_target("print(1)", false, "/tmp"),
        ("/tmp/ai00_run_script.py".to_string(), true)
    );
    assert_eq!(
        PyManager::python_path_choice("3.11", Some("/uv/py".to_string()), Some("/usr/bin/python3".to_string())).unwrap(),
        "/uv/py"
    );
    assert_eq!(
        PyManager::python_path_choice("3.11", None, Some("/usr/bin/python3".to_string())).unwrap(),
        "/usr/bin/python3"
    );
    match PyManager::python_path_choice("3.11", None, None) {
        Err(Error::Runtime(m)) => assert_eq!(m, "Python version 3.11 not found or not installed"),
        _ => panic!("expected a runtime error"),
    }
    assert!(PyManager::reports_version(true, "Python 3.11.4\n", "3.11"));
    assert!(!PyManager::reports_version(false, "Python 3.11.4\n", "3.11"));
    assert!(!PyManager::reports_version(true, "Python 3.12.0\n", "3.11"));
}

#[test]
fn venv_manager_setters() {
    let mut manager = VenvManager::new("p".to_string(), "v".to_string());
    manager.set_current_venv(Some("/e".to_string()));
    assert_eq!(manager.current_venv(), Some(&"/e".to_string()));
    manager.set_config(PyManagerConfig {
        python_dir: "q".to_string(),
        venv_dir: "w".to_string(),
        use_system_python: false,
        prefer_venv: true,
    });
    assert_eq!(manager.config().python_dir, "q");
    assert_eq!(manager.current_venv(), Some(&"/e".to_string()));
}

#[test]
fn python_order_is_antisymmetric() {
    let versions = ["3.8", "3.9.1", "3.11", "3.11.0", "3.11.4", "3.12"];
    for a in versions {
        assert_eq!(compare_python_versions(a, a).unwrap(), Ordering::Equal);
        for b in versions {
            let ab = compare_python_versions(a, b).unwrap();
            let ba = compare_python_versions(b, a).unwrap();
            assert_eq!(ab, ba.reverse());
        }
    }
}

#[test]
fn script_failure_messages() {
    assert_eq!(
        PyManager::script_failure_message(true, "print(1)", ".venv"),
        "Failed to run script in virtual environment at .venv"
    );
    assert_eq!(
        PyManager::script_failure_message(false, "main.py", ".venv"),
        "Failed to run script main.py in virtual environment at .venv"
    );
}

#[test]
fn venv_probing() {
    assert_eq!(
        PyManager::venv_probe_paths("/e", OsFamily::Linux),
        vec!["/e", "/e/pyvenv.cfg", "/e/bin/python3"]
    );
    assert_eq!(
        PyManager::venv_probe_paths("C:\\e", OsFamily::Windows),
        vec!["C:\\e", "C:\\e\\pyvenv.cfg", "C:\\e\\Scripts\\python.exe"]
    );
    assert!(PyManager::venv_usable(&vec![true, true, true], true));
    assert!(!PyManager::venv_usable(&vec![true, false, true], true));
    assert!(!PyManager::venv_usable(&vec![true, true, true], false));
    assert_eq!(
        PyManager::venv_python_outcome("/e", OsFamily::Linux, true, true, true).unwrap(),
        "/e/bin/python3"
    );
    match PyManager::venv_python_outcome("/e", OsFamily::Linux, false, true, true) {
        Err(Error::VirtualEnvironmentNotFound(m)) => assert_eq!(m, "/e"),
        _ => panic!("expected a missing environment"),
    }
    match PyManager::venv_python_outcome("/e", OsFamily::Linux, true, false, true) {
        Err(Error::PythonExecutableNotFound(m)) => assert_eq!(m, "/e/bin/python3"),
        _ => panic!("expected a missing executable"),
    }
    match PyManager::venv_python_outcome("/e", OsFamily::Linux, true, true, false) {
        Err(Error::PythonExecutableNotValid(m)) => assert_eq!(m, "/e/bin/python3"),
        _ => panic!("expected an invalid executable"),
    }
}
