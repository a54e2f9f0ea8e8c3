use ai00_run::number::{bool_str, i32_text, parse_bool, parse_u32, parse_u64, u64_text};
use ai00_run::path::{join_path, join_path_on, OsFamily};
use ai00_run::strmap::StringMap;

#[test]
fn string_map_operations() {
    let mut m = StringMap::new();
    assert!(m.is_empty());
    m.insert("a".to_string(), "1".to_string());
    m.insert("b".to_string(), "2".to_string());
    m.insert("a".to_string(), "3".to_string());
    assert_eq!(m.get("a"), Some(&"3".to_string()));
    assert!(m.contains_key("b"));
    assert_eq!(m.remove("a"), Some("3".to_string()));
    assert_eq!(m.get("a"), None);
    assert_eq!(m.pairs(), vec![("b".to_string(), "2".to_string())]);
    assert!(!m.is_empty());
}

#[test]
fn numbers_and_flags() {
    let chars = |s: &str| s.chars().collect::<Vec<char>>();
    assert_eq!(parse_u64(&chars("+42")), Some(42));
    assert_eq!(parse_u64(&chars("18446744073709551616")), None);
    assert_eq!(parse_u32(&chars("4294967295")), Some(4294967295));
    assert_eq!(parse_u32(&chars("")), None);
    assert_eq!(parse_bool(&chars("true")), Some(true));
    assert_eq!(parse_bool(&chars("True")), None);
    assert_eq!(u64_text(9007), "9007");
    assert_eq!(i32_text(-2147483648), "-2147483648");
    assert_eq!(bool_str(false), "false");
}

#[test]
fn joining_paths() {
    assert_eq!(join_path("a", "b"), "a/b");
    assert_eq!(join_path("a/", "b"), "a/b");
    assert_eq!(join_path("a", "/b"), "/b");
    assert_eq!(join_path("", "b"), "b");
    assert_eq!(join_path_on("a", "b", OsFamily::Windows), "a\\b");
    assert_eq!(join_path_on("a/", "b", OsFamily::Windows), "a/b");
    assert_eq!(join_path_on("a", "D:\\x", OsFamily::Windows), "D:\\x");
    assert_eq!(join_path_on("a", "b", OsFamily::MacOs), "a/b");
}

#[test]
fn printed_numbers_read_back() {
    for n in [0u64, 7, 10, 8192, 4294967296, u64::MAX] {
        let text: Vec<char> = u64_text(n).chars().collect();
        assert_eq!(parse_u64(&text), Some(n));
    }
}

#[test]
fn windows_join_keeps_the_drive() {
    assert_eq!(join_path_on("C:\\foo", "\\bar", OsFamily::Windows), "C:\\bar");
    assert_eq!(join_path_on("C:\\foo", "/bar", OsFamily::Windows), "C:/bar");
    assert_eq!(join_path_on("\\foo", "\\bar", OsFamily::Windows), "\\bar");
    assert_eq!(join_path_on("C:", "x", OsFamily::Windows), "C:x");
    assert_eq!(join_path_on("", "x", OsFamily::Windows), "x");
    assert_eq!(join_path_on("C:\\foo", "D:\\bar", OsFamily::Windows), "D:\\bar");
    assert_eq!(join_path_on("/a", "\\b", OsFamily::Linux), "/a/\\b");
}
