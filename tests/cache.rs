use hashbang::cache::{archive_cache_dir, get_binary_path, get_cache_dir};
use hashbang::config::{ArchiveSource, BinaryConfig};
use hashbang::text::{file_name, join_path};

const LOCALHOST_DIGEST: &str = "f2b99ce05b94599549c70dbbe7a891b278e7c3cacad02334fa44682fca36c740";

fn localhost() -> ArchiveSource {
    ArchiveSource::Url("https://localhost/".to_string())
}

#[test]
fn test_get_cache_dir() {
    let d = get_cache_dir(None, "test", &localhost()).unwrap();
    assert!(d.ends_with(&format!("/hashbang/test/{}", LOCALHOST_DIGEST)));
}

#[test]
fn cache_dir_under_override_is_exact() {
    let d = get_cache_dir(Some("/tmp/cache".to_string()), "test", &localhost()).unwrap();
    assert_eq!(d, format!("/tmp/cache/hashbang/test/{}", LOCALHOST_DIGEST));
}

#[test]
fn cache_dir_is_deterministic() {
    let a = get_cache_dir(Some("/c".to_string()), "test", &localhost()).unwrap();
    let b = get_cache_dir(Some("/c".to_string()), "test", &localhost()).unwrap();
    assert_eq!(a, b);
}

#[test]
fn cache_dir_root_with_trailing_separator() {
    let d = archive_cache_dir("/var/cache/", "buck2", &localhost());
    assert_eq!(d, format!("/var/cache/hashbang/buck2/{}", LOCALHOST_DIGEST));
}

#[test]
fn cache_dir_differs_by_source() {
    let a = archive_cache_dir("/c", "n", &localhost());
    let b = archive_cache_dir("/c", "n", &ArchiveSource::Url("https://localhost/x".to_string()));
    assert_ne!(a, b);
}

#[test]
fn binary_path_uses_name_without_sub_path() {
    let b = BinaryConfig { provided_by: "a".to_string(), sub_path: None };
    assert_eq!(get_binary_path("/c/d", "tool", &b), "/c/d/tool");
}

#[test]
fn binary_path_uses_sub_path() {
    let b = BinaryConfig { provided_by: "a".to_string(), sub_path: Some("bin/tool".to_string()) };
    assert_eq!(get_binary_path("/c/d", "tool", &b), "/c/d/bin/tool");
}

#[test]
fn join_path_cases() {
    assert_eq!(join_path("/a", "b"), "/a/b");
    assert_eq!(join_path("/a/", "b"), "/a/b");
    assert_eq!(join_path("", "b"), "b");
    assert_eq!(join_path("/a", "/b"), "/b");
}

#[test]
fn file_name_cases() {
    assert_eq!(file_name("/usr/bin/buck2"), Some("buck2".to_string()));
    assert_eq!(file_name("/usr/bin/"), Some("bin".to_string()));
    assert_eq!(file_name("tmp/foo.txt"), Some("foo.txt".to_string()));
    assert_eq!(file_name("foo.txt/."), Some("foo.txt".to_string()));
    assert_eq!(file_name("foo.txt/.//"), Some("foo.txt".to_string()));
    assert_eq!(file_name("foo.txt/.."), None);
    assert_eq!(file_name("/"), None);
    assert_eq!(file_name(""), None);
    assert_eq!(file_name("."), None);
    assert_eq!(file_name("buck2"), Some("buck2".to_string()));
}

#[test]
fn file_name_agrees_with_std() {
    for p in ["/usr/bin/buck2", "/usr/bin/", "a/./", "./", "/.", "..", "a/..", "...", "x//y", "./a"] {
        let expected = std::path::Path::new(p).file_name().map(|s| s.to_str().unwrap().to_string());
        assert_eq!(file_name(p), expected, "path {}", p);
        assert_eq!(join_path("/base", p), std::path::Path::new("/base").join(p).to_str().unwrap(), "path {}", p);
    }
}
