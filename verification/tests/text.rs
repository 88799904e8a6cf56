use omnilan::text::{decimal_text, join_path, path_style, str_equal, PathStyle};
use std::path::Path;

#[test]
fn decimal_formatting() {
    assert_eq!(decimal_text(0), "0");
    assert_eq!(decimal_text(7), "7");
    assert_eq!(decimal_text(10), "10");
    assert_eq!(decimal_text(5353), "5353");
    assert_eq!(decimal_text(65535), "65535");
    assert_eq!(decimal_text(u64::MAX), u64::MAX.to_string());
}

#[test]
fn joining_paths() {
    assert_eq!(join_path("/a", "b", PathStyle::Unix), "/a/b");
    assert_eq!(join_path("/a/", "b", PathStyle::Unix), "/a/b");
    assert_eq!(join_path("", "b", PathStyle::Unix), "b");
    assert_eq!(join_path("a\\", "b", PathStyle::Unix), "a\\/b");
    assert_eq!(join_path("C:\\w\\", "b", PathStyle::Windows), "C:\\w\\b");
    assert_eq!(join_path("C:\\w", "b", PathStyle::Windows), "C:\\w\\b");
    assert_eq!(join_path("C:/w/", "b", PathStyle::Windows), "C:/w/b");
    assert_eq!(join_path("C:", "b", PathStyle::Windows), "C:b");
    assert_eq!(join_path("", "b", PathStyle::Windows), "b");
}

#[test]
fn joining_matches_the_platform() {
    for base in ["/a", "/a/", "", "a\\", "rel/dir", ".", "C:", "C:\\w"] {
        for name in ["b", ".ok-proxy", "mihomo.generated.yaml"] {
            let expected = Path::new(base).join(name).display().to_string();
            assert_eq!(join_path(base, name, path_style()), expected, "{base} + {name}");
        }
    }
}

#[test]
fn equality_of_texts() {
    assert!(str_equal("abc", "abc"));
    assert!(!str_equal("abc", "abd"));
    assert!(!str_equal("ab", "abc"));
    assert!(str_equal("", ""));
}
