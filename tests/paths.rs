use bevy_web_asset::path_kind::{classify, is_http, is_origin, starts_with, PathClass};

#[test]
fn http_and_https_are_remote_absolute() {
    assert_eq!(
        classify("http://example.com/a.png"),
        PathClass::RemoteAbsolute("http://example.com/a.png".to_string())
    );
    assert_eq!(
        classify("https://example.com/a.bin"),
        PathClass::RemoteAbsolute("https://example.com/a.bin".to_string())
    );
    assert!(is_http("https://x"));
    assert!(is_http("http://"));
}

#[test]
fn origin_marker_is_stripped() {
    assert_eq!(
        classify("{origin}/x.bin"),
        PathClass::RemoteOriginRelative("/x.bin".to_string())
    );
    assert_eq!(classify("{origin}"), PathClass::RemoteOriginRelative(String::new()));
    assert!(is_origin("{origin}/a"));
    assert!(!is_http("{origin}/a"));
}

#[test]
fn only_the_leading_marker_is_stripped() {
    assert_eq!(
        classify("{origin}/{origin}/y"),
        PathClass::RemoteOriginRelative("/{origin}/y".to_string())
    );
}

#[test]
fn other_paths_are_local() {
    assert_eq!(classify("textures/a.png"), PathClass::Local);
    assert_eq!(classify(""), PathClass::Local);
    assert_eq!(classify("http:/x"), PathClass::Local);
    assert_eq!(classify("HTTP://x"), PathClass::Local);
    assert_eq!(classify("ftp://x"), PathClass::Local);
    assert_eq!(classify("a/{origin}/b"), PathClass::Local);
    assert_eq!(classify("{origin"), PathClass::Local);
    assert!(!is_http("http:"));
    assert!(!is_origin("origin"));
}

#[test]
fn prefix_test_is_on_characters() {
    assert!(starts_with("äbc", "äb"));
    assert!(!starts_with("äbc", "ab"));
    assert!(starts_with("abc", ""));
    assert!(!starts_with("ab", "abc"));
    assert!(starts_with("abc", "abc"));
}
