use capmatch::browser::{BrowserConfig, BrowserMatch, Capabilities};

fn descriptor(name: &str, version: Option<&str>, os: Option<&str>) -> BrowserConfig {
    BrowserConfig::new(
        name.to_owned(),
        version.map(|v| v.to_owned()),
        os.map(|o| o.to_owned()),
        "/usr/bin/driver".to_owned(),
        None,
        1,
        5,
    )
}

fn request(name: &str, version: Option<&str>, platform: Option<&str>) -> Capabilities {
    Capabilities::new(BrowserMatch::new(
        name.to_owned(),
        version.map(|v| v.to_owned()),
        platform.map(|p| p.to_owned()),
    ))
}

#[test]
fn match_is_pure() {
    let d = descriptor("chrome", Some("96.0"), Some("linux"));
    let r = request("chrome", Some("96.0"), Some("Linux"));
    let first = d.matches_capabilities(&r);
    let second = d.matches_capabilities(&r);
    assert_eq!(first, second);
    assert!(first);
}

#[test]
fn name_matching_is_case_insensitive() {
    let d = descriptor("Chrome", None, None);
    assert!(d.matches_capabilities(&request("chrome", None, None)));
    assert!(d.matches_capabilities(&request("CHROME", None, None)));
}

#[test]
fn different_name_rejects() {
    let d = descriptor("chrome", None, None);
    assert!(!d.matches_capabilities(&request("firefox", None, None)));
}

#[test]
fn exact_version_requirement() {
    let d = descriptor("chrome", Some("96.0"), None);
    assert!(d.matches_capabilities(&request("chrome", Some("96.0"), None)));
    assert!(!d.matches_capabilities(&request("chrome", Some("97.0"), None)));
    assert!(d.matches_capabilities(&request("chrome", Some(""), None)));
    assert!(d.matches_capabilities(&request("chrome", None, None)));
}

#[test]
fn version_comparison_is_case_sensitive() {
    let d = descriptor("chrome", Some("96.0B"), None);
    assert!(!d.matches_capabilities(&request("chrome", Some("96.0b"), None)));
}

#[test]
fn unspecified_version_matches_unknown() {
    let d = descriptor("chrome", None, None);
    assert!(d.matches_capabilities(&request("chrome", Some(""), None)));
    assert!(d.matches_capabilities(&request("chrome", None, None)));
}

#[test]
fn unknown_version_rejects_explicit_request() {
    let d = descriptor("chrome", None, None);
    assert!(!d.matches_capabilities(&request("chrome", Some("96.0"), None)));
}

#[test]
fn platform_any_is_a_wildcard() {
    let d = descriptor("chrome", None, None);
    assert!(d.matches_capabilities(&request("chrome", None, Some("any"))));
    assert!(d.matches_capabilities(&request("chrome", None, Some("ANY"))));
    let with_os = descriptor("chrome", None, Some("linux"));
    assert!(with_os.matches_capabilities(&request("chrome", None, Some("Any"))));
}

#[test]
fn unknown_platform_rejects_explicit_request() {
    let d = descriptor("chrome", None, None);
    assert!(!d.matches_capabilities(&request("chrome", None, Some("linux"))));
}

#[test]
fn platform_matching_is_case_insensitive() {
    let d = descriptor("chrome", None, Some("Linux"));
    assert!(d.matches_capabilities(&request("chrome", None, Some("linux"))));
    assert!(d.matches_capabilities(&request("chrome", None, Some("LINUX"))));
}

#[test]
fn mismatched_platform_rejects() {
    let d = descriptor("chrome", None, Some("windows"));
    assert!(!d.matches_capabilities(&request("chrome", None, Some("linux"))));
}

#[test]
fn loose_request_matches_loose_descriptor() {
    let d = descriptor("chrome", None, None);
    let r = request("chrome", None, None);
    assert!(d.matches_capabilities(&r));
}

#[test]
fn full_request_matches_full_descriptor() {
    let d = descriptor("firefox", Some("100"), Some("windows"));
    let r = request("firefox", Some("100"), Some("Windows"));
    assert!(d.matches_capabilities(&r));
}

#[test]
fn wrong_version_rejects_full_descriptor() {
    let d = descriptor("firefox", Some("100"), Some("windows"));
    let r = request("firefox", Some("101"), Some("windows"));
    assert!(!d.matches_capabilities(&r));
}

#[test]
fn defaults_are_one_and_five() {
    assert_eq!(capmatch::browser::default_sessions_per_driver(), 1);
    assert_eq!(capmatch::browser::default_max_sessions(), 5);
}

#[test]
fn descriptor_accessors_read_back_fields() {
    let d = BrowserConfig::new(
        "chrome".to_owned(),
        Some("96.0".to_owned()),
        Some("linux".to_owned()),
        "/opt/chromedriver".to_owned(),
        Some(vec!["--headless".to_owned(), "--no-sandbox".to_owned()]),
        2,
        8,
    );
    assert_eq!(d.name(), "chrome");
    assert_eq!(d.driver_path(), "/opt/chromedriver");
    assert_eq!(
        d.args(),
        &Some(vec!["--headless".to_owned(), "--no-sandbox".to_owned()])
    );
    assert_eq!(d.sessions_per_driver(), 2);
    assert_eq!(d.max_sessions(), 8);
}

#[test]
fn request_accessors_read_back_fields() {
    let r = request("firefox", Some("100"), Some("windows"));
    assert_eq!(r.browser_name(), "firefox");
    assert_eq!(r.browser_version(), &Some("100".to_owned()));
    assert_eq!(r.platform_name(), &Some("windows".to_owned()));
    let loose = request("firefox", None, None);
    assert_eq!(loose.browser_version(), &None);
    assert_eq!(loose.platform_name(), &None);
}
