use asdf_config::source::get_plugin_source;
use asdf_config::text::{contains, same_text, starts_with, starts_with_char};
use asdf_config::version::resolve_version;

#[test]
fn official_source_url() {
    assert_eq!(get_plugin_source("trivy", "official"), "https://github.com/asdf-vm/asdf-trivy.git");
}

#[test]
fn ecosystem_source_url() {
    assert_eq!(
        get_plugin_source("nickel", "hyperpolymath"),
        "https://github.com/hyperpolymath/asdf-nickel-plugin.git"
    );
}

#[test]
fn explicit_url_source_is_kept() {
    assert_eq!(
        get_plugin_source("x", "https://example.org/asdf-x.git"),
        "https://example.org/asdf-x.git"
    );
    assert_eq!(get_plugin_source("x", "http://h/p"), "http://h/p");
}

#[test]
fn unknown_source_falls_back() {
    assert_eq!(get_plugin_source("cue", "community"), "https://github.com/hyperpolymath/asdf-cue-plugin.git");
    assert_eq!(get_plugin_source("cue", ""), "https://github.com/hyperpolymath/asdf-cue-plugin.git");
    assert_eq!(get_plugin_source("", "htt"), "https://github.com/hyperpolymath/asdf--plugin.git");
}

#[test]
fn every_source_resolves_to_a_url() {
    for s in ["official", "hyperpolymath", "http://a", "", "weird source", "ÿ"] {
        assert!(get_plugin_source("p", s).starts_with("http"));
    }
}

#[test]
fn keywords_resolve_to_latest() {
    assert_eq!(resolve_version("latest"), "latest");
    assert_eq!(resolve_version("stable"), "latest");
}

#[test]
fn ranges_resolve_to_latest() {
    assert_eq!(resolve_version("^1.2"), "latest");
    assert_eq!(resolve_version("~1.2"), "latest");
    assert_eq!(resolve_version(">1.2"), "latest");
    assert_eq!(resolve_version("<1.2"), "latest");
}

#[test]
fn exact_version_is_kept() {
    assert_eq!(resolve_version("1.4.2"), "1.4.2");
    assert_eq!(resolve_version(""), "");
    assert_eq!(resolve_version("Latest"), "Latest");
}

#[test]
fn text_helpers() {
    assert!(contains("error: plugin already added", "already added"));
    assert!(!contains("already adde", "already added"));
    assert!(contains("abc", ""));
    assert!(same_text("é", "é"));
    assert!(!same_text("a", "ab"));
    assert!(starts_with("https://x", "http"));
    assert!(!starts_with("htt", "http"));
    assert!(starts_with_char("^1", '^'));
    assert!(!starts_with_char("", '^'));
}
