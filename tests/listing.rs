use asdf_config::config::{Config, ConfigError, PluginSpec};
use asdf_config::list::{catalog, list_all_available, list_configured, run, Listing};
use asdf_config::sync::{self, SyncNotice};

fn config() -> Config {
    let mut c = Config::new();
    c.insert(
        "trivy".to_string(),
        PluginSpec {
            version: "1.2.3".to_string(),
            source: "official".to_string(),
            optional: true,
            post_install: vec!["trivy --version".to_string()],
        },
    );
    c
}

#[test]
fn missing_config_gives_advice() {
    assert!(matches!(run(Err(ConfigError::NotFound), false, None, false), Ok(Listing::NoConfig)));
}

#[test]
fn list_parse_error_is_propagated() {
    assert!(matches!(run(Err(ConfigError::Parse("x".to_string())), false, None, false), Err(ConfigError::Parse(_))));
}

#[test]
fn configured_listing() {
    let v = list_configured(&config(), false);
    assert_eq!(v.len(), 1);
    assert_eq!(v[0].name, "trivy");
    assert_eq!(v[0].version, "1.2.3");
    assert!(v[0].optional);
    assert!(v[0].commands.is_empty());
    let v = list_configured(&config(), true);
    assert_eq!(v[0].commands, vec!["trivy --version".to_string()]);
    assert!(matches!(run(Ok(config()), false, None, true), Ok(Listing::Configured(ref l)) if l.len() == 1));
}

#[test]
fn catalog_table() {
    let c = catalog();
    let cats: Vec<&str> = c.iter().map(|s| s.category.as_str()).collect();
    assert_eq!(cats, vec!["security", "database", "config", "network", "crypto"]);
    assert_eq!(c[0].items.len(), 6);
    assert_eq!(c[0].items[0].name, "trivy");
    assert_eq!(c[0].items[0].description, "Security scanner");
    assert_eq!(c[4].items[0].name, "step-ca");
}

#[test]
fn catalog_by_category() {
    let l = list_all_available(Some("network"));
    assert_eq!(l.sections.len(), 1);
    assert_eq!(l.sections[0].category, "network");
    assert!(!l.filter_hint);
    let l = list_all_available(Some("nothing"));
    assert!(l.sections.is_empty());
    let l = list_all_available(None);
    assert_eq!(l.sections.len(), 5);
    assert!(l.filter_hint);
}

#[test]
fn list_all_ignores_config() {
    assert!(matches!(run(Err(ConfigError::NotFound), true, Some("crypto"), false), Ok(Listing::Catalog(ref l)) if l.sections.len() == 1));
}

#[test]
fn sync_directions() {
    assert!(sync::run(false, false) == SyncNotice::ChooseDirection);
    assert!(sync::run(true, false) == SyncNotice::NotYetAvailable { pull: true, push: false });
    assert!(sync::run(true, true) == SyncNotice::NotYetAvailable { pull: true, push: true });
}
