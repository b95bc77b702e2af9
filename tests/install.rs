use asdf_config::config::{Config, ConfigError, PluginSpec};
use asdf_config::install::{plan, run, select, Action, Event, InstallPlan, Outcome, Phase, Reconciler};

fn spec(version: &str, source: &str, post: &[&str]) -> PluginSpec {
    PluginSpec {
        version: version.to_string(),
        source: source.to_string(),
        optional: false,
        post_install: post.iter().map(|s| s.to_string()).collect(),
    }
}

fn abc() -> Config {
    let mut c = Config::new();
    c.insert("a".to_string(), spec("1.0", "official", &[]));
    c.insert("b".to_string(), spec("^2", "hyperpolymath", &["echo b"]));
    c.insert("c".to_string(), spec("latest", "https://x/c.git", &[]));
    c
}

fn ok() -> Event {
    Event { success: true, stderr: String::new() }
}

fn failed(text: &str) -> Event {
    Event { success: false, stderr: text.to_string() }
}

#[test]
fn insert_keeps_names_unique() {
    let mut c = abc();
    c.insert("b".to_string(), spec("3.0", "official", &[]));
    assert_eq!(c.plugins.len(), 3);
    assert_eq!(c.plugins[1].name, "b");
    assert_eq!(c.plugins[1].spec.version, "3.0");
    assert_eq!(c.position("c"), Some(2));
    assert_eq!(c.position("d"), None);
}

#[test]
fn filter_selects_the_named_plugin() {
    let c = abc();
    assert_eq!(select(&c, Some("b")), vec![1]);
    assert_eq!(select(&c, None), vec![0, 1, 2]);
}

#[test]
fn absent_filter_name_is_nothing_to_do() {
    assert!(select(&abc(), Some("zz")).is_empty());
    match run(Ok(abc()), Some("zz"), false) {
        Ok(InstallPlan::NothingToDo) => {}
        _ => panic!("expected nothing to do"),
    }
}

#[test]
fn dry_run_one_entry_per_plugin() {
    match run(Ok(abc()), None, true) {
        Ok(InstallPlan::DryRun(jobs)) => {
            assert_eq!(jobs.len(), 3);
            assert_eq!(jobs[1].url, "https://github.com/hyperpolymath/asdf-b-plugin.git");
            assert_eq!(jobs[1].version, "latest");
            assert_eq!(jobs[1].declared, "^2");
            assert_eq!(jobs[2].url, "https://x/c.git");
        }
        _ => panic!("expected a dry run"),
    }
}

#[test]
fn dry_run_trivy_scenario() {
    let mut c = Config::new();
    c.insert("trivy".to_string(), spec("1.2.3", "official", &[]));
    match run(Ok(c), None, true) {
        Ok(InstallPlan::DryRun(jobs)) => {
            assert_eq!(jobs.len(), 1);
            assert_eq!(jobs[0].name, "trivy");
            assert_eq!(jobs[0].declared, "1.2.3");
            assert_eq!(jobs[0].version, "1.2.3");
            assert_eq!(jobs[0].url, "https://github.com/asdf-vm/asdf-trivy.git");
        }
        _ => panic!("expected a dry run"),
    }
}

#[test]
fn missing_config_is_not_an_error() {
    assert!(matches!(run(Err(ConfigError::NotFound), None, false), Ok(InstallPlan::NoConfig)));
}

#[test]
fn parse_error_is_propagated() {
    match run(Err(ConfigError::Parse("bad".to_string())), None, true) {
        Err(ConfigError::Parse(m)) => assert_eq!(m, "bad"),
        _ => panic!("expected the parse error"),
    }
}

fn live(c: Config) -> Reconciler {
    match run(Ok(c), None, false) {
        Ok(InstallPlan::Live(d)) => d,
        _ => panic!("expected a live run"),
    }
}

#[test]
fn full_run_asks_for_each_step() {
    let mut d = live(abc());
    assert!(matches!(d.action(), Action::AddPlugin { ref name, ref url } if name == "a" && url == "https://github.com/asdf-vm/asdf-a.git"));
    d.step(&ok());
    assert!(matches!(d.action(), Action::InstallVersion { ref name, ref version } if name == "a" && version == "1.0"));
    d.step(&ok());
    assert!(matches!(d.action(), Action::SetGlobal { ref name, ref version } if name == "a" && version == "1.0"));
    d.step(&failed("ignored"));
    assert_eq!(d.outcomes, vec![Outcome::Installed]);
    assert!(matches!(d.action(), Action::AddPlugin { ref name, .. } if name == "b"));
    d.step(&ok());
    d.step(&ok());
    d.step(&ok());
    assert!(matches!(d.action(), Action::RunShell { ref command } if command == "echo b"));
    d.step(&failed("post-install failure is ignored"));
    assert_eq!(d.outcomes, vec![Outcome::Installed, Outcome::Installed]);
    d.step(&ok());
    d.step(&failed("no such version"));
    assert_eq!(d.outcomes, vec![Outcome::Installed, Outcome::Installed, Outcome::InstallFailed]);
    assert!(matches!(d.action(), Action::Done));
}

#[test]
fn already_added_goes_on_to_install() {
    let mut d = live(abc());
    d.step(&failed("Plugin named a already added"));
    assert!(d.phase == Phase::Install);
    assert_eq!(d.current, 0);
    assert!(d.outcomes.is_empty());
}

#[test]
fn other_registration_failure_moves_on() {
    let mut d = live(abc());
    d.step(&failed("network unreachable"));
    assert_eq!(d.outcomes, vec![Outcome::AddFailed]);
    assert_eq!(d.current, 1);
    assert!(d.phase == Phase::Register);
    assert!(matches!(d.action(), Action::AddPlugin { ref name, .. } if name == "b"));
}

#[test]
fn plan_follows_selection_order() {
    let c = abc();
    let jobs = plan(&c, &vec![2, 0]);
    assert_eq!(jobs.len(), 2);
    assert_eq!(jobs[0].name, "c");
    assert_eq!(jobs[1].name, "a");
    let d = Reconciler::new(jobs);
    assert_eq!(d.current, 0);
}
