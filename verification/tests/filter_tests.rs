use benchmarks::action::{should_skip, Action, Benchmarks};
use benchmarks::config::{Config, EnvInputs};
use benchmarks::runner::{ReplayMeasure, Runner, ScriptStep, SetupScript};

fn test_config() -> Config {
    let inputs = EnvInputs {
        build_id: Some(String::from("build-1")),
        data_source: Some(String::from("src")),
        client_branch: Some(String::from("main")),
        client_commit: Some(String::from("c0ffee")),
        environment: Some(String::from("bench")),
        target_url: Some(String::from("http://localhost:9200")),
        report_url: Some(String::from("http://localhost:9201")),
        service_type: Some(String::from("elasticsearch")),
        service_name: Some(String::from("target")),
        service_version: Some(String::from("7.7.0")),
        os_family: Some(String::from("linux")),
    };
    Config::new(inputs, String::from("1.43.0")).unwrap()
}

fn named(name: &str) -> Action {
    Action::new(String::from(name), None, None, 0, 2, None)
}

#[test]
fn filter_skips_the_named_action_and_not_others() {
    assert!(should_skip(&named("index"), "index"));
    assert!(!should_skip(&named("ping"), "index"));
}

#[test]
fn empty_filter_skips_nothing() {
    assert!(!should_skip(&named("ping"), ""));
    assert!(!should_skip(&named("index"), ""));
}

#[test]
fn filter_matches_by_substring() {
    assert!(should_skip(&named("index"), "ping,index"));
    assert!(should_skip(&named("dex"), "index"));
    assert!(!should_skip(&named("indexing"), "index"));
}

#[test]
fn skipped_action_runs_nothing_and_records_nothing() {
    let config = test_config();
    let filter = "index";
    let mut script = Vec::new();
    script.push(ScriptStep::Respond(200));
    script.push(ScriptStep::Respond(200));
    for action in [named("index"), named("ping")] {
        let mut hook = ReplayMeasure::new(SetupScript::NoSetup, script.clone());
        let mut runner = Runner::new(&config, &action);
        if !should_skip(&action, filter) {
            let _ = runner.run(&mut hook);
        }
        if action.action == "index" {
            assert_eq!(hook.position(), 0);
            assert_eq!(runner.stats().len(), 0);
        } else {
            assert_eq!(hook.position(), 2);
            assert_eq!(runner.stats().len(), 2);
        }
    }
}

#[test]
fn catalog_lists_ping_then_index() {
    let catalog = Benchmarks::new();
    assert_eq!(catalog.operations.len(), 2);
    assert_eq!(catalog.operations[0].action, "ping");
    assert_eq!(catalog.operations[1].action, "index");
    assert_eq!(catalog.operations[0].warmups, 100);
    assert_eq!(catalog.operations[0].repetitions, 10000);
}

#[test]
fn action_overrides_fall_back_when_absent() {
    let config = test_config();
    let plain = named("ping");
    assert_eq!(plain.category(), None);
    assert_eq!(plain.environment(), None);
    assert_eq!(plain.operations(), 1);
    assert_eq!(plain.resolved_category("default-cat"), "default-cat");
    assert_eq!(plain.resolved_environment(&config), "bench");

    let tuned = Action::new(
        String::from("index"),
        Some(String::from("core")),
        Some(String::from("staging")),
        0,
        1,
        Some(5),
    );
    assert_eq!(tuned.category(), Some("core"));
    assert_eq!(tuned.environment(), Some("staging"));
    assert_eq!(tuned.operations(), 5);
    assert_eq!(tuned.resolved_category("default-cat"), "core");
    assert_eq!(tuned.resolved_environment(&config), "staging");
}
