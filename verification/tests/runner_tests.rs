use benchmarks::action::Action;
use benchmarks::config::{Config, EnvInputs};
use benchmarks::error::Kind;
use benchmarks::runner::{Outcome, ReplayMeasure, Runner, ScriptStep, SetupScript};

fn test_config() -> Config {
    let inputs = EnvInputs {
        build_id: Some(String::from("build-1")),
        data_source: Some(String::from("src")),
        client_branch: Some(String::from("main")),
        client_commit: Some(String::from("c0ffee")),
        environment: Some(String::from("bench")),
        target_url: Some(String::from("http://localhost:9200")),
        report_url: Some(String::from("http://localhost:9201")),
        service_type: Some(String::from("elasticsearch")),
        service_name: Some(String::from("target")),
        service_version: Some(String::from("7.7.0")),
        os_family: Some(String::from("linux")),
    };
    Config::new(inputs, String::from("1.43.0")).unwrap()
}

fn respond(status: u16, times: usize) -> Vec<ScriptStep> {
    let mut script = Vec::new();
    for _ in 0..times {
        script.push(ScriptStep::Respond(status));
    }
    script
}

#[test]
fn ping_scenario_three_successful_repetitions() {
    let config = test_config();
    let action = Action::new(String::from("ping"), None, None, 1, 3, None);
    let mut hook = ReplayMeasure::new(SetupScript::NoSetup, respond(200, 4));
    let mut runner = Runner::new(&config, &action);
    let result = runner.run(&mut hook);
    assert!(result.is_ok());
    assert_eq!(runner.stats().len(), 3);
    for stat in runner.stats() {
        assert_eq!(stat.outcome, Outcome::Success);
        assert_eq!(stat.status_code, Some(200));
    }
}

#[test]
fn hook_runs_once_per_warmup_and_repetition() {
    let config = test_config();
    let action = Action::new(String::from("ping"), None, None, 2, 5, None);
    let mut hook = ReplayMeasure::new(SetupScript::NoSetup, respond(503, 7));
    let mut runner = Runner::new(&config, &action);
    let result = runner.run(&mut hook);
    // Every invocation failed, yet all 2 + 5 ran and all 5 were recorded.
    assert!(result.is_err());
    assert_eq!(hook.position(), 7);
    assert_eq!(runner.stats().len(), 5);
}

#[test]
fn index_scenario_transport_failure_then_created() {
    let config = test_config();
    let action = Action::new(String::from("index"), None, None, 0, 2, None);
    let mut hook = ReplayMeasure::new(
        SetupScript::NoSetup,
        vec![
            ScriptStep::Fail(String::from("connection refused")),
            ScriptStep::Respond(201),
        ],
    );
    let mut runner = Runner::new(&config, &action);
    let err = runner.run(&mut hook).unwrap_err();
    assert_eq!(runner.stats().len(), 2);
    assert_eq!(runner.stats()[0].outcome, Outcome::Failure);
    assert_eq!(runner.stats()[0].status_code, None);
    assert_eq!(runner.stats()[1].outcome, Outcome::Success);
    assert_eq!(runner.stats()[1].status_code, Some(201));
    match &err.kind {
        Kind::Run(messages) => {
            assert_eq!(messages.len(), 1);
            assert_eq!(messages[0], "run 0: connection refused");
        }
        other => panic!("expected a run error, got {:?}", other),
    }
}

#[test]
fn warmup_failures_are_diagnostic_only() {
    let config = test_config();
    let action = Action::new(String::from("ping"), None, None, 2, 1, None);
    let mut hook = ReplayMeasure::new(
        SetupScript::NoSetup,
        vec![
            ScriptStep::Fail(String::from("cold start")),
            ScriptStep::Respond(500),
            ScriptStep::Respond(204),
        ],
    );
    let mut runner = Runner::new(&config, &action);
    let err = runner.run(&mut hook).unwrap_err();
    // Warmup outcomes never become records; the one repetition succeeded.
    assert_eq!(runner.stats().len(), 1);
    assert_eq!(runner.stats()[0].outcome, Outcome::Success);
    match &err.kind {
        Kind::Run(messages) => {
            assert_eq!(messages.len(), 2);
            assert_eq!(messages[0], "warmup 0: cold start");
            assert_eq!(messages[1], "warmup 1: status code 500");
        }
        other => panic!("expected a run error, got {:?}", other),
    }
}

#[test]
fn setup_failure_aborts_before_any_invocation() {
    let config = test_config();
    let action = Action::new(String::from("index"), None, None, 3, 4, None);
    let mut hook = ReplayMeasure::new(
        SetupScript::SetupFail(String::from("no cluster")),
        respond(200, 7),
    );
    let mut runner = Runner::new(&config, &action);
    let err = runner.run(&mut hook).unwrap_err();
    assert!(matches!(err.kind, Kind::Response(_)));
    assert_eq!(err.message(), "no cluster");
    assert_eq!(hook.position(), 0);
    assert_eq!(runner.stats().len(), 0);
}

#[test]
fn successful_setup_is_invoked_once_and_not_recorded() {
    let config = test_config();
    let action = Action::new(String::from("index"), None, None, 0, 1, None);
    let mut hook = ReplayMeasure::new(SetupScript::SetupOk(200), respond(200, 1));
    let mut runner = Runner::new(&config, &action);
    let result = runner.run(&mut hook);
    assert!(result.is_ok());
    assert_eq!(hook.position(), 1);
    assert_eq!(runner.stats().len(), 1);
}

#[test]
fn outcome_is_success_exactly_in_the_success_range() {
    let config = test_config();
    let cases = [
        (199u16, Outcome::Failure),
        (200u16, Outcome::Success),
        (299u16, Outcome::Success),
        (300u16, Outcome::Failure),
        (404u16, Outcome::Failure),
    ];
    for (status, expected) in cases {
        let action = Action::new(String::from("ping"), None, None, 0, 1, None);
        let mut hook = ReplayMeasure::new(SetupScript::NoSetup, respond(status, 1));
        let mut runner = Runner::new(&config, &action);
        let _ = runner.run(&mut hook);
        assert_eq!(runner.stats().len(), 1);
        assert_eq!(runner.stats()[0].outcome, expected);
        assert_eq!(runner.stats()[0].status_code, Some(status));
    }
}

#[test]
fn failing_status_is_tagged_with_its_repetition_index() {
    let config = test_config();
    let action = Action::new(String::from("ping"), None, None, 0, 3, None);
    let mut hook = ReplayMeasure::new(
        SetupScript::NoSetup,
        vec![
            ScriptStep::Respond(200),
            ScriptStep::Respond(502),
            ScriptStep::Respond(200),
        ],
    );
    let mut runner = Runner::new(&config, &action);
    let err = runner.run(&mut hook).unwrap_err();
    assert_eq!(err.message(), "run 1: status code 502");
}

#[test]
fn running_the_same_action_twice_gives_equal_length_records() {
    let config = test_config();
    let action = Action::new(String::from("ping"), None, None, 1, 3, None);

    let mut first_hook = ReplayMeasure::new(SetupScript::NoSetup, respond(200, 4));
    let mut first_runner = Runner::new(&config, &action);
    assert!(first_runner.run(&mut first_hook).is_ok());

    let mut second_hook = ReplayMeasure::new(SetupScript::NoSetup, respond(200, 4));
    let mut second_runner = Runner::new(&config, &action);
    assert!(second_runner.run(&mut second_hook).is_ok());

    assert_eq!(first_runner.stats().len(), second_runner.stats().len());
    for stat in first_runner.stats().iter().chain(second_runner.stats().iter()) {
        assert_eq!(stat.outcome, Outcome::Success);
    }
}

#[test]
fn outcome_labels_match_their_classification() {
    assert_eq!(Outcome::Success.label(), "success");
    assert_eq!(Outcome::Failure.label(), "failure");
}

#[test]
fn a_deadline_rides_along_without_changing_scripted_runs() {
    let config = test_config();
    let action = Action::new(String::from("ping"), None, None, 0, 2, None).with_timeout(500);
    assert_eq!(action.timeout_millis, Some(500));
    let mut hook = ReplayMeasure::new(SetupScript::NoSetup, respond(200, 2));
    let mut runner = Runner::new(&config, &action);
    assert!(runner.run(&mut hook).is_ok());
    assert_eq!(runner.stats().len(), 2);
}

#[test]
fn exhausted_script_reports_transport_failures() {
    let config = test_config();
    let action = Action::new(String::from("ping"), None, None, 0, 2, None);
    let mut hook = ReplayMeasure::new(SetupScript::NoSetup, respond(200, 1));
    let mut runner = Runner::new(&config, &action);
    let err = runner.run(&mut hook).unwrap_err();
    assert_eq!(runner.stats().len(), 2);
    assert_eq!(runner.stats()[1].outcome, Outcome::Failure);
    assert_eq!(err.message(), "run 1: script exhausted");
}
