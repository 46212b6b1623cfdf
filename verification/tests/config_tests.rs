use benchmarks::config::{Config, EnvInputs};
use benchmarks::error::Kind;

fn all_inputs() -> EnvInputs {
    EnvInputs {
        build_id: Some(String::from("build-17")),
        data_source: Some(String::from("nyc_taxis")),
        client_branch: Some(String::from("main")),
        client_commit: Some(String::from("abc123")),
        environment: Some(String::from("nightly")),
        target_url: Some(String::from("http://localhost:9200")),
        report_url: Some(String::from("http://localhost:9201")),
        service_type: Some(String::from("elasticsearch")),
        service_name: Some(String::from("es-target")),
        service_version: Some(String::from("7.7.0")),
        os_family: Some(String::from("linux")),
    }
}

#[test]
fn valid_inputs_build_a_config() {
    let config = Config::new(all_inputs(), String::from("1.43.0")).unwrap();
    assert_eq!(config.build_id, "build-17");
    assert_eq!(config.environment(), "nightly");
    assert_eq!(config.target.service.ty, "elasticsearch");
    assert_eq!(config.target.service.name, "es-target");
    assert_eq!(config.target.service.version, "7.7.0");
    assert_eq!(config.target.service.git.branch, "main");
    assert_eq!(config.target.service.git.commit, "abc123");
    assert_eq!(config.target.os.family, "linux");
    assert_eq!(config.runner.service.name, "es-target");
    assert_eq!(config.runner.runtime.name, "rust");
    assert_eq!(config.runner.runtime.version, "1.43.0");
    assert_eq!(config.runner.os.family, "linux");
    assert_eq!(config.runner_client().transport.url, "http://localhost:9200");
    assert_eq!(config.report_client.transport.url, "http://localhost:9201");
}

#[test]
fn missing_input_is_reported_by_name() {
    let mut inputs = all_inputs();
    inputs.build_id = None;
    let err = Config::new(inputs, String::from("1.43.0")).unwrap_err();
    assert!(matches!(err.kind, Kind::Config(_)));
    assert_eq!(err.message(), "BUILD_ID environment variable not found");
}

#[test]
fn empty_input_is_reported_distinctly_from_missing() {
    let mut inputs = all_inputs();
    inputs.data_source = Some(String::new());
    let err = Config::new(inputs, String::from("1.43.0")).unwrap_err();
    assert_eq!(err.message(), "DATA_SOURCE environment variable is empty");
}

#[test]
fn two_violations_give_two_lines_in_enumeration_order() {
    let mut inputs = all_inputs();
    inputs.report_url = None;
    inputs.client_branch = Some(String::new());
    let err = Config::new(inputs, String::from("1.43.0")).unwrap_err();
    assert_eq!(
        err.message(),
        "CLIENT_BRANCH environment variable is empty\n\
         ELASTICSEARCH_REPORT_URL environment variable not found"
    );
}

#[test]
fn every_violation_is_collected_never_fail_fast() {
    let inputs = EnvInputs {
        build_id: None,
        data_source: None,
        client_branch: None,
        client_commit: None,
        environment: None,
        target_url: None,
        report_url: None,
        service_type: None,
        service_name: None,
        service_version: None,
        os_family: None,
    };
    let err = Config::new(inputs, String::from("1.43.0")).unwrap_err();
    let message = err.message();
    assert_eq!(message.lines().count(), 11);
    assert_eq!(
        message.lines().next(),
        Some("BUILD_ID environment variable not found")
    );
    assert_eq!(
        message.lines().last(),
        Some("TARGET_SERVICE_OS_FAMILY environment variable not found")
    );
}

#[test]
fn mixed_missing_and_empty_count_all_violations() {
    let mut inputs = all_inputs();
    inputs.build_id = Some(String::new());
    inputs.environment = None;
    inputs.service_version = Some(String::new());
    let err = Config::new(inputs, String::from("1.43.0")).unwrap_err();
    let message = err.message();
    assert_eq!(message.lines().count(), 3);
    assert!(message.contains("BUILD_ID environment variable is empty"));
    assert!(message.contains("CLIENT_BENCHMARK_ENVIRONMENT environment variable not found"));
    assert!(message.contains("TARGET_SERVICE_VERSION environment variable is empty"));
}
