use benchmarks::http::{Elasticsearch, Method, Transport};
use benchmarks::slm::{
    Slm, SlmDeleteLifecycleParts, SlmExecuteLifecycleParts, SlmExecuteRetentionParts,
    SlmGetLifecycleParts, SlmGetStatsParts, SlmGetStatusParts, SlmPutLifecycleParts,
    SlmStartParts, SlmStopParts,
};

fn client() -> Elasticsearch {
    Elasticsearch::new(Transport::single_node("http://localhost:9200"))
}

#[test]
fn delete_lifecycle_url_names_the_policy() {
    let parts = SlmDeleteLifecycleParts::PolicyId(String::from("daily-snapshots"));
    assert_eq!(parts.url(), "/_slm/policy/daily-snapshots");
}

#[test]
fn url_parts_are_percent_encoded() {
    let parts = SlmDeleteLifecycleParts::PolicyId(String::from("a b/c%"));
    assert_eq!(parts.url(), "/_slm/policy/a%20b%2Fc%25");
}

#[test]
fn unreserved_characters_pass_through_unchanged() {
    let parts = SlmPutLifecycleParts::PolicyId(String::from("Az09_-.~"));
    assert_eq!(parts.url(), "/_slm/policy/Az09_-.~");
}

#[test]
fn execute_lifecycle_url_appends_the_execute_segment() {
    let parts = SlmExecuteLifecycleParts::PolicyId(String::from("p1"));
    assert_eq!(parts.url(), "/_slm/policy/p1/_execute");
}

#[test]
fn get_lifecycle_url_joins_policies_with_encoded_commas() {
    let parts = SlmGetLifecycleParts::PolicyId(vec![
        String::from("daily"),
        String::from("weekly"),
    ]);
    assert_eq!(parts.url(), "/_slm/policy/daily%2Cweekly");
    assert_eq!(SlmGetLifecycleParts::NoParts.url(), "/_slm/policy");
}

#[test]
fn fixed_paths_render_verbatim() {
    assert_eq!(SlmExecuteRetentionParts::NoParts.url(), "/_slm/_execute_retention");
    assert_eq!(SlmGetStatsParts::NoParts.url(), "/_slm/stats");
    assert_eq!(SlmGetStatusParts::NoParts.url(), "/_slm/status");
    assert_eq!(SlmStartParts::NoParts.url(), "/_slm/start");
    assert_eq!(SlmStopParts::NoParts.url(), "/_slm/stop");
}

#[test]
fn request_collects_query_parameters_in_fixed_order() {
    let es = client();
    let request = Slm::new(&es)
        .delete_lifecycle(SlmDeleteLifecycleParts::PolicyId(String::from("p")))
        .error_trace(true)
        .filter_path(vec![String::from("took"), String::from("items")])
        .human(false)
        .pretty(true)
        .source(String::from("q"))
        .request();
    assert_eq!(request.method, Method::Delete);
    assert_eq!(request.path, "/_slm/policy/p");
    let query: Vec<(String, String)> = request.query;
    let expected = vec![
        (String::from("error_trace"), String::from("true")),
        (String::from("filter_path"), String::from("took,items")),
        (String::from("human"), String::from("false")),
        (String::from("pretty"), String::from("true")),
        (String::from("source"), String::from("q")),
    ];
    assert_eq!(query, expected);
    assert!(request.body.is_none());
}

#[test]
fn absent_parameters_are_skipped() {
    let es = client();
    let request = es.slm().get_stats().pretty(true).request();
    assert_eq!(request.method, Method::Get);
    assert_eq!(request.path, "/_slm/stats");
    assert_eq!(
        request.query,
        vec![(String::from("pretty"), String::from("true"))]
    );
}

#[test]
fn body_is_carried_through_to_the_request() {
    let es = client();
    let request = es
        .slm()
        .put_lifecycle(SlmPutLifecycleParts::PolicyId(String::from("p")))
        .body(String::from("{\"schedule\":\"0 30 1 * * ?\"}"))
        .request();
    assert_eq!(request.method, Method::Put);
    assert_eq!(request.path, "/_slm/policy/p");
    assert_eq!(request.body.as_deref(), Some("{\"schedule\":\"0 30 1 * * ?\"}"));
}

#[test]
fn start_and_stop_post_with_optional_body() {
    let es = client();
    let start = es.slm().start().request();
    assert_eq!(start.method, Method::Post);
    assert_eq!(start.path, "/_slm/start");
    assert!(start.body.is_none());

    let stop = es.slm().stop().body(String::from("{}")).request();
    assert_eq!(stop.method, Method::Post);
    assert_eq!(stop.path, "/_slm/stop");
    assert_eq!(stop.body.as_deref(), Some("{}"));
}

#[test]
fn headers_insert_replaces_by_name() {
    let es = client();
    let request = es
        .slm()
        .get_status()
        .header(String::from("x-opaque-id"), String::from("first"))
        .header(String::from("x-trace"), String::from("t-9"))
        .header(String::from("x-opaque-id"), String::from("second"))
        .request();
    let entries = &request.headers.entries;
    assert_eq!(entries.len(), 2);
    assert_eq!(entries[0], (String::from("x-opaque-id"), String::from("second")));
    assert_eq!(entries[1], (String::from("x-trace"), String::from("t-9")));
}

#[test]
fn execute_retention_posts_to_its_fixed_path() {
    let es = client();
    let request = es.slm().execute_retention().request();
    assert_eq!(request.method, Method::Post);
    assert_eq!(request.path, "/_slm/_execute_retention");
}

#[test]
fn get_lifecycle_request_uses_the_joined_path() {
    let es = client();
    let request = es
        .slm()
        .get_lifecycle(SlmGetLifecycleParts::PolicyId(vec![String::from("nightly")]))
        .request();
    assert_eq!(request.method, Method::Get);
    assert_eq!(request.path, "/_slm/policy/nightly");
}
