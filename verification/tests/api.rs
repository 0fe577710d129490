use dot_jaeger::api::{endpoint, Endpoint, JaegerApi, ParamBuilder, QueryConfig};

fn pairs_of(b: &ParamBuilder) -> Vec<(String, String)> {
    b.query_pairs()
}

#[test]
fn minimal_query_has_exactly_service_and_pretty_print() {
    let pairs = pairs_of(&ParamBuilder::new("my-service"));
    assert_eq!(
        pairs,
        vec![
            ("service".to_string(), "my-service".to_string()),
            ("pretty_print".to_string(), "false".to_string()),
        ]
    );
}

#[test]
fn start_appears_exactly_once() {
    let pairs = pairs_of(
        &ParamBuilder::new("svc")
            .start(Some(100))
            .end(Some(200))
            .limit(Some(10))
            .pretty_print(true),
    );
    let starts: Vec<_> = pairs.iter().filter(|p| p.0 == "start").collect();
    assert_eq!(starts.len(), 1);
    assert_eq!(starts[0].1, "100");
}

#[test]
fn start_keeps_full_precision() {
    let pairs = pairs_of(&ParamBuilder::new("svc").start(Some(usize::MAX)));
    let start = pairs.iter().find(|p| p.0 == "start").unwrap();
    assert_eq!(start.1, usize::MAX.to_string());
    assert_eq!(start.1, "18446744073709551615");
}

#[test]
fn repeated_set_keeps_last_value() {
    let pairs = pairs_of(
        &ParamBuilder::new("svc")
            .start(Some(1))
            .start(Some(2))
            .end(Some(3))
            .end(None)
            .limit(None)
            .limit(Some(4))
            .pretty_print(true)
            .pretty_print(false),
    );
    assert_eq!(
        pairs,
        vec![
            ("service".to_string(), "svc".to_string()),
            ("pretty_print".to_string(), "false".to_string()),
            ("start".to_string(), "2".to_string()),
            ("limit".to_string(), "4".to_string()),
        ]
    );
}

#[test]
fn pretty_print_always_present_and_lowercase() {
    for (flag, expect) in [(true, "true"), (false, "false")] {
        let pairs = pairs_of(&ParamBuilder::new("svc").start(Some(5)).pretty_print(flag));
        let pp: Vec<_> = pairs.iter().filter(|p| p.0 == "pretty_print").collect();
        assert_eq!(pp.len(), 1);
        assert_eq!(pp[0].1, expect);
    }
}

#[test]
fn traces_endpoint_url() {
    let url = endpoint("http://localhost:16686", Endpoint::Traces);
    assert_eq!(url, "http://localhost:16686/api/traces");
}

#[test]
fn endpoint_path_fragment() {
    assert_eq!(Endpoint::Traces.path(), "/api/traces");
}

#[test]
fn traces_request_carries_url_and_parameters() {
    let api = JaegerApi::new("http://localhost:16686", "my-service");
    let config = QueryConfig { limit: Some(20), pretty_print: true, start: None, end: None };
    let req = api.traces_request(&config);
    assert_eq!(req.method(), "GET");
    let url = req.request_url().unwrap();
    assert_eq!(url.scheme(), "http");
    assert_eq!(url.host(), "localhost");
    assert_eq!(url.port(), Some(16686));
    assert_eq!(url.path(), "/api/traces");
    assert_eq!(
        url.query_pairs(),
        vec![("service", "my-service"), ("pretty_print", "true"), ("limit", "20")]
    );
}

#[test]
fn build_appends_pairs_to_request() {
    let req = ureq::get("http://localhost:16686/api/traces");
    let req = ParamBuilder::new("svc").start(Some(100)).build(req);
    let url = req.request_url().unwrap();
    assert_eq!(url.path(), "/api/traces");
    assert_eq!(
        url.query_pairs(),
        vec![("service", "svc"), ("pretty_print", "false"), ("start", "100")]
    );
}

#[test]
fn build_keeps_existing_query_pairs() {
    let req = ureq::get("http://localhost:16686/api/traces").query("raw", "1");
    let req = ParamBuilder::new("svc").build(req);
    let url = req.request_url().unwrap();
    assert_eq!(
        url.query_pairs(),
        vec![("raw", "1"), ("service", "svc"), ("pretty_print", "false")]
    );
}

#[test]
fn unparseable_base_url_builds_but_does_not_target() {
    let api = JaegerApi::new("not a url", "svc");
    let config = QueryConfig { limit: None, pretty_print: false, start: None, end: None };
    let req = api.traces_request(&config);
    assert!(req.request_url().is_err());
}
