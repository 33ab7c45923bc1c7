use thoth_query::codec::ResponseEnvelope;
use thoth_query::error::{ErrorDetail, ErrorKind, FetchError};
use thoth_query::language_relations::{Variables, LANGUAGE_RELATIONS_QUERY};
use thoth_query::query::{
    build_request, complete, push_decimal, response_body, CredentialsPolicy, TransportConfig,
    TransportOutcome,
};
use thoth_query::registry::{prepare, query_text, QueryId};

fn config() -> TransportConfig {
    TransportConfig {
        endpoint: "https://api.example.org/graphql".to_string(),
        headers: vec![("Accept".to_string(), "application/json".to_string())],
        credentials: CredentialsPolicy::Include,
    }
}

fn network(message: &str) -> FetchError {
    FetchError {
        kind: ErrorKind::Network,
        details: vec![ErrorDetail { message: message.to_string(), location: None }],
    }
}

#[test]
fn build_request_uses_configuration() {
    let req = build_request(&config(), "{ a }", "{}");
    assert_eq!(req.url, "https://api.example.org/graphql");
    assert_eq!(
        req.headers,
        vec![
            ("Accept".to_string(), "application/json".to_string()),
            ("Content-Type".to_string(), "application/json".to_string()),
        ]
    );
    assert_eq!(req.credentials, CredentialsPolicy::Include);
    assert_eq!(req.body, "{\"query\":\"{ a }\",\"variables\":{}}");
}

#[test]
fn prepare_language_relations_request() {
    let vars = Variables::default();
    let req = prepare(&config(), QueryId::LanguageRelations, &vars.to_json());
    assert_eq!(query_text(QueryId::LanguageRelations), LANGUAGE_RELATIONS_QUERY);
    let v: serde_json::Value = serde_json::from_str(&req.body).unwrap();
    assert_eq!(v["query"].as_str().unwrap(), LANGUAGE_RELATIONS_QUERY);
    assert!(v["variables"].as_object().unwrap().is_empty());
}

#[test]
fn response_body_success_status() {
    let outcome = TransportOutcome::Response { status: 200, body: b"{}".to_vec() };
    assert_eq!(response_body(outcome), Ok(b"{}".to_vec()));
    let outcome = TransportOutcome::Response { status: 299, body: vec![1, 2] };
    assert_eq!(response_body(outcome), Ok(vec![1, 2]));
}

#[test]
fn response_body_error_status() {
    let outcome = TransportOutcome::Response { status: 404, body: b"not found".to_vec() };
    assert_eq!(response_body(outcome), Err(network("unexpected HTTP status 404")));
    let outcome = TransportOutcome::Response { status: 302, body: vec![] };
    assert_eq!(response_body(outcome), Err(network("unexpected HTTP status 302")));
    let outcome = TransportOutcome::Response { status: 5, body: vec![] };
    assert_eq!(response_body(outcome), Err(network("unexpected HTTP status 5")));
}

#[test]
fn response_body_transport_failure() {
    let outcome = TransportOutcome::Failed("connection refused".to_string());
    assert_eq!(response_body(outcome), Err(network("connection refused")));
}

#[test]
fn decimal_digits() {
    let mut s = "n=".to_string();
    push_decimal(&mut s, 0);
    assert_eq!(s, "n=0");
    let mut s = String::new();
    push_decimal(&mut s, 18446744073709551615);
    assert_eq!(s, "18446744073709551615");
    let mut s = String::new();
    push_decimal(&mut s, 1020);
    assert_eq!(s, "1020");
}

#[test]
fn complete_does_not_parse_after_network_failure() {
    let outcome = TransportOutcome::Failed("timeout".to_string());
    let r: Result<u32, FetchError> =
        complete(outcome, |_b: &Vec<u8>| -> Result<ResponseEnvelope<u32>, String> {
            panic!("the body of a failed exchange is never parsed")
        });
    assert_eq!(r, Err(network("timeout")));
}

#[test]
fn complete_parses_delivered_body() {
    let outcome = TransportOutcome::Response { status: 200, body: b"7".to_vec() };
    let r: Result<u32, FetchError> = complete(outcome, |b: &Vec<u8>| {
        assert_eq!(b, &b"7".to_vec());
        Ok(ResponseEnvelope { data: Some(7u32), errors: None })
    });
    assert_eq!(r, Ok(7));
}

#[test]
fn complete_reports_parse_failure() {
    let outcome = TransportOutcome::Response { status: 200, body: b"<html>".to_vec() };
    let r: Result<u32, FetchError> = complete(outcome, |_b: &Vec<u8>| Err("expected value".to_string()));
    assert_eq!(
        r,
        Err(FetchError {
            kind: ErrorKind::Decode,
            details: vec![ErrorDetail { message: "expected value".to_string(), location: None }],
        })
    );
}
