//! Tests of the span middleware: attribute extraction, header
//! filtering, outcome recording, and layer construction.

use axum_otel_honeycomb::axum_layer::{
    headers, http_host, http_route, make_span, opentelemetry_tracing_layer,
    opentelemetry_tracing_layer_without_parent, set_tracing_header, update_span_from_error,
    update_span_from_response, update_span_from_response_or_error, user_agent, SpanKind,
    SpanStatus,
};
use axum_otel_honeycomb::propagation::SpanContextData;
use axum_otel_honeycomb::request::{filter_headers, header_lookup, ErrorInfo, HeaderPair, RequestInfo, ResponseInfo};
use axum_otel_honeycomb::text::{eq_ignore_ascii_case, str_eq};

fn header(name: &str, value: &str) -> HeaderPair {
    HeaderPair {
        name: name.to_string(),
        value: value.to_string(),
        is_text: true,
    }
}

fn plain_request() -> RequestInfo {
    RequestInfo {
        method: "GET".to_string(),
        path: "/users/42".to_string(),
        query: Some("verbose=1".to_string()),
        uri_host: Some("uri.example".to_string()),
        headers: vec![
            header("host", "svc.example"),
            header("user-agent", "curl/8.0"),
            header("accept", "*/*"),
        ],
        matched_route: Some("/users/{id}".to_string()),
    }
}

#[test]
fn layer_constructors_select_parent_extraction() {
    assert!(opentelemetry_tracing_layer().extract_parent);
    assert!(!opentelemetry_tracing_layer_without_parent().extract_parent);
}

#[test]
fn layer_wraps_inner_service() {
    let layer = opentelemetry_tracing_layer();
    let service = layer.layer(7u32);
    assert!(service.extract_parent);
    assert_eq!(service.inner, 7u32);
}

#[test]
fn route_is_template_not_path() {
    let req = plain_request();
    assert_eq!(http_route(&req), "/users/{id}");
    let mut bare = plain_request();
    bare.matched_route = None;
    assert_eq!(http_route(&bare), "");
}

#[test]
fn host_prefers_header_then_uri() {
    let req = plain_request();
    assert_eq!(http_host(&req), "svc.example");

    let mut no_header = plain_request();
    no_header.headers = vec![header("accept", "*/*")];
    assert_eq!(http_host(&no_header), "uri.example");

    no_header.uri_host = None;
    assert_eq!(http_host(&no_header), "");

    let mut binary_host = plain_request();
    binary_host.headers = vec![HeaderPair {
        name: "Host".to_string(),
        value: String::new(),
        is_text: false,
    }];
    assert_eq!(http_host(&binary_host), "");
}

#[test]
fn user_agent_header_or_empty() {
    let req = plain_request();
    assert_eq!(user_agent(&req), "curl/8.0");
    let mut bare = plain_request();
    bare.headers = vec![];
    assert_eq!(user_agent(&bare), "");
}

#[test]
fn headers_attribute_excludes_credentials_in_any_casing() {
    let mut req = plain_request();
    req.headers = vec![
        header("Authorization", "Bearer s3cr3t"),
        header("accept", "*/*"),
        header("AUTHORIZATION", "token"),
        header("IdToken", "jwt"),
        header("idtoken", "jwt2"),
        header("x-request-id", "abc"),
    ];
    let rendered = headers(&req);
    assert_eq!(rendered, "{accept: '*/*', x-request-id: 'abc'}");
    assert!(!rendered.to_lowercase().contains("authorization"));
    assert!(!rendered.to_lowercase().contains("idtoken"));
    assert!(!rendered.contains("s3cr3t"));
    assert!(!rendered.contains("jwt"));
}

#[test]
fn headers_attribute_empty_list() {
    let mut req = plain_request();
    req.headers = vec![];
    assert_eq!(headers(&req), "{}");
}

#[test]
fn make_span_fills_schema() {
    let req = plain_request();
    let span = make_span(&req, false);
    assert_eq!(span.otel_name, "GET /users/{id}");
    assert_eq!(span.kind, SpanKind::Server);
    assert_eq!(span.method, "GET");
    assert_eq!(span.route, "/users/{id}");
    assert_eq!(span.server_address, "svc.example");
    assert_eq!(span.client_address, None);
    assert_eq!(span.user_agent, "curl/8.0");
    assert_eq!(span.url_path, "/users/42");
    assert_eq!(span.url_query.as_deref(), Some("verbose=1"));
    assert_eq!(span.status_code, None);
    assert_eq!(span.status, SpanStatus::Unset);
    assert_eq!(span.trace_id, None);
    assert_eq!(span.request_id, None);
    assert_eq!(span.exception_message, None);
    assert_eq!(span.user_id, "-");
    assert!(!span.outcome_recorded);
}

#[test]
fn make_span_extracts_parent_when_asked() {
    let mut req = plain_request();
    req.headers.push(header(
        "traceparent",
        "00-4bf92f3577b34da6a3ce929d0e0e4736-00f067aa0ba902b7-01",
    ));
    let with_parent = make_span(&req, true);
    assert_eq!(
        with_parent.parent,
        Some(SpanContextData {
            trace_id: 0x4bf92f3577b34da6a3ce929d0e0e4736,
            span_id: 0x00f067aa0ba902b7,
            sampled: true,
        })
    );
    let without_parent = make_span(&req, false);
    assert_eq!(without_parent.parent, None);
}

#[test]
fn make_span_without_valid_context_has_no_parent() {
    let mut req = plain_request();
    req.headers.push(header("traceparent", "not-a-context"));
    let span = make_span(&req, true);
    assert_eq!(span.parent, None);
}

#[test]
fn server_error_status_marks_span_error() {
    let req = plain_request();
    let mut span = make_span(&req, false);
    update_span_from_response(
        &mut span,
        &ResponseInfo {
            status: 503,
            headers: vec![],
        },
    );
    assert_eq!(span.status_code, Some(503));
    assert_eq!(span.status, SpanStatus::Error);
}

#[test]
fn success_status_leaves_span_status_unset() {
    let req = plain_request();
    let mut span = make_span(&req, false);
    update_span_from_response(
        &mut span,
        &ResponseInfo {
            status: 200,
            headers: vec![],
        },
    );
    assert_eq!(span.status_code, Some(200));
    assert_eq!(span.status, SpanStatus::Unset);
}

#[test]
fn error_with_cause_records_cause_message() {
    let req = plain_request();
    let mut span = make_span(&req, false);
    update_span_from_error(
        &mut span,
        &ErrorInfo {
            message: "handler failed".to_string(),
            source_message: Some("connection reset".to_string()),
        },
    );
    assert_eq!(span.status, SpanStatus::Error);
    assert_eq!(span.exception_message.as_deref(), Some("connection reset"));
}

#[test]
fn error_without_cause_records_own_message() {
    let req = plain_request();
    let mut span = make_span(&req, false);
    update_span_from_error(
        &mut span,
        &ErrorInfo {
            message: "handler failed".to_string(),
            source_message: None,
        },
    );
    assert_eq!(span.exception_message.as_deref(), Some("handler failed"));
}

#[test]
fn outcome_recorded_exactly_once() {
    let req = plain_request();
    let mut span = make_span(&req, false);
    assert!(!span.outcome_recorded);
    update_span_from_response_or_error(
        &mut span,
        &Ok(ResponseInfo {
            status: 204,
            headers: vec![],
        }),
    );
    assert!(span.outcome_recorded);
    assert_eq!(span.status_code, Some(204));
    assert_eq!(span.status, SpanStatus::Unset);

    let mut failed = make_span(&req, false);
    update_span_from_response_or_error(
        &mut failed,
        &Err(ErrorInfo {
            message: "boom".to_string(),
            source_message: None,
        }),
    );
    assert!(failed.outcome_recorded);
    assert_eq!(failed.status, SpanStatus::Error);
    assert_eq!(failed.exception_message.as_deref(), Some("boom"));
    assert_eq!(failed.status_code, None);
}

#[test]
fn tracing_header_is_injected_and_replaced() {
    let ctx = SpanContextData {
        trace_id: 0xa,
        span_id: 0xb,
        sampled: false,
    };
    let mut hs = vec![header("content-type", "text/plain")];
    set_tracing_header(&ctx, &mut hs);
    assert_eq!(hs.len(), 2);
    assert_eq!(hs[1].name, "traceparent");
    assert_eq!(
        hs[1].value,
        "00-0000000000000000000000000000000a-000000000000000b-00"
    );

    let ctx2 = SpanContextData {
        trace_id: 0xa,
        span_id: 0xc,
        sampled: true,
    };
    set_tracing_header(&ctx2, &mut hs);
    assert_eq!(hs.len(), 2);
    assert_eq!(
        hs[1].value,
        "00-0000000000000000000000000000000a-000000000000000c-01"
    );
}

#[test]
fn invalid_context_is_not_injected() {
    let ctx = SpanContextData {
        trace_id: 0,
        span_id: 5,
        sampled: true,
    };
    let mut hs = vec![header("accept", "*/*")];
    set_tracing_header(&ctx, &mut hs);
    assert_eq!(hs.len(), 1);
    assert_eq!(hs[0].name, "accept");
}

#[test]
fn begin_request_uses_the_layer_choice() {
    let req = plain_request();
    let service = opentelemetry_tracing_layer_without_parent().layer(());
    let span = service.begin_request(&req);
    assert_eq!(span.otel_name, "GET /users/{id}");
    assert_eq!(span.parent, None);
    assert!(!span.outcome_recorded);
}

#[test]
fn header_lookup_is_case_insensitive_and_ordered() {
    let hs = vec![
        header("X-First", "1"),
        header("x-first", "2"),
        header("Other", "3"),
    ];
    let found = header_lookup(&hs, "X-FIRST").unwrap();
    assert_eq!(found.value, "1");
    assert!(header_lookup(&hs, "absent").is_none());
}

#[test]
fn filter_headers_keeps_order_and_casing() {
    let hs = vec![
        header("B", "2"),
        header("AuthOrization", "x"),
        header("A", "1"),
    ];
    let kept = filter_headers(&hs);
    assert_eq!(kept.len(), 2);
    assert_eq!(kept[0].name, "B");
    assert_eq!(kept[1].name, "A");
}

#[test]
fn text_comparisons() {
    assert!(eq_ignore_ascii_case("TraceParent", "traceparent"));
    assert!(!eq_ignore_ascii_case("traceparent", "traceparents"));
    assert!(str_eq("abc", "abc"));
    assert!(!str_eq("abc", "aBc"));
}
