//! Tests of the event-to-log-record bridge: span snapshots, severity
//! mapping, field handling, and span-chain attributes.

use axum_otel_honeycomb::event_logger::{
    build_log_record, field_value_text, level_str, render_location, render_span_extension,
    severity_number, severity_of_level, AttrValue, EventField, EventMeta, ExtensionValues,
    FieldValue, LogLevel, Severity, SpanChainEntry, SpanMeta,
};

fn field(name: &str, value: FieldValue) -> EventField {
    EventField {
        name: name.to_string(),
        value,
    }
}

#[test]
fn severity_table_is_fixed() {
    assert_eq!(severity_of_level(&LogLevel::Trace), Severity::Trace);
    assert_eq!(severity_of_level(&LogLevel::Debug), Severity::Debug);
    assert_eq!(severity_of_level(&LogLevel::Info), Severity::Info);
    assert_eq!(severity_of_level(&LogLevel::Warn), Severity::Warn);
    assert_eq!(severity_of_level(&LogLevel::Error), Severity::Error);
}

#[test]
fn severity_numbers_are_standard_and_monotonic() {
    let numbers: Vec<u8> = [
        Severity::Trace,
        Severity::Debug,
        Severity::Info,
        Severity::Warn,
        Severity::Error,
    ]
    .iter()
    .map(severity_number)
    .collect();
    assert_eq!(numbers, vec![1, 5, 9, 13, 17]);
    assert!(numbers.windows(2).all(|w| w[0] < w[1]));
}

#[test]
fn level_text_matches_upper_case_names() {
    assert_eq!(level_str(&LogLevel::Trace), "TRACE");
    assert_eq!(level_str(&LogLevel::Debug), "DEBUG");
    assert_eq!(level_str(&LogLevel::Info), "INFO");
    assert_eq!(level_str(&LogLevel::Warn), "WARN");
    assert_eq!(level_str(&LogLevel::Error), "ERROR");
}

#[test]
fn location_renders_with_defaults() {
    assert_eq!(
        render_location(&Some("src/main.rs".to_string()), &Some(42)),
        "src/main.rs:42"
    );
    assert_eq!(render_location(&None, &None), "UNKNOWN:0");
    assert_eq!(render_location(&Some("lib.rs".to_string()), &None), "lib.rs:0");
}

#[test]
fn field_values_render_naturally() {
    assert_eq!(
        field_value_text(&FieldValue::Text("plain".to_string())),
        "plain"
    );
    assert_eq!(field_value_text(&FieldValue::Flag(true)), "true");
    assert_eq!(field_value_text(&FieldValue::Flag(false)), "false");
    assert_eq!(field_value_text(&FieldValue::Integer(-7)), "-7");
    assert_eq!(
        field_value_text(&FieldValue::Double {
            bits: 3.25f64.to_bits(),
            rendering: "3.25".to_string(),
        }),
        "3.25"
    );
    assert_eq!(
        field_value_text(&FieldValue::Rendered("\"quoted\"".to_string())),
        "\"quoted\""
    );
}

#[test]
fn span_extension_snapshot_exact() {
    let meta = SpanMeta {
        name: "HTTP request".to_string(),
        module: Some("app::web".to_string()),
        file: Some("src/web.rs".to_string()),
        line: Some(17),
    };
    let fields = vec![
        field("user", FieldValue::Text("bob".to_string())),
        field("count", FieldValue::Integer(5)),
        field("ready", FieldValue::Flag(true)),
    ];
    let ext = render_span_extension(&meta, &fields);
    assert_eq!(ext.location, "src/web.rs:17");
    assert_eq!(
        ext.span_str,
        "Name: 'HTTP request', { module: 'app::web', location: 'src/web.rs:17', \
         user: 'bob', count: '5', ready: 'true' }"
    );
}

#[test]
fn span_extension_without_metadata() {
    let meta = SpanMeta {
        name: "task".to_string(),
        module: None,
        file: None,
        line: None,
    };
    let ext = render_span_extension(&meta, &vec![]);
    assert_eq!(ext.location, "UNKNOWN:0");
    assert_eq!(
        ext.span_str,
        "Name: 'task', { module: '', location: 'UNKNOWN:0' }"
    );
}

fn event_meta() -> EventMeta {
    EventMeta {
        target: "app::web".to_string(),
        name: "event src/web.rs:30".to_string(),
        level: LogLevel::Info,
        file: Some("src/web.rs".to_string()),
        line: Some(30),
    }
}

#[test]
fn nested_spans_contribute_ordered_attributes() {
    // An event with {message: "x", count: 5} inside span A nested in span B.
    let fields = vec![
        field("message", FieldValue::Rendered("x".to_string())),
        field("count", FieldValue::Integer(5)),
    ];
    let outer = SpanChainEntry {
        name: "B".to_string(),
        extension: Some(ExtensionValues {
            span_str: "Name: 'B', { module: 'app', location: 'b.rs:1' }".to_string(),
            location: "b.rs:1".to_string(),
        }),
    };
    let inner = SpanChainEntry {
        name: "A".to_string(),
        extension: Some(ExtensionValues {
            span_str: "Name: 'A', { module: 'app', location: 'a.rs:2' }".to_string(),
            location: "a.rs:2".to_string(),
        }),
    };
    let record = build_log_record(&event_meta(), &fields, &vec![outer, inner]);

    assert_eq!(record.target, "app::web");
    assert_eq!(record.severity, Severity::Info);
    assert_eq!(record.severity_text, "INFO");
    assert_eq!(record.body, Some(AttrValue::Text("x".to_string())));

    let keys: Vec<&str> = record.attributes.iter().map(|a| a.key.as_str()).collect();
    assert_eq!(
        keys,
        vec![
            "location",
            "count",
            "span.0",
            "span.0.location",
            "span.0.name",
            "span.1",
            "span.1.location",
            "span.1.name",
        ]
    );
    assert_eq!(record.attributes[0].value, AttrValue::Text("src/web.rs:30".to_string()));
    assert_eq!(record.attributes[1].value, AttrValue::Integer(5));
    assert_eq!(
        record.attributes[2].value,
        AttrValue::Text("Name: 'B', { module: 'app', location: 'b.rs:1' }".to_string())
    );
    assert_eq!(record.attributes[3].value, AttrValue::Text("b.rs:1".to_string()));
    assert_eq!(record.attributes[4].value, AttrValue::Text("B".to_string()));
    assert_eq!(
        record.attributes[5].value,
        AttrValue::Text("Name: 'A', { module: 'app', location: 'a.rs:2' }".to_string())
    );
    assert_eq!(record.attributes[6].value, AttrValue::Text("a.rs:2".to_string()));
    assert_eq!(record.attributes[7].value, AttrValue::Text("A".to_string()));
}

#[test]
fn span_without_snapshot_contributes_name_only() {
    let entry = SpanChainEntry {
        name: "outside".to_string(),
        extension: None,
    };
    let record = build_log_record(&event_meta(), &vec![], &vec![entry]);
    let keys: Vec<&str> = record.attributes.iter().map(|a| a.key.as_str()).collect();
    assert_eq!(keys, vec!["location", "span.0.name"]);
    assert_eq!(record.attributes[1].value, AttrValue::Text("outside".to_string()));
}

#[test]
fn no_active_span_adds_no_span_attributes() {
    let record = build_log_record(&event_meta(), &vec![], &vec![]);
    assert_eq!(record.attributes.len(), 1);
    assert_eq!(record.attributes[0].key, "location");
    assert_eq!(record.body, None);
}

#[test]
fn body_field_overrides_message() {
    let fields = vec![
        field("message", FieldValue::Rendered("from message".to_string())),
        field("body", FieldValue::Text("from body".to_string())),
    ];
    let record = build_log_record(&event_meta(), &fields, &vec![]);
    assert_eq!(record.body, Some(AttrValue::Text("from body".to_string())));
    // The body-named field still appears as an attribute.
    let keys: Vec<&str> = record.attributes.iter().map(|a| a.key.as_str()).collect();
    assert_eq!(keys, vec!["location", "body"]);
}

#[test]
fn typed_fields_keep_their_native_values() {
    let bits = 2.5f64.to_bits();
    let fields = vec![
        field("note", FieldValue::Text("hi".to_string())),
        field("ok", FieldValue::Flag(false)),
        field("n", FieldValue::Integer(-3)),
        field("ratio", FieldValue::Double {
            bits,
            rendering: "2.5".to_string(),
        }),
        field("other", FieldValue::Rendered("Custom(1)".to_string())),
    ];
    let record = build_log_record(&event_meta(), &fields, &vec![]);
    assert_eq!(record.body, None);
    assert_eq!(record.attributes[1].value, AttrValue::Text("hi".to_string()));
    assert_eq!(record.attributes[2].value, AttrValue::Flag(false));
    assert_eq!(record.attributes[3].value, AttrValue::Integer(-3));
    assert_eq!(record.attributes[4].value, AttrValue::Double(bits));
    assert_eq!(f64::from_bits(bits), 2.5);
    assert_eq!(
        record.attributes[5].value,
        AttrValue::Text("Custom(1)".to_string())
    );
}

#[test]
fn string_message_field_stays_an_attribute() {
    // Only the debug-rendered message becomes the body; a string field
    // that happens to be called `message` is an ordinary attribute.
    let fields = vec![field("message", FieldValue::Text("not body".to_string()))];
    let record = build_log_record(&event_meta(), &fields, &vec![]);
    assert_eq!(record.body, None);
    assert_eq!(record.attributes[1].key, "message");
    assert_eq!(
        record.attributes[1].value,
        AttrValue::Text("not body".to_string())
    );
}
