use trace_json_fmt::format::{Event, FieldValue, FormatError, JsonWithTraceId, Level, render_record};
use trace_json_fmt::sink::{QuotaSink, StringSink, WriteAdaptor};
use trace_json_fmt::trace::{SpanContext, TraceContextExtension};

fn event(level: Level, target: &str, fields: Vec<(&str, FieldValue)>) -> Event {
    Event {
        level,
        target: String::from(target),
        fields: fields.into_iter().map(|(k, v)| (String::from(k), v)).collect(),
    }
}

fn format_to_string(ev: &Event, span: Option<&SpanContext>) -> String {
    let mut adaptor = WriteAdaptor::new(StringSink::new());
    let r = JsonWithTraceId.format_event(&mut adaptor, ev, span);
    assert!(r.is_ok());
    adaptor.into_inner().buf
}

#[test]
fn scenario_error_no_span() {
    let ev = event(
        Level::Error,
        "svc::auth",
        vec![("user", FieldValue::Str(String::from("alice")))],
    );
    let out = format_to_string(&ev, None);
    assert_eq!(
        out,
        "{\"level\":\"ERROR\",\"fields\":{\"user\":\"alice\"},\"target\":\"svc::auth\"}\n"
    );
}

#[test]
fn mixed_field_types_keep_their_json_types() {
    let ev = event(
        Level::Info,
        "t",
        vec![
            ("count", FieldValue::UInt(3)),
            ("name", FieldValue::Str(String::from("x"))),
        ],
    );
    let out = format_to_string(&ev, None);
    assert!(out.contains("\"count\":3"));
    assert!(out.contains("\"name\":\"x\""));
    let parsed: serde_json::Value = serde_json::from_str(out.trim_end()).unwrap();
    assert_eq!(parsed["fields"]["count"].as_u64(), Some(3));
    assert_eq!(parsed["fields"]["name"].as_str(), Some("x"));
}

#[test]
fn all_value_kinds_render() {
    let ev = event(
        Level::Debug,
        "kinds",
        vec![
            ("i", FieldValue::Int(-42)),
            ("u", FieldValue::UInt(42)),
            ("b", FieldValue::Bool(true)),
            ("nb", FieldValue::Bool(false)),
            ("d", FieldValue::Debug(String::from("Thing { x: 1 }"))),
        ],
    );
    let out = format_to_string(&ev, None);
    let parsed: serde_json::Value = serde_json::from_str(out.trim_end()).unwrap();
    assert_eq!(parsed["fields"]["i"].as_i64(), Some(-42));
    assert_eq!(parsed["fields"]["u"].as_u64(), Some(42));
    assert_eq!(parsed["fields"]["b"].as_bool(), Some(true));
    assert_eq!(parsed["fields"]["nb"].as_bool(), Some(false));
    assert_eq!(parsed["fields"]["d"].as_str(), Some("Thing { x: 1 }"));
}

#[test]
fn level_names_are_canonical() {
    let cases = vec![
        (Level::Trace, "TRACE"),
        (Level::Debug, "DEBUG"),
        (Level::Info, "INFO"),
        (Level::Warn, "WARN"),
        (Level::Error, "ERROR"),
    ];
    for (level, name) in cases {
        let ev = event(level, "t", vec![]);
        let out = format_to_string(&ev, None);
        let parsed: serde_json::Value = serde_json::from_str(out.trim_end()).unwrap();
        assert_eq!(parsed["level"].as_str(), Some(name));
    }
}

#[test]
fn empty_fields_render_as_empty_object() {
    let ev = event(Level::Info, "t", vec![]);
    let out = format_to_string(&ev, None);
    assert_eq!(out, "{\"level\":\"INFO\",\"fields\":{},\"target\":\"t\"}\n");
}

#[test]
fn span_without_extension_omits_correlation_keys() {
    let ev = event(Level::Info, "t", vec![]);
    let span = SpanContext { extension: None };
    let out = format_to_string(&ev, Some(&span));
    let parsed: serde_json::Value = serde_json::from_str(out.trim_end()).unwrap();
    assert!(parsed.get("span_id").is_none());
    assert!(parsed.get("trace_id").is_none());
    assert_eq!(out, format_to_string(&ev, None));
}

#[test]
fn extension_with_only_parent_falls_back() {
    let ev = event(Level::Info, "t", vec![]);
    let span = SpanContext {
        extension: Some(TraceContextExtension {
            trace_id: None,
            span_id: None,
            parent_trace_id: 0xabc,
        }),
    };
    let out = format_to_string(&ev, Some(&span));
    let parsed: serde_json::Value = serde_json::from_str(out.trim_end()).unwrap();
    assert_eq!(
        parsed["trace_id"].as_str(),
        Some("00000000000000000000000000000abc")
    );
    assert_eq!(parsed["span_id"].as_str(), Some("0000000000000000"));
}

#[test]
fn explicit_overrides_ignore_parent() {
    let ev = event(Level::Info, "t", vec![]);
    let span = SpanContext {
        extension: Some(TraceContextExtension {
            trace_id: Some(0x1),
            span_id: Some(0x2),
            parent_trace_id: 0xdeadbeef,
        }),
    };
    let out = format_to_string(&ev, Some(&span));
    let parsed: serde_json::Value = serde_json::from_str(out.trim_end()).unwrap();
    assert_eq!(
        parsed["trace_id"].as_str(),
        Some("00000000000000000000000000000001")
    );
    assert_eq!(parsed["span_id"].as_str(), Some("0000000000000002"));
}

#[test]
fn span_id_comes_before_trace_id() {
    let ev = event(Level::Info, "t", vec![]);
    let span = SpanContext {
        extension: Some(TraceContextExtension {
            trace_id: Some(7),
            span_id: Some(8),
            parent_trace_id: 0,
        }),
    };
    let out = format_to_string(&ev, Some(&span));
    let span_pos = out.find("\"span_id\"").unwrap();
    let trace_pos = out.find("\"trace_id\"").unwrap();
    assert!(span_pos < trace_pos);
}

#[test]
fn control_characters_never_split_the_line() {
    let ev = event(
        Level::Warn,
        "t",
        vec![(
            "msg",
            FieldValue::Str(String::from("a\nb\t\u{1}c\"d\\e\r\u{8}\u{c}")),
        )],
    );
    let out = format_to_string(&ev, None);
    assert_eq!(out.matches('\n').count(), 1);
    assert!(out.ends_with('\n'));
    assert!(out.contains("\\n"));
    assert!(out.contains("\\t"));
    assert!(out.contains("\\u0001"));
    let parsed: serde_json::Value = serde_json::from_str(out.trim_end()).unwrap();
    assert_eq!(
        parsed["fields"]["msg"].as_str(),
        Some("a\nb\t\u{1}c\"d\\e\r\u{8}\u{c}")
    );
}

#[test]
fn keys_and_target_are_escaped() {
    let ev = event(
        Level::Info,
        "mod\"ule",
        vec![("we\"ird\nkey", FieldValue::Bool(true))],
    );
    let out = format_to_string(&ev, None);
    assert_eq!(out.matches('\n').count(), 1);
    let parsed: serde_json::Value = serde_json::from_str(out.trim_end()).unwrap();
    assert_eq!(parsed["target"].as_str(), Some("mod\"ule"));
    assert_eq!(parsed["fields"]["we\"ird\nkey"].as_bool(), Some(true));
}

#[test]
fn integer_extremes_render_exactly() {
    let ev = event(
        Level::Info,
        "t",
        vec![
            ("min", FieldValue::Int(i64::MIN)),
            ("max", FieldValue::UInt(u64::MAX)),
            ("zero", FieldValue::Int(0)),
        ],
    );
    let out = format_to_string(&ev, None);
    assert!(out.contains("\"min\":-9223372036854775808"));
    assert!(out.contains("\"max\":18446744073709551615"));
    assert!(out.contains("\"zero\":0"));
}

#[test]
fn render_record_is_the_line_without_newline() {
    let ev = event(Level::Info, "t", vec![("k", FieldValue::Int(1))]);
    let rendered = render_record(&ev, None);
    let out = format_to_string(&ev, None);
    assert_eq!(out, format!("{}\n", rendered));
}

#[test]
fn rejecting_sink_surfaces_format_error() {
    let ev = event(Level::Info, "t", vec![]);
    let sink = QuotaSink { buf: String::new(), remaining: 0 };
    let mut adaptor = WriteAdaptor::new(sink);
    let r = JsonWithTraceId.format_event(&mut adaptor, &ev, None);
    assert_eq!(r, Err(FormatError));
    assert_eq!(adaptor.into_inner().buf, "");
}

#[test]
fn failure_mid_record_leaves_truncated_output() {
    let ev = event(Level::Info, "t", vec![]);
    let sink = QuotaSink { buf: String::new(), remaining: 1 };
    let mut adaptor = WriteAdaptor::new(sink);
    let r = JsonWithTraceId.format_event(&mut adaptor, &ev, None);
    assert_eq!(r, Err(FormatError));
    let buf = adaptor.into_inner().buf;
    assert_eq!(buf, "{\"level\":\"INFO\",\"fields\":{},\"target\":\"t\"}");
    assert!(!buf.ends_with('\n'));
}
