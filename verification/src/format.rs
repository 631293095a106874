//! The event formatter: renders one log event as a single JSON line with
//! a fixed field order — `level`, `fields`, `target`, then `span_id` and
//! `trace_id` exactly when the current span carries a trace-context
//! extension (`span_id` before `trace_id`, an order kept for output
//! compatibility).

use vstd::prelude::*;

verus! {

use vstd::string::StringExecFns;
use crate::json::{
    json_quoted, dec_digits, int_digits, append_json_quoted, append_dec_u64, append_dec_i64,
};
use crate::sink::{TextSink, WriteAdaptor};
use crate::trace::{SpanContext, trace_id_chars, span_id_chars, lookup_trace_info};

/// A log event's severity level.
#[derive(Clone, Copy, Debug, PartialEq, Eq)]
pub enum Level {
    Trace,
    Debug,
    Info,
    Warn,
    Error,
}

/// A structured field value: string, number, boolean, or the debug-text
/// fallback for non-primitive values (rendered like a string).
#[derive(Clone, Debug, PartialEq)]
pub enum FieldValue {
    Str(String),
    Int(i64),
    UInt(u64),
    Bool(bool),
    Debug(String),
}

/// One log event: severity, originating component path, and the named
/// field values, emitted in the order given here.
#[derive(Clone, Debug)]
pub struct Event {
    pub level: Level,
    pub target: String,
    pub fields: Vec<(String, FieldValue)>,
}

/// Opaque failure of one formatting transaction. The destination writer
/// may hold a truncated object afterwards and must be treated as
/// corrupted until its state is reset.
#[derive(Clone, Copy, Debug, PartialEq, Eq)]
pub struct FormatError;

/// The canonical (uppercase) name of a severity level.
pub open spec fn level_chars(level: Level) -> Seq<char> {
    match level {
        Level::Trace => "TRACE"@,
        Level::Debug => "DEBUG"@,
        Level::Info => "INFO"@,
        Level::Warn => "WARN"@,
        Level::Error => "ERROR"@,
    }
}

/// The JSON rendering of one field value: its native JSON type is kept —
/// strings and debug text as JSON strings, numbers bare, booleans as
/// `true`/`false`.
pub open spec fn value_chars(v: FieldValue) -> Seq<char> {
    match v {
        FieldValue::Str(s) => json_quoted(s@),
        FieldValue::Int(i) => int_digits(i as int),
        FieldValue::UInt(u) => dec_digits(u as nat),
        FieldValue::Bool(b) => if b {
            "true"@
        } else {
            "false"@
        },
        FieldValue::Debug(s) => json_quoted(s@),
    }
}

/// One `"key":value` member of the nested `fields` object.
pub open spec fn entry_chars(kv: (String, FieldValue)) -> Seq<char> {
    json_quoted(kv.0@) + ":"@ + value_chars(kv.1)
}

/// The members of the `fields` object, comma-separated, in order.
pub open spec fn entries_chars(fs: Seq<(String, FieldValue)>) -> Seq<char>
    decreases fs.len(),
{
    if fs.len() == 0 {
        Seq::empty()
    } else if fs.len() == 1 {
        entry_chars(fs[0])
    } else {
        entries_chars(fs.drop_last()) + ","@ + entry_chars(fs.last())
    }
}

/// The nested `fields` object.
pub open spec fn fields_chars(fs: Seq<(String, FieldValue)>) -> Seq<char> {
    "{"@ + entries_chars(fs) + "}"@
}

/// The correlation suffix of a record: empty without a current span or
/// without a trace-context extension on it; else `span_id` then
/// `trace_id`, in that exact order, as quoted hexadecimal strings.
pub open spec fn trace_suffix(span: Option<SpanContext>) -> Seq<char> {
    match span {
        None => Seq::empty(),
        Some(sc) => match sc.extension {
            None => Seq::empty(),
            Some(ext) => ",\"span_id\":\""@ + span_id_chars(ext) + "\",\"trace_id\":\""@
                + trace_id_chars(ext) + "\""@,
        },
    }
}

/// The complete JSON object for one event, without the trailing newline:
/// `level`, `fields` and `target` in fixed order, then the correlation
/// suffix.
pub open spec fn record_chars(ev: Event, span: Option<SpanContext>) -> Seq<char> {
    "{\"level\":\""@ + level_chars(ev.level) + "\",\"fields\":"@ + fields_chars(ev.fields@)
        + ",\"target\":"@ + json_quoted(ev.target@) + trace_suffix(span) + "}"@
}

/// The span the formatter was handed, as a value.
pub open spec fn deref_span(span: Option<&SpanContext>) -> Option<SpanContext> {
    match span {
        Some(s) => Some(*s),
        None => None,
    }
}

/// The canonical name of a severity level.
pub fn level_name(level: &Level) -> (r: &'static str)
    ensures
        r@ == level_chars(*level),
{
    match level {
        Level::Trace => "TRACE",
        Level::Debug => "DEBUG",
        Level::Info => "INFO",
        Level::Warn => "WARN",
        Level::Error => "ERROR",
    }
}

/// Appends the JSON rendering of one field value.
fn append_value(out: &mut String, v: &FieldValue)
    ensures
        final(out)@ == old(out)@ + value_chars(*v),
{
    match v {
        FieldValue::Str(s) => append_json_quoted(out, s.as_str()),
        FieldValue::Int(i) => append_dec_i64(out, *i),
        FieldValue::UInt(u) => append_dec_u64(out, *u),
        FieldValue::Bool(b) => {
            if *b {
                out.append("true");
            } else {
                out.append("false");
            }
        },
        FieldValue::Debug(s) => append_json_quoted(out, s.as_str()),
    }
}

/// Appends one `"key":value` member.
fn append_entry(out: &mut String, kv: &(String, FieldValue))
    ensures
        final(out)@ == old(out)@ + entry_chars(*kv),
{
    append_json_quoted(out, kv.0.as_str());
    out.append(":");
    append_value(out, &kv.1);
    proof {
        assert(final(out)@ =~= old(out)@ + entry_chars(*kv));
    }
}

/// Appends the nested `fields` object, members in the given order.
fn append_fields(out: &mut String, fields: &Vec<(String, FieldValue)>)
    ensures
        final(out)@ == old(out)@ + fields_chars(fields@),
{
    let ghost start = out@;
    out.append("{");
    let n = fields.len();
    let mut i: usize = 0;
    while i < n
        invariant
            i <= n,
            n == fields@.len(),
            out@ == start + "{"@ + entries_chars(fields@.take(i as int)),
        decreases n - i,
    {
        if i > 0 {
            out.append(",");
        }
        append_entry(out, &fields[i]);
        proof {
            let fs = fields@;
            assert(fs.take(i + 1).drop_last() =~= fs.take(i as int));
            assert(fs.take(i + 1).last() == fs[i as int]);
            assert(out@ =~= start + "{"@ + entries_chars(fs.take(i + 1)));
        }
        i = i + 1;
    }
    out.append("}");
    proof {
        assert(fields@.take(n as int) =~= fields@);
        assert(final(out)@ =~= old(out)@ + fields_chars(fields@));
    }
}

/// Renders the complete JSON object for one event against the currently
/// active span, without the trailing newline. Rendering is total: every
/// event has exactly one record text.
pub fn render_record(event: &Event, current_span: Option<&SpanContext>) -> (r: String)
    ensures
        r@ == record_chars(*event, deref_span(current_span)),
{
    let mut out = String::new();
    out.append("{\"level\":\"");
    out.append(level_name(&event.level));
    out.append("\",\"fields\":");
    append_fields(&mut out, &event.fields);
    out.append(",\"target\":");
    append_json_quoted(&mut out, event.target.as_str());
    match current_span {
        None => {},
        Some(span) => {
            match lookup_trace_info(span) {
                None => {},
                Some(ti) => {
                    out.append(",\"span_id\":\"");
                    out.append(ti.span_id.as_str());
                    out.append("\",\"trace_id\":\"");
                    out.append(ti.trace_id.as_str());
                    out.append("\"");
                },
            }
        },
    }
    out.append("}");
    proof {
        assert(out@ =~= record_chars(*event, deref_span(current_span)));
    }
    out
}

/// The JSON-with-trace-id event formatter. Stateless: each call is one
/// independent transaction over one event and one output writer.
pub struct JsonWithTraceId;

impl JsonWithTraceId {
    /// Formats one event as one JSON line: the record object followed by
    /// exactly one newline, all forwarded through the byte adaptor to the
    /// wrapped sink. On failure a single opaque error is surfaced and the
    /// sink may hold a truncated record.
    pub fn format_event<W: TextSink>(
        &self,
        out: &mut WriteAdaptor<W>,
        event: &Event,
        current_span: Option<&SpanContext>,
    ) -> (r: Result<(), FormatError>)
        ensures
            r is Ok ==> final(out).sink_text() == old(out).sink_text() + record_chars(
                *event,
                deref_span(current_span),
            ) + "\n"@,
    {
        let line = render_record(event, current_span);
        let bytes = line.as_str().as_bytes();
        proof {
            vstd::utf8::encode_utf8_valid_utf8(line@);
            vstd::utf8::encode_utf8_decode_utf8(line@);
        }
        match out.write(bytes) {
            Err(_) => {
                return Err(FormatError);
            },
            Ok(_) => {},
        }
        let newline = "\n";
        let nl_bytes = newline.as_bytes();
        proof {
            vstd::utf8::encode_utf8_valid_utf8(newline@);
            vstd::utf8::encode_utf8_decode_utf8(newline@);
        }
        match out.write(nl_bytes) {
            Err(_) => Err(FormatError),
            Ok(_) => Ok(()),
        }
    }
}

} // verus!
