//! The formatter's laws, stated and proved once and for all inputs:
//! which spans contribute correlation fields, how missing identifiers
//! fall back, and that every record stays on a single line.

use vstd::prelude::*;

verus! {

use crate::json::{
    printable, hex_pad, json_quoted, lemma_json_quoted_printable, lemma_dec_digits_printable,
    lemma_int_digits_printable, lemma_hex_pad_printable, lemma_printable_concat,
};
use crate::trace::{
    SpanContext, TraceContextExtension, trace_id_chars, span_id_chars, SPAN_ID_INVALID,
    TRACE_ID_HEX_WIDTH, SPAN_ID_HEX_WIDTH,
};
use crate::format::{
    Event, Level, FieldValue, level_chars, value_chars, entry_chars, entries_chars, fields_chars,
    trace_suffix, record_chars,
};

/// A current span without a trace-context extension contributes nothing:
/// the record is the same as with no current span at all, so it carries
/// neither a `span_id` nor a `trace_id` key.
pub proof fn lemma_no_extension_no_correlation(ev: Event, span: SpanContext)
    requires
        span.extension is None,
    ensures
        trace_suffix(Some(span)) == Seq::<char>::empty(),
        record_chars(ev, Some(span)) == record_chars(ev, None),
{
}

/// An extension carrying no explicit overrides resolves to the parent
/// context's trace id, and to the all-zero sentinel span id.
pub proof fn lemma_parent_fallback(ext: TraceContextExtension)
    requires
        ext.trace_id is None,
        ext.span_id is None,
    ensures
        trace_id_chars(ext) == hex_pad(ext.parent_trace_id as nat, TRACE_ID_HEX_WIDTH as nat),
        span_id_chars(ext) == hex_pad(SPAN_ID_INVALID as nat, SPAN_ID_HEX_WIDTH as nat),
{
}

/// Explicit overrides win and the parent context is ignored: two
/// extensions with the same overrides resolve to the same identifiers,
/// whatever their parent contexts carry.
pub proof fn lemma_overrides_ignore_parent(a: TraceContextExtension, b: TraceContextExtension)
    requires
        a.trace_id is Some,
        a.span_id is Some,
        a.trace_id == b.trace_id,
        a.span_id == b.span_id,
    ensures
        trace_id_chars(a) == hex_pad(a.trace_id->0 as nat, TRACE_ID_HEX_WIDTH as nat),
        span_id_chars(a) == hex_pad(a.span_id->0 as nat, SPAN_ID_HEX_WIDTH as nat),
        trace_id_chars(b) == trace_id_chars(a),
        span_id_chars(b) == span_id_chars(a),
{
}

proof fn lemma_level_printable(level: Level)
    ensures
        printable(level_chars(level)),
{
    reveal_strlit("TRACE");
    reveal_strlit("DEBUG");
    reveal_strlit("INFO");
    reveal_strlit("WARN");
    reveal_strlit("ERROR");
}

proof fn lemma_value_printable(v: FieldValue)
    ensures
        printable(value_chars(v)),
{
    match v {
        FieldValue::Str(s) => lemma_json_quoted_printable(s@),
        FieldValue::Int(i) => lemma_int_digits_printable(i as int),
        FieldValue::UInt(u) => lemma_dec_digits_printable(u as nat),
        FieldValue::Bool(_) => {
            reveal_strlit("true");
            reveal_strlit("false");
        },
        FieldValue::Debug(s) => lemma_json_quoted_printable(s@),
    }
}

proof fn lemma_entry_printable(kv: (String, FieldValue))
    ensures
        printable(entry_chars(kv)),
{
    reveal_strlit(":");
    lemma_json_quoted_printable(kv.0@);
    lemma_printable_concat(json_quoted(kv.0@), ":"@);
    lemma_value_printable(kv.1);
    lemma_printable_concat(json_quoted(kv.0@) + ":"@, value_chars(kv.1));
}

proof fn lemma_entries_printable(fs: Seq<(String, FieldValue)>)
    ensures
        printable(entries_chars(fs)),
    decreases fs.len(),
{
    reveal_strlit(",");
    if fs.len() == 0 {
    } else if fs.len() == 1 {
        lemma_entry_printable(fs[0]);
    } else {
        lemma_entries_printable(fs.drop_last());
        lemma_entry_printable(fs.last());
        lemma_printable_concat(entries_chars(fs.drop_last()), ","@);
        lemma_printable_concat(entries_chars(fs.drop_last()) + ","@, entry_chars(fs.last()));
    }
}

proof fn lemma_fields_printable(fs: Seq<(String, FieldValue)>)
    ensures
        printable(fields_chars(fs)),
{
    reveal_strlit("{");
    reveal_strlit("}");
    lemma_entries_printable(fs);
    lemma_printable_concat("{"@, entries_chars(fs));
    lemma_printable_concat("{"@ + entries_chars(fs), "}"@);
}

proof fn lemma_trace_suffix_printable(span: Option<SpanContext>)
    ensures
        printable(trace_suffix(span)),
{
    match span {
        None => {},
        Some(sc) => match sc.extension {
            None => {},
            Some(ext) => {
                reveal_strlit(",\"span_id\":\"");
                reveal_strlit("\",\"trace_id\":\"");
                reveal_strlit("\"");
                lemma_hex_pad_printable(
                    crate::trace::resolved_span_id(ext) as nat,
                    SPAN_ID_HEX_WIDTH as nat,
                );
                lemma_hex_pad_printable(
                    crate::trace::resolved_trace_id(ext) as nat,
                    TRACE_ID_HEX_WIDTH as nat,
                );
                lemma_printable_concat(",\"span_id\":\""@, span_id_chars(ext));
                lemma_printable_concat(
                    ",\"span_id\":\""@ + span_id_chars(ext),
                    "\",\"trace_id\":\""@,
                );
                lemma_printable_concat(
                    ",\"span_id\":\""@ + span_id_chars(ext) + "\",\"trace_id\":\""@,
                    trace_id_chars(ext),
                );
                lemma_printable_concat(
                    ",\"span_id\":\""@ + span_id_chars(ext) + "\",\"trace_id\":\""@
                        + trace_id_chars(ext),
                    "\""@,
                );
            },
        },
    }
}

/// A rendered record holds no control character: every control character
/// inside a string field was escaped away.
pub proof fn lemma_record_printable(ev: Event, span: Option<SpanContext>)
    ensures
        printable(record_chars(ev, span)),
{
    reveal_strlit("{\"level\":\"");
    reveal_strlit("\",\"fields\":");
    reveal_strlit(",\"target\":");
    reveal_strlit("}");
    lemma_level_printable(ev.level);
    lemma_fields_printable(ev.fields@);
    lemma_json_quoted_printable(ev.target@);
    lemma_trace_suffix_printable(span);
    let a = "{\"level\":\""@;
    let b = level_chars(ev.level);
    let c = "\",\"fields\":"@;
    let d = fields_chars(ev.fields@);
    let e = ",\"target\":"@;
    let f = json_quoted(ev.target@);
    let g = trace_suffix(span);
    let h = "}"@;
    lemma_printable_concat(a, b);
    lemma_printable_concat(a + b, c);
    lemma_printable_concat(a + b + c, d);
    lemma_printable_concat(a + b + c + d, e);
    lemma_printable_concat(a + b + c + d + e, f);
    lemma_printable_concat(a + b + c + d + e + f, g);
    lemma_printable_concat(a + b + c + d + e + f + g, h);
}

/// Every emitted record is exactly one line: the object text itself
/// contains no newline, and the single newline that `format_event`
/// appends terminates the line.
pub proof fn lemma_single_line(ev: Event, span: Option<SpanContext>)
    ensures
        (record_chars(ev, span) + "\n"@).len() == record_chars(ev, span).len() + 1,
        (record_chars(ev, span) + "\n"@).last() == '\n',
        forall|i: int|
            0 <= i < record_chars(ev, span).len() ==> (record_chars(ev, span) + "\n"@)[i] != '\n',
{
    reveal_strlit("\n");
    lemma_record_printable(ev, span);
    let rec = record_chars(ev, span);
    assert(("\n"@)[0] == '\n');
    assert forall|i: int| 0 <= i < rec.len() implies (rec + "\n"@)[i] != '\n' by {
        assert((rec + "\n"@)[i] == rec[i]);
        assert((rec[i] as u32) >= 0x20);
    }
}

} // verus!
