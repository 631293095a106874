//! Trace-context resolution: from the active span's context to the
//! correlation identifiers carried on the emitted record.
//!
//! A span's context optionally holds a trace-context extension with an
//! explicit trace-id override, an explicit span-id override, and the
//! parent context's ambient trace id. Resolution picks the override when
//! set, falls back to the parent's trace id for the trace id, and to the
//! reserved all-zero sentinel for the span id, then renders both as
//! canonical zero-padded lowercase hexadecimal strings.

use vstd::prelude::*;

verus! {

use crate::json::{hex_pad, append_hex_pad};

/// The reserved all-zero span identifier: "no explicit span id was set".
pub const SPAN_ID_INVALID: u64 = 0;

/// Digits of a canonical trace-id string: 128 bits in hexadecimal.
pub const TRACE_ID_HEX_WIDTH: usize = 32;

/// Digits of a canonical span-id string: 64 bits in hexadecimal.
pub const SPAN_ID_HEX_WIDTH: usize = 16;

/// Per-span trace-correlation data: optional explicit overrides and the
/// parent context's ambient trace id.
#[derive(Clone, Copy, Debug)]
pub struct TraceContextExtension {
    /// Explicit trace-id override, when one was set on the span.
    pub trace_id: Option<u128>,
    /// Explicit span-id override, when one was set on the span.
    pub span_id: Option<u64>,
    /// The trace id carried by the parent context.
    pub parent_trace_id: u128,
}

/// A span's context record: it optionally carries a trace-context
/// extension.
#[derive(Clone, Copy, Debug)]
pub struct SpanContext {
    pub extension: Option<TraceContextExtension>,
}

/// The correlation identifiers attached to an emitted record, as
/// canonical hexadecimal strings.
#[derive(Debug)]
pub struct TraceInfo {
    pub trace_id: String,
    pub span_id: String,
}

/// The resolved trace id: the explicit override when set, else the
/// parent context's trace id.
pub open spec fn resolved_trace_id(ext: TraceContextExtension) -> u128 {
    match ext.trace_id {
        Some(t) => t,
        None => ext.parent_trace_id,
    }
}

/// The resolved span id: the explicit override when set, else the
/// reserved all-zero sentinel.
pub open spec fn resolved_span_id(ext: TraceContextExtension) -> u64 {
    match ext.span_id {
        Some(s) => s,
        None => SPAN_ID_INVALID,
    }
}

/// The canonical hexadecimal string of the resolved trace id.
pub open spec fn trace_id_chars(ext: TraceContextExtension) -> Seq<char> {
    hex_pad(resolved_trace_id(ext) as nat, TRACE_ID_HEX_WIDTH as nat)
}

/// The canonical hexadecimal string of the resolved span id.
pub open spec fn span_id_chars(ext: TraceContextExtension) -> Seq<char> {
    hex_pad(resolved_span_id(ext) as nat, SPAN_ID_HEX_WIDTH as nat)
}

/// Resolves the correlation identifiers for the given span: nothing when
/// the span carries no trace-context extension, else the resolved ids as
/// canonical hexadecimal strings. Absence is the only "failure": there is
/// no error path.
pub fn lookup_trace_info(span: &SpanContext) -> (r: Option<TraceInfo>)
    ensures
        r is Some <==> span.extension is Some,
        r is Some ==> r->0.trace_id@ == trace_id_chars(span.extension->0) && r->0.span_id@
            == span_id_chars(span.extension->0),
{
    match &span.extension {
        None => None,
        Some(ext) => {
            let resolved_trace: u128 = match ext.trace_id {
                Some(t) => t,
                None => ext.parent_trace_id,
            };
            let resolved_span: u64 = match ext.span_id {
                Some(s) => s,
                None => SPAN_ID_INVALID,
            };
            let mut trace_hex = String::new();
            append_hex_pad(&mut trace_hex, resolved_trace, TRACE_ID_HEX_WIDTH);
            let mut span_hex = String::new();
            append_hex_pad(&mut span_hex, resolved_span as u128, SPAN_ID_HEX_WIDTH);
            Some(TraceInfo { trace_id: trace_hex, span_id: span_hex })
        },
    }
}

} // verus!
