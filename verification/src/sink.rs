//! Byte-oriented adaptor over a text-accepting output sink.
//!
//! The serialization step is byte-based, while the destination accepts
//! Unicode text. `WriteAdaptor` bridges the two with a single UTF-8 decode
//! step and no extra buffering: a write either forwards the whole decoded
//! buffer to the sink or fails.

use vstd::prelude::*;

verus! {

use vstd::utf8::{valid_utf8, decode_utf8};
use vstd::string::{StringExecFns, StringSliceAdditionalSpecFns};

/// The underlying sink rejected a write.
#[derive(Clone, Copy, Debug, PartialEq, Eq)]
pub struct WriteError;

/// How a byte-level write through the adaptor can fail.
#[derive(Clone, Copy, Debug, PartialEq, Eq)]
pub enum SinkError {
    /// The byte buffer was not valid UTF-8.
    Decode,
    /// The underlying text sink rejected the write.
    Write,
}

/// A destination that accepts a stream of Unicode text.
///
/// `text` is the text the sink has accepted so far; a successful write
/// appends exactly the given string to it. Nothing is promised after a
/// failed write: the sink must be treated as corrupted past that point.
pub trait TextSink {
    spec fn text(&self) -> Seq<char>;

    fn write_text(&mut self, s: &str) -> (r: Result<(), WriteError>)
        ensures
            r is Ok ==> final(self).text() == old(self).text() + s@,
    ;
}

/// A sink that accumulates all written text in a `String` and never fails.
pub struct StringSink {
    pub buf: String,
}

impl StringSink {
    /// An empty sink.
    pub fn new() -> (r: StringSink)
        ensures
            r.text() == Seq::<char>::empty(),
    {
        StringSink { buf: String::new() }
    }
}

impl TextSink for StringSink {
    open spec fn text(&self) -> Seq<char> {
        self.buf@
    }

    fn write_text(&mut self, s: &str) -> (r: Result<(), WriteError>) {
        self.buf.append(s);
        Ok(())
    }
}

/// A sink that accepts a bounded number of writes, then rejects every
/// further one, leaving its accumulated text unchanged.
pub struct QuotaSink {
    pub buf: String,
    pub remaining: usize,
}

impl TextSink for QuotaSink {
    open spec fn text(&self) -> Seq<char> {
        self.buf@
    }

    fn write_text(&mut self, s: &str) -> (r: Result<(), WriteError>)
        ensures
            r is Err ==> final(self).text() == old(self).text(),
    {
        if self.remaining == 0 {
            Err(WriteError)
        } else {
            self.remaining = self.remaining - 1;
            self.buf.append(s);
            Ok(())
        }
    }
}

/// Relies on `std::str::from_utf8`: returns the string over the given
/// bytes exactly when they are valid UTF-8, and fails otherwise.
#[verifier::external_body]
fn bytes_as_str(buf: &[u8]) -> (r: Option<&str>)
    ensures
        r is Some <==> valid_utf8(buf@),
        r is Some ==> r->0.spec_bytes() == buf@,
{
    std::str::from_utf8(buf).ok()
}

/// Wraps a text-accepting sink and exposes a byte-oriented write
/// operation plus a no-op flush.
pub struct WriteAdaptor<W: TextSink> {
    fmt_write: W,
}

impl<W: TextSink> WriteAdaptor<W> {
    /// The text accepted so far by the wrapped sink.
    pub closed spec fn sink_text(&self) -> Seq<char> {
        self.fmt_write.text()
    }

    pub fn new(fmt_write: W) -> (r: Self)
        ensures
            r.sink_text() == fmt_write.text(),
    {
        Self { fmt_write }
    }

    /// Decodes the buffer as UTF-8 and forwards the decoded text, in
    /// full, to the wrapped sink. On success the returned count is the
    /// whole buffer's length: there are no partial writes. A buffer that
    /// is not valid UTF-8 is rejected without touching the sink.
    pub fn write(&mut self, buf: &[u8]) -> (r: Result<usize, SinkError>)
        ensures
            r is Ok ==> valid_utf8(buf@)
                && final(self).sink_text() == old(self).sink_text() + decode_utf8(buf@)
                && r->Ok_0 == buf@.len(),
            !valid_utf8(buf@) ==> r == Err::<usize, SinkError>(SinkError::Decode)
                && final(self).sink_text() == old(self).sink_text(),
            r is Err && valid_utf8(buf@) ==> r == Err::<usize, SinkError>(SinkError::Write),
    {
        match bytes_as_str(buf) {
            None => Err(SinkError::Decode),
            Some(s) => {
                proof {
                    vstd::utf8::encode_utf8_decode_utf8(s@);
                }
                let n = buf.len();
                match self.fmt_write.write_text(s) {
                    Ok(()) => Ok(n),
                    Err(_) => Err(SinkError::Write),
                }
            },
        }
    }

    /// Flushing is a no-op: the adaptor buffers nothing.
    pub fn flush(&mut self) -> (r: Result<(), SinkError>)
        ensures
            r is Ok,
            final(self).sink_text() == old(self).sink_text(),
    {
        Ok(())
    }

    /// Hands the wrapped sink back.
    pub fn into_inner(self) -> (r: W)
        ensures
            r.text() == self.sink_text(),
    {
        self.fmt_write
    }
}

} // verus!
