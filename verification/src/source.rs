//! A captured copy of an input file's full text plus its display name.
//!
//! A `FileSource` is taken once per parse attempt, either from storage or
//! from the buffer the token stream was already scanning; every span raised
//! on that attempt is a byte range into this exact text, and is resolved
//! into line/column context on demand, long after the parse has returned.

use vstd::prelude::*;
use vstd::string::StringSliceAdditionalSpecFns;
use vstd::utf8::encode_utf8;

verus! {

broadcast use vstd::slice::group_slice_axioms;

/// A contiguous byte range within a captured source text: a byte offset
/// plus a length.
#[derive(Clone, Copy, Debug, PartialEq, Eq, Structural)]
pub struct Span {
    pub offset: usize,
    pub length: usize,
}

impl Span {
    /// The first byte offset past the range.
    pub open spec fn end(self) -> int {
        self.offset + self.length
    }

    /// The range lies within a text of `len` bytes.
    pub open spec fn within(self, len: int) -> bool {
        self.offset + self.length <= len
    }

    pub fn new(offset: usize, length: usize) -> (r: Span)
        ensures
            r.offset == offset,
            r.length == length,
    {
        Span { offset, length }
    }
}

/// The UTF-8 bytes of a text; spans are offsets into this sequence.
pub open spec fn bytes_of(text: Seq<char>) -> Seq<u8> {
    encode_utf8(text)
}

/// Number of line-feed bytes among the first `pos` bytes of `b`.
pub open spec fn newlines_before(b: Seq<u8>, pos: int) -> nat
    decreases pos,
{
    if pos <= 0 {
        0
    } else {
        newlines_before(b, pos - 1) + (if b[pos - 1] == 10u8 {
            1nat
        } else {
            0nat
        })
    }
}

/// Offset of the first byte of the line that byte `pos` lies on: one past
/// the last line feed before `pos`, or zero if there is none.
pub open spec fn line_start_before(b: Seq<u8>, pos: int) -> int
    decreases pos,
{
    if pos <= 0 {
        0
    } else if b[pos - 1] == 10u8 {
        pos
    } else {
        line_start_before(b, pos - 1)
    }
}

/// Offset of the first byte of the line `n` whole lines above the line
/// that byte `pos` lies on, stopping at the start of the text when fewer
/// lines precede it.
pub open spec fn nth_line_start_back(b: Seq<u8>, pos: int, n: nat) -> int
    decreases n,
{
    let ls = line_start_before(b, pos);
    if n == 0 || ls == 0 {
        ls
    } else {
        nth_line_start_back(b, ls - 1, (n - 1) as nat)
    }
}

/// No carriage-return byte occurs in `b`: every line ends with a bare
/// line feed, so line and column arithmetic needs no CR/LF pairing.
pub open spec fn carriage_return_free(b: Seq<u8>) -> bool {
    forall|i: int| 0 <= i < b.len() ==> b[i] != 13u8
}

/// Resolved contents `c` answer a request for `span` against a text of
/// bytes `bytes`: the returned range contains the requested span, lies
/// within the text, and the returned data is exactly the text's bytes over
/// that range.
pub open spec fn resolved_ok(c: SpanContents, bytes: Seq<u8>, span: Span) -> bool {
    &&& c.span.offset <= span.offset
    &&& span.end() <= c.span.end()
    &&& c.span.within(bytes.len() as int)
    &&& c.data@ == bytes.subrange(c.span.offset as int, c.span.end())
}

/// The resolved contents of a span: the covered bytes together with the
/// requested surrounding lines, and the line/column position at which the
/// returned range starts.
#[derive(Debug)]
pub struct SpanContents {
    /// The bytes of the returned range: the requested span plus the
    /// surrounding context lines.
    pub data: Vec<u8>,
    /// The byte range the returned data covers; it contains the requested
    /// span.
    pub span: Span,
    /// Zero-based line number of the first returned byte.
    pub line: usize,
    /// Zero-based byte column of the first returned byte within its line.
    pub column: usize,
}

/// Failure of span resolution: the requested range does not lie within the
/// captured text.
#[derive(Clone, Copy, Debug, PartialEq, Eq, Structural)]
pub enum SpanError {
    OutOfBounds,
}

/// An input file's display name and its full text, captured at parse start.
/// The text never changes once captured, so every span issued against a
/// snapshot stays a valid byte range for the snapshot's lifetime.
#[derive(Debug)]
pub struct FileSource {
    pub file_name: String,
    pub input: String,
}

/// Relies on `<str as miette::SourceCode>::read_span`: on a span that lies
/// within the UTF-8 bytes of `s` it always succeeds, returning a range that
/// covers the requested span plus up to `before`/`after` whole context
/// lines, with the line/column of the range's start.  In a text free of
/// carriage returns, the returned range starts exactly `before` whole
/// lines above the span (clamped at the text's start; at the span's own
/// offset when `before` is zero), ends exactly at a non-empty span's end
/// when `after` is zero, and its line is the number of line feeds before
/// the range.  Its column is zero on a range widened upward; with no
/// context lines on either side it is the span's byte distance from its
/// line's start (with trailing context the scan may reset it, so nothing
/// is claimed there).  The span must lie within the
/// text: on a span past the text's end the underlying scan can slice out
/// of range and abort.
#[verifier::external_body]
fn miette_read_span(s: &str, offset: usize, length: usize, before: usize, after: usize) -> (r:
    Option<SpanContents>)
    requires
        offset + length <= s.spec_bytes().len(),
    ensures
        r is Some,
        resolved_ok(r->0, s.spec_bytes(), (Span { offset, length })),
        (r is Some && before == 0) ==> {
            let c = r->0;
            c.span.offset == offset
        },
        (r is Some && before > 0 && carriage_return_free(s.spec_bytes())) ==> {
            let c = r->0;
            c.span.offset == nth_line_start_back(s.spec_bytes(), offset as int, before as nat)
        },
        (r is Some && after == 0 && length > 0 && carriage_return_free(s.spec_bytes())) ==> {
            let c = r->0;
            c.span.end() == offset + length
        },
        (r is Some && carriage_return_free(s.spec_bytes())) ==> {
            let c = r->0;
            c.line == newlines_before(s.spec_bytes(), c.span.offset as int)
        },
        (r is Some && before == 0 && after == 0 && carriage_return_free(s.spec_bytes())) ==> {
            let c = r->0;
            c.column == offset - line_start_before(s.spec_bytes(), offset as int)
        },
        (r is Some && before > 0) ==> {
            let c = r->0;
            c.column == 0
        },
{
    let span: miette::SourceSpan = (offset, length).into();
    match <str as miette::SourceCode>::read_span(s, &span, before, after) {
        Ok(c) => Some(
            SpanContents {
                data: c.data().to_vec(),
                span: Span { offset: c.span().offset(), length: c.span().len() },
                line: c.line(),
                column: c.column(),
            },
        ),
        Err(_) => None,
    }
}

impl FileSource {
    /// The byte sequence spans of this snapshot are resolved against.
    pub open spec fn bytes(&self) -> Seq<u8> {
        bytes_of(self.input@)
    }

    /// Captures the display name and the exact text a token stream is
    /// scanning, so the error path never re-reads external storage.
    pub fn from_stream(file_name: String, input: String) -> (r: Self)
        ensures
            r.file_name@ == file_name@,
            r.input@ == input@,
    {
        FileSource { file_name, input }
    }

    /// Resolves a byte span against the captured text: returns the covered
    /// bytes plus up to the requested number of surrounding lines, with the
    /// line/column position of the returned range, and fails exactly when
    /// the span reaches past the end of the text.  In a text free of
    /// carriage returns the widening is pinned down: the returned range
    /// starts exactly `context_lines_before` whole lines above the span
    /// (clamped at the text's start) and, for a non-empty span with
    /// `context_lines_after` zero, ends exactly at the span's end.
    pub fn read_span(
        &self,
        span: &Span,
        context_lines_before: usize,
        context_lines_after: usize,
    ) -> (r: Result<SpanContents, SpanError>)
        ensures
            r is Ok <==> span.within(self.bytes().len() as int),
            r is Err ==> r->Err_0 == SpanError::OutOfBounds,
            r is Ok ==> resolved_ok(r->Ok_0, self.bytes(), *span),
            (r is Ok && context_lines_before == 0) ==> {
                let c = r->Ok_0;
                c.span.offset == span.offset
            },
            (r is Ok && context_lines_before > 0 && carriage_return_free(self.bytes())) ==> {
                let c = r->Ok_0;
                c.span.offset == nth_line_start_back(
                    self.bytes(),
                    span.offset as int,
                    context_lines_before as nat,
                )
            },
            (r is Ok && context_lines_after == 0 && span.length > 0 && carriage_return_free(
                self.bytes(),
            )) ==> {
                let c = r->Ok_0;
                c.span.end() == span.end()
            },
            (r is Ok && carriage_return_free(self.bytes())) ==> {
                let c = r->Ok_0;
                c.line == newlines_before(self.bytes(), c.span.offset as int)
            },
            (r is Ok && context_lines_before == 0 && context_lines_after == 0
                && carriage_return_free(self.bytes())) ==> {
                let c = r->Ok_0;
                c.column == span.offset - line_start_before(self.bytes(), span.offset as int)
            },
            (r is Ok && context_lines_before > 0) ==> {
                let c = r->Ok_0;
                c.column == 0
            },
    {
        let len: usize = self.input.as_str().as_bytes().len();
        if span.length > len || span.offset > len - span.length {
            return Err(SpanError::OutOfBounds);
        }
        match miette_read_span(
            self.input.as_str(),
            span.offset,
            span.length,
            context_lines_before,
            context_lines_after,
        ) {
            Some(c) => Ok(c),
            None => vstd::pervasive::unreached(),
        }
    }
}

/// The renderer-facing named form of a snapshot: the display name together
/// with the text, as a diagnostic renderer consumes it.
#[derive(Debug)]
pub struct NamedSource {
    pub name: String,
    pub text: String,
}

impl Clone for NamedSource {
    /// A field-for-field copy of the name and the text.
    fn clone(&self) -> (r: Self)
        ensures
            r == *self,
    {
        NamedSource { name: self.name.clone(), text: self.text.clone() }
    }
}

impl From<FileSource> for NamedSource {
    /// Carries the display name and text over unchanged.
    fn from(file_source: FileSource) -> (r: Self) {
        NamedSource { name: file_source.file_name, text: file_source.input }
    }
}

impl vstd::std_specs::convert::FromSpecImpl<FileSource> for NamedSource {
    open spec fn obeys_from_spec() -> bool {
        true
    }

    open spec fn from_spec(v: FileSource) -> Self {
        NamedSource { name: v.file_name, text: v.input }
    }
}

impl From<NamedSource> for FileSource {
    /// Carries the display name and text back unchanged.
    fn from(named: NamedSource) -> (r: Self) {
        FileSource { file_name: named.name, input: named.text }
    }
}

impl vstd::std_specs::convert::FromSpecImpl<NamedSource> for FileSource {
    open spec fn obeys_from_spec() -> bool {
        true
    }

    open spec fn from_spec(v: NamedSource) -> Self {
        FileSource { file_name: v.name, input: v.text }
    }
}

/// Converting a snapshot to its renderer-facing named form and back
/// preserves the display name and the full text byte for byte.
pub proof fn lemma_named_source_round_trip(fs: FileSource)
    ensures
        <FileSource as vstd::std_specs::convert::FromSpec<NamedSource>>::from_spec(
            <NamedSource as vstd::std_specs::convert::FromSpec<FileSource>>::from_spec(fs),
        ) == fs,
{
}

} // verus!
