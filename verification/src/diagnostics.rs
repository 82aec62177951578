//! Syntax diagnostics and their user-facing rendering.
//!
//! The parser reports each lexical or grammatical violation as one
//! [`Diagnostic`]: a message, a byte-range span into the source text, and a
//! severity.  A failing run wraps the complete, ordered diagnostic sequence
//! together with a copy of the source text in a [`MinificationException`],
//! which renders every diagnostic as a ready-to-display string: the message,
//! the offending source line, and a caret marker under the offending span.

use vstd::prelude::*;
use vstd::utf8::is_ascii_chars;

verus! {

/// How severe one diagnostic is.  The parser reports violations as errors;
/// the other levels exist for completeness of the reporting surface.
#[derive(Clone, Copy, PartialEq, Eq, Structural, Debug)]
pub enum Severity {
    /// The input violates the grammar; the pipeline must not proceed.
    Error,
    /// Suspect but not fatal.
    Warning,
    /// Purely informational.
    Advice,
}

/// The mathematical content of one diagnostic: the message characters, the
/// span as a starting offset and a length into the source text, and the
/// severity.
pub ghost struct DiagnosticData {
    pub message: Seq<char>,
    pub start: int,
    pub len: int,
    pub severity: Severity,
}

/// One reported syntax problem: a human-readable message and the byte range
/// of the offending source text.
#[derive(Debug, Clone)]
pub struct Diagnostic {
    /// What went wrong, in words.
    pub message: String,
    /// Offset of the first offending byte in the source text.
    pub start: usize,
    /// Number of offending bytes.
    pub len: usize,
    /// How severe the problem is.
    pub severity: Severity,
}

impl View for Diagnostic {
    type V = DiagnosticData;

    open spec fn view(&self) -> DiagnosticData {
        DiagnosticData {
            message: self.message@,
            start: self.start as int,
            len: self.len as int,
            severity: self.severity,
        }
    }
}

/// The lower-case word naming a severity level.
pub open spec fn severity_word(s: Severity) -> Seq<char> {
    match s {
        Severity::Error => "error"@,
        Severity::Warning => "warning"@,
        Severity::Advice => "advice"@,
    }
}

/// Offset of the first character of the line containing position `pos`:
/// the nearest line break at or before `pos`, or the start of the text.
pub open spec fn line_begin(src: Seq<char>, pos: int) -> int
    decreases pos,
{
    if pos <= 0 {
        0
    } else if src[pos - 1] == '\n' {
        pos
    } else {
        line_begin(src, pos - 1)
    }
}

/// Offset just past the last character of the line containing position
/// `pos`: the nearest line break at or after `pos`, or the end of the text.
pub open spec fn line_end(src: Seq<char>, pos: int) -> int
    decreases src.len() - pos,
{
    if pos < 0 || pos >= src.len() {
        src.len() as int
    } else if src[pos] == '\n' {
        pos
    } else {
        line_end(src, pos + 1)
    }
}

proof fn lemma_line_begin_bounds(src: Seq<char>, pos: int)
    requires
        0 <= pos <= src.len(),
    ensures
        0 <= line_begin(src, pos) <= pos,
    decreases pos,
{
    if pos > 0 && src[pos - 1] != '\n' {
        lemma_line_begin_bounds(src, pos - 1);
    }
}

proof fn lemma_line_end_bounds(src: Seq<char>, pos: int)
    requires
        0 <= pos <= src.len(),
    ensures
        pos <= line_end(src, pos) <= src.len(),
    decreases src.len() - pos,
{
    if pos < src.len() && src[pos] != '\n' {
        lemma_line_end_bounds(src, pos + 1);
    }
}

/// A source-context snippet can be rendered when the text is ASCII (so that
/// the diagnostic's byte offsets coincide with character positions) and the
/// span starts inside the text.
pub open spec fn snippet_applies(d: DiagnosticData, src: Seq<char>) -> bool {
    &&& is_ascii_chars(src)
    &&& 0 <= d.start <= src.len()
    &&& 0 <= d.len
}

/// The ready-to-display rendering of one diagnostic against the source text
/// it refers to: `<severity>: <message>`, followed — whenever a snippet can
/// be rendered — by the offending source line and a caret marker under the
/// offending span.
pub open spec fn rendered(d: DiagnosticData, src: Seq<char>) -> Seq<char> {
    let head = severity_word(d.severity) + ": "@ + d.message;
    if snippet_applies(d, src) {
        let lb = line_begin(src, d.start);
        let le = line_end(src, d.start);
        let col = d.start - lb;
        let capped = if d.len <= le - d.start {
            d.len
        } else {
            le - d.start
        };
        let width = if capped == 0 {
            1
        } else {
            capped
        };
        head + "\n"@ + src.subrange(lb, le) + "\n"@ + Seq::new(col as nat, |i: int| ' ')
            + Seq::new(width as nat, |i: int| '^')
    } else {
        head
    }
}

/// Offset of the first character of the line containing `start`.
fn find_line_begin(source: &str, start: usize) -> (r: usize)
    requires
        start <= source@.len(),
    ensures
        r == line_begin(source@, start as int),
{
    let mut i: usize = start;
    while i > 0 && source.get_char(i - 1) != '\n'
        invariant
            0 <= i <= start <= source@.len(),
            line_begin(source@, start as int) == line_begin(source@, i as int),
        decreases i,
    {
        proof {
            assert(line_begin(source@, i as int) == line_begin(source@, i - 1));
        }
        i = i - 1;
    }
    i
}

/// Offset just past the last character of the line containing `start`.
fn find_line_end(source: &str, start: usize) -> (r: usize)
    requires
        start <= source@.len(),
        source@.len() <= usize::MAX,
    ensures
        r == line_end(source@, start as int),
        start <= r <= source@.len(),
{
    let n = source.unicode_len();
    let mut j: usize = start;
    while j < n && source.get_char(j) != '\n'
        invariant
            start <= j <= n == source@.len(),
            line_end(source@, start as int) == line_end(source@, j as int),
        decreases n - j,
    {
        proof {
            assert(line_end(source@, j as int) == line_end(source@, j + 1));
        }
        j = j + 1;
    }
    proof {
        lemma_line_end_bounds(source@, j as int);
    }
    j
}

/// Render one diagnostic against the source text it refers to, exactly as
/// [`rendered`] describes.
pub fn render_diagnostic(d: &Diagnostic, source: &str) -> (r: String)
    ensures
        r@ == rendered(d@, source@),
{
    let mut out = String::new();
    match d.severity {
        Severity::Error => out.append("error"),
        Severity::Warning => out.append("warning"),
        Severity::Advice => out.append("advice"),
    }
    out.append(": ");
    out.append(d.message.as_str());
    let ghost head = severity_word(d@.severity) + ": "@ + d.message@;
    assert(out@ =~= head);
    if source.is_ascii() && d.start <= source.unicode_len() {
        let lb = find_line_begin(source, d.start);
        let le = find_line_end(source, d.start);
        proof {
            lemma_line_begin_bounds(source@, d.start as int);
        }
        out.append("\n");
        out.append(source.substring_ascii(lb, le));
        out.append("\n");
        let ghost mid = head + "\n"@ + source@.subrange(lb as int, le as int) + "\n"@;
        assert(out@ =~= mid);
        let col = d.start - lb;
        let mut k: usize = 0;
        while k < col
            invariant
                k <= col,
                out@ =~= mid + Seq::new(k as nat, |i: int| ' '),
        decreases col - k,
        {
            out.append(" ");
            proof {
                reveal_strlit(" ");
                assert(out@ =~= mid + Seq::new((k + 1) as nat, |i: int| ' '));
            }
            k = k + 1;
        }
        let ghost with_pad = mid + Seq::new(col as nat, |i: int| ' ');
        assert(out@ =~= with_pad);
        let capped = if d.len <= le - d.start {
            d.len
        } else {
            le - d.start
        };
        let width = if capped == 0 {
            1
        } else {
            capped
        };
        let mut m: usize = 0;
        while m < width
            invariant
                m <= width,
                out@ =~= with_pad + Seq::new(m as nat, |i: int| '^'),
            decreases width - m,
        {
            out.append("^");
            proof {
                reveal_strlit("^");
                assert(out@ =~= with_pad + Seq::new((m + 1) as nat, |i: int| '^'));
            }
            m = m + 1;
        }
        assert(out@ =~= rendered(d@, source@));
        out
    } else {
        assert(out@ =~= rendered(d@, source@));
        out
    }
}

/// The mathematical content of a failed run: the complete diagnostic
/// sequence in detection order, and the source text they refer to.
pub ghost struct ExceptionData {
    pub diagnostics: Seq<DiagnosticData>,
    pub source: Seq<char>,
}

/// The failure artifact of one run: the full, ordered, non-empty sequence of
/// parse diagnostics, together with a copy of the original source text so
/// that every diagnostic can be rendered with its source context.
#[derive(Debug, Clone)]
pub struct MinificationException {
    diagnostics: Vec<Diagnostic>,
    source_text: String,
}

impl View for MinificationException {
    type V = ExceptionData;

    closed spec fn view(&self) -> ExceptionData {
        ExceptionData {
            diagnostics: self.diagnostics@.map_values(|d: Diagnostic| d@),
            source: self.source_text@,
        }
    }
}

impl MinificationException {
    /// Wrap a failing run's diagnostics together with the source text they
    /// refer to.  The diagnostic sequence of a failing run is never empty.
    pub fn new(diagnostics: Vec<Diagnostic>, source_text: String) -> (r: MinificationException)
        requires
            diagnostics@.len() > 0,
        ensures
            r@.diagnostics == diagnostics@.map_values(|d: Diagnostic| d@),
            r@.source == source_text@,
            r@.diagnostics.len() > 0,
    {
        MinificationException { diagnostics, source_text }
    }

    /// How many diagnostics the run produced.  Never zero.
    pub fn error_count(&self) -> (r: usize)
        ensures
            r == self@.diagnostics.len(),
    {
        self.diagnostics.len()
    }

    /// The source text the diagnostics refer to.
    pub fn source_text(&self) -> (r: &str)
        ensures
            r@ == self@.source,
    {
        self.source_text.as_str()
    }

    /// Every diagnostic of the failed run, each rendered as a
    /// ready-to-display string with its source context, in detection order.
    pub fn get_errors(&self) -> (r: Vec<String>)
        ensures
            r@.len() == self@.diagnostics.len(),
            forall|i: int|
                0 <= i < r@.len() ==> r@[i]@ == rendered(self@.diagnostics[i], self@.source),
    {
        let mut out: Vec<String> = Vec::new();
        let mut i: usize = 0;
        while i < self.diagnostics.len()
            invariant
                i <= self.diagnostics@.len(),
                out@.len() == i,
                forall|j: int|
                    0 <= j < i as int ==> out@[j]@ == rendered(
                        self.diagnostics@.map_values(|d: Diagnostic| d@)[j],
                        self.source_text@,
                    ),
            decreases self.diagnostics@.len() - i,
        {
            let text = render_diagnostic(&self.diagnostics[i], self.source_text.as_str());
            out.push(text);
            i = i + 1;
        }
        out
    }
}

} // verus!
