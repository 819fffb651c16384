//! Human-facing rendering of a diagnostic, backed by `annotate_snippets`.

use vstd::prelude::*;
use vstd::string::*;
use vstd::utf8::{
    encode_utf8, encode_utf8_valid_utf8, is_char_boundary, is_char_boundary_start_end_of_seq,
};

use crate::diagnostic::{ByteSpan, Diagnostic, Severity};
use crate::text::{text2, text_in};

verus! {

/// The last character boundary at or in front of a position.
pub open spec fn boundary_before(bytes: Seq<u8>, at: int) -> int
    decreases at,
{
    if at <= 0 || is_char_boundary(bytes, at) {
        at
    } else {
        boundary_before(bytes, at - 1)
    }
}

/// The first character boundary at or behind a position; the end of the text
/// where there is none.
pub open spec fn boundary_after(bytes: Seq<u8>, at: int) -> int
    decreases bytes.len() - at,
{
    if at >= bytes.len() || is_char_boundary(bytes, at) {
        at
    } else {
        boundary_after(bytes, at + 1)
    }
}

/// A position, moved to the end of the text where it lies behind it.
pub open spec fn clamped(bytes: Seq<u8>, at: int) -> int {
    if at < bytes.len() {
        at
    } else {
        bytes.len() as int
    }
}

/// The byte range to underline for a span: cut off at the end of the text, and
/// widened to whole characters. Nothing where that range is empty.
pub open spec fn underlined(source: Seq<char>, span: ByteSpan) -> Option<(int, int)> {
    let bytes = encode_utf8(source);
    let start = boundary_before(bytes, clamped(bytes, span.start as int));
    let wanted = clamped(bytes, span.end as int);
    let end = boundary_after(
        bytes,
        if wanted < start {
            start
        } else {
            wanted
        },
    );
    if source.len() == 0 || start >= end {
        None
    } else {
        Some((start, end))
    }
}

proof fn lemma_boundary_before(bytes: Seq<u8>, at: int)
    requires
        0 <= at <= bytes.len(),
        vstd::utf8::valid_utf8(bytes),
    ensures
        0 <= boundary_before(bytes, at) <= at,
        is_char_boundary(bytes, boundary_before(bytes, at)),
    decreases at,
{
    is_char_boundary_start_end_of_seq(bytes);
    if at > 0 && !is_char_boundary(bytes, at) {
        lemma_boundary_before(bytes, at - 1);
    }
}

proof fn lemma_boundary_after(bytes: Seq<u8>, at: int)
    requires
        0 <= at <= bytes.len(),
        vstd::utf8::valid_utf8(bytes),
    ensures
        at <= boundary_after(bytes, at) <= bytes.len(),
        is_char_boundary(bytes, boundary_after(bytes, at)),
    decreases bytes.len() - at,
{
    is_char_boundary_start_end_of_seq(bytes);
    if at < bytes.len() && !is_char_boundary(bytes, at) {
        lemma_boundary_after(bytes, at + 1);
    }
}

/// What is underlined lies in the text, is not empty, begins and ends between
/// characters, and covers the span as far as that lies in the text.
pub proof fn law_underlined_range_covers_span(source: Seq<char>, span: ByteSpan)
    ensures
        match underlined(source, span) {
            Some((start, end)) => {
                let bytes = encode_utf8(source);
                &&& 0 <= start < end <= bytes.len()
                &&& is_char_boundary(bytes, start)
                &&& is_char_boundary(bytes, end)
                &&& start <= span.start
                &&& span.end <= end || end == bytes.len()
            },
            None => true,
        },
{
    let bytes = encode_utf8(source);
    encode_utf8_valid_utf8(source);
    lemma_boundary_before(bytes, clamped(bytes, span.start as int));
    let start = boundary_before(bytes, clamped(bytes, span.start as int));
    let wanted = clamped(bytes, span.end as int);
    lemma_boundary_after(
        bytes,
        if wanted < start {
            start
        } else {
            wanted
        },
    );
}

/// Cut `span` off at the end of `source` and widen it to whole characters.
pub fn normalized_span(source: &str, span: ByteSpan) -> (range: Option<(usize, usize)>)
    ensures
        match range {
            Some((start, end)) => underlined(source@, span) == Some((start as int, end as int)),
            None => underlined(source@, span) is None,
        },
{
    let ghost bytes = encode_utf8(source@);
    proof {
        encode_utf8_valid_utf8(source@);
    }
    if source.is_empty() {
        return None;
    }
    let length: usize = source.as_bytes().len();
    let first: usize = if span.start < length {
        span.start
    } else {
        length
    };
    let mut start: usize = first;
    while start > 0 && !source.is_char_boundary(start)
        invariant
            start <= first <= length,
            bytes == source.spec_bytes(),
            boundary_before(bytes, first as int) == boundary_before(bytes, start as int),
        decreases start,
    {
        start -= 1;
    }
    let wanted: usize = if span.end < length {
        span.end
    } else {
        length
    };
    let from: usize = if wanted < start {
        start
    } else {
        wanted
    };
    let mut end: usize = from;
    while end < length && !source.is_char_boundary(end)
        invariant
            from <= end <= length,
            length == bytes.len(),
            bytes == source.spec_bytes(),
            boundary_after(bytes, from as int) == boundary_after(bytes, end as int),
        decreases length - end,
    {
        end += 1;
    }
    if start < end {
        Some((start, end))
    } else {
        None
    }
}

/// What a report shows of a place: a part of a source text, or nothing but
/// the path.
#[derive(Debug)]
pub enum Place<'a> {
    Snippet { source: &'a str, start: usize, end: usize },
    Origin,
}

/// A place, as a mathematical value.
pub open spec fn place_shown(place: Place) -> Option<(Seq<char>, int, int)> {
    match place {
        Place::Snippet { source, start, end } => Some((source@, start as int, end as int)),
        Place::Origin => None,
    }
}

/// What `annotate_snippets::normalize_untrusted_str` makes of a text.
pub uninterp spec fn untrusted_text(text: Seq<char>) -> Seq<char>;

/// What the plain renderer of `annotate_snippets` shows for a report: its
/// severity, code, message, path, source with the byte range to underline, and
/// note.
pub uninterp spec fn plain_report(
    severity: Severity,
    code: Seq<char>,
    message: Seq<char>,
    path: Seq<char>,
    place: Option<(Seq<char>, int, int)>,
    note: Option<Seq<char>>,
) -> Seq<char>;

/// What the styled renderer of `annotate_snippets` shows for the same report,
/// in the colours that it was built with: those for Windows or the others.
pub uninterp spec fn styled_report(
    windows: bool,
    severity: Severity,
    code: Seq<char>,
    message: Seq<char>,
    path: Seq<char>,
    place: Option<(Seq<char>, int, int)>,
    note: Option<Seq<char>>,
) -> Seq<char>;

/// Calls `annotate_snippets::normalize_untrusted_str`, which replaces control
/// characters. The result is named and not described further.
#[verifier::external_body]
fn normalize_untrusted(text: &str) -> (normal: String)
    ensures
        normal@ == untrusted_text(text@),
{
    annotate_snippets::normalize_untrusted_str(text)
}

/// Calls `annotate_snippets::Renderer::render` on a report of one group: a
/// title, the place, and the note where there is one. The texts that the plain
/// and the styled renderer give are named and not described further; the
/// colours of the styled one are one of two sets, chosen when the crate was
/// built. The renderer panics on a range that does not lie in the source or
/// cuts a character.
#[verifier::external_body]
fn render_report(
    styled: bool,
    severity: Severity,
    code: &str,
    message: &str,
    path: &str,
    place: Place,
    note: Option<&str>,
) -> (text: String)
    requires
        match place {
            Place::Snippet { source, start, end } => {
                &&& start < end <= encode_utf8(source@).len()
                &&& is_char_boundary(encode_utf8(source@), start as int)
                &&& is_char_boundary(encode_utf8(source@), end as int)
            },
            Place::Origin => true,
        },
    ensures
        !styled ==> text@ == plain_report(
            severity,
            code@,
            message@,
            path@,
            place_shown(place),
            text_in(note),
        ),
        styled ==> exists|windows: bool|
            text@ == #[trigger] styled_report(
                windows,
                severity,
                code@,
                message@,
                path@,
                place_shown(place),
                text_in(note),
            ),
{
    let level = match severity {
        Severity::Error => annotate_snippets::Level::ERROR,
        Severity::Warning => annotate_snippets::Level::WARNING,
    };
    let element: annotate_snippets::Element<'_> = match place {
        Place::Snippet { source, start, end } => annotate_snippets::Snippet::source(source).path(path).fold(true).annotation(annotate_snippets::AnnotationKind::Primary.span(start..end)).into(),
        Place::Origin => annotate_snippets::Origin::path(path).into(),
    };
    let notes = note.map(|text| annotate_snippets::Level::NOTE.message(text));
    let report = [level.primary_title(message).id(code).element(element).elements(notes)];
    let renderer = match styled {
        true => annotate_snippets::Renderer::styled(),
        false => annotate_snippets::Renderer::plain(),
    };
    renderer.render(&report).to_string()
}

/// What is shown of the place that a diagnostic is about: the source, where it
/// is at hand and the span lies in it.
pub open spec fn place_of(source: Option<&str>, span: Option<ByteSpan>) -> Option<
    (Seq<char>, int, int),
> {
    match (source, span) {
        (Some(text), Some(range)) => match underlined(text@, range) {
            Some((start, end)) => Some((text@, start, end)),
            None => None,
        },
        _ => None,
    }
}

/// The note that names the JSON Pointer of a diagnostic, unless that is the
/// whole document.
pub open spec fn pointer_note(pointer: Seq<char>) -> Option<Seq<char>> {
    if pointer.len() == 0 {
        None
    } else {
        Some(untrusted_text("JSON pointer: "@ + pointer))
    }
}

/// Render one diagnostic for a reader, with the part of the source that it is
/// about where `source` is given.
pub fn render_diagnostic(
    styled: bool,
    diagnostic: &Diagnostic,
    path: &str,
    source: Option<&str>,
) -> (text: String)
    ensures
        !styled ==> text@ == plain_report(
            diagnostic.severity,
            diagnostic.code@,
            diagnostic.message@,
            path@,
            place_of(source, diagnostic.span),
            pointer_note(diagnostic.pointer@),
        ),
        styled ==> exists|windows: bool|
            text@ == #[trigger] styled_report(
                windows,
                diagnostic.severity,
                diagnostic.code@,
                diagnostic.message@,
                path@,
                place_of(source, diagnostic.span),
                pointer_note(diagnostic.pointer@),
            ),
{
    let place = match (source, diagnostic.span) {
        (Some(text), Some(span)) => {
            proof {
                law_underlined_range_covers_span(text@, span);
            }
            match normalized_span(text, span) {
                Some((start, end)) => Place::Snippet { source: text, start, end },
                None => Place::Origin,
            }
        },
        _ => Place::Origin,
    };
    let code = diagnostic.code.as_str();
    let message = diagnostic.message.as_str();
    if diagnostic.pointer.as_str().is_empty() {
        render_report(styled, diagnostic.severity, code, message, path, place, None)
    } else {
        let words = text2("JSON pointer: ", diagnostic.pointer.as_str());
        let note = normalize_untrusted(words.as_str());
        render_report(
            styled,
            diagnostic.severity,
            code,
            message,
            path,
            place,
            Some(note.as_str()),
        )
    }
}

} // verus!
