//! How a shape rule reports a finding.

use vstd::prelude::*;

use crate::diagnostic::{
    findings, lemma_findings_index, lemma_findings_push, ByteSpan, Diagnostic, Finding, Severity,
};
use crate::json::{joined, pointer_join, Document};

verus! {

/// One error about `file`.
pub open spec fn issue(
    file: &Document,
    code: Seq<char>,
    pointer: Seq<char>,
    span: Option<ByteSpan>,
    message: Seq<char>,
) -> Seq<Finding> {
    seq![
        Finding { code, severity: Severity::Error, path: file.path@, pointer, span, message },
    ]
}

/// The member `key` of the object at `base` is missing.
pub open spec fn missing(
    file: &Document,
    base: Seq<char>,
    key: Seq<char>,
    span: ByteSpan,
    message: Seq<char>,
) -> Seq<Finding> {
    issue(file, "workflow-shape-missing-field"@, joined(base, key), Some(span), message)
}

/// The member `key` of the object at `base` has the wrong JSON kind.
pub open spec fn wrong_type(
    file: &Document,
    base: Seq<char>,
    key: Seq<char>,
    span: ByteSpan,
    message: Seq<char>,
) -> Seq<Finding> {
    issue(file, "workflow-shape-invalid-type"@, joined(base, key), Some(span), message)
}

/// The member `key` of the object at `base` has the right kind and the wrong content.
pub open spec fn wrong_value(
    file: &Document,
    base: Seq<char>,
    key: Seq<char>,
    span: ByteSpan,
    message: Seq<char>,
) -> Seq<Finding> {
    issue(file, "workflow-shape-invalid-value"@, joined(base, key), Some(span), message)
}

/// The member `key` of the object at `base` does not belong where it stands.
pub open spec fn wrong_context(
    file: &Document,
    base: Seq<char>,
    key: Seq<char>,
    span: ByteSpan,
    message: Seq<char>,
) -> Seq<Finding> {
    issue(file, "workflow-shape-invalid-context"@, joined(base, key), Some(span), message)
}

/// Report one error about `file`.
pub fn report(
    file: &Document,
    code: &str,
    pointer: &str,
    span: Option<ByteSpan>,
    message: &str,
    diagnostics: &mut Vec<Diagnostic>,
)
    ensures
        findings(final(diagnostics)@) == findings(old(diagnostics)@) + issue(
            file,
            code@,
            pointer@,
            span,
            message@,
        ),
{
    let diagnostic = Diagnostic::error(code, file.path, pointer, span, message);
    proof {
        lemma_findings_push(diagnostics@, diagnostic);
    }
    diagnostics.push(diagnostic);
}

pub fn report_missing(
    file: &Document,
    base: &str,
    key: &str,
    span: ByteSpan,
    message: &str,
    diagnostics: &mut Vec<Diagnostic>,
)
    ensures
        findings(final(diagnostics)@) == findings(old(diagnostics)@) + missing(
            file,
            base@,
            key@,
            span,
            message@,
        ),
{
    let pointer = pointer_join(base, key);
    report(
        file,
        "workflow-shape-missing-field",
        pointer.as_str(),
        Some(span),
        message,
        diagnostics,
    );
}

pub fn report_type(
    file: &Document,
    base: &str,
    key: &str,
    span: ByteSpan,
    message: &str,
    diagnostics: &mut Vec<Diagnostic>,
)
    ensures
        findings(final(diagnostics)@) == findings(old(diagnostics)@) + wrong_type(
            file,
            base@,
            key@,
            span,
            message@,
        ),
{
    let pointer = pointer_join(base, key);
    report(
        file,
        "workflow-shape-invalid-type",
        pointer.as_str(),
        Some(span),
        message,
        diagnostics,
    );
}

pub fn report_value(
    file: &Document,
    base: &str,
    key: &str,
    span: ByteSpan,
    message: &str,
    diagnostics: &mut Vec<Diagnostic>,
)
    ensures
        findings(final(diagnostics)@) == findings(old(diagnostics)@) + wrong_value(
            file,
            base@,
            key@,
            span,
            message@,
        ),
{
    let pointer = pointer_join(base, key);
    report(
        file,
        "workflow-shape-invalid-value",
        pointer.as_str(),
        Some(span),
        message,
        diagnostics,
    );
}

pub fn report_context(
    file: &Document,
    base: &str,
    key: &str,
    span: ByteSpan,
    message: &str,
    diagnostics: &mut Vec<Diagnostic>,
)
    ensures
        findings(final(diagnostics)@) == findings(old(diagnostics)@) + wrong_context(
            file,
            base@,
            key@,
            span,
            message@,
        ),
{
    let pointer = pointer_join(base, key);
    report(
        file,
        "workflow-shape-invalid-context",
        pointer.as_str(),
        Some(span),
        message,
        diagnostics,
    );
}

/// The same findings with another span.
pub open spec fn respanned(list: Seq<Finding>, span: Option<ByteSpan>) -> Seq<Finding> {
    Seq::new(list.len(), |i: int| Finding { span, ..list[i] })
}

/// Replacing spans goes through a concatenation.
pub proof fn lemma_respanned_adds(left: Seq<Finding>, right: Seq<Finding>, span: Option<ByteSpan>)
    ensures
        respanned(left + right, span) == respanned(left, span) + respanned(right, span),
{
    assert(respanned(left + right, span) =~= respanned(left, span) + respanned(right, span));
}

/// Append diagnostics after replacing the span of each.
pub fn extend_with_span(
    diagnostics: &mut Vec<Diagnostic>,
    found: &Vec<Diagnostic>,
    span: Option<ByteSpan>,
)
    ensures
        findings(final(diagnostics)@) == findings(old(diagnostics)@) + respanned(
            findings(found@),
            span,
        ),
{
    let ghost before = findings(diagnostics@);
    let ghost added = respanned(findings(found@), span);
    let mut i: usize = 0;
    proof {
        lemma_findings_index(found@);
        assert(before + added.take(0) =~= before);
    }
    while i < found.len()
        invariant
            i <= found.len(),
            added == respanned(findings(found@), span),
            findings(diagnostics@) == before + added.take(i as int),
        decreases found.len() - i,
    {
        let mut copy = found[i].duplicate();
        copy.span = span;
        proof {
            lemma_findings_index(found@);
            lemma_findings_push(diagnostics@, copy);
            assert(copy@ == added[i as int]);
            assert(before + added.take(i as int) + seq![copy@] =~= before + added.take(i + 1));
        }
        diagnostics.push(copy);
        i += 1;
    }
    proof {
        lemma_findings_index(found@);
        assert(added.take(i as int) =~= added);
    }
}

} // verus!
