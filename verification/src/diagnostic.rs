//! Diagnostic data model and the stable JSON contract.
//!
//! [`Diagnostic`] is the linter's internal representation; [`JsonDiagnostic`]
//! is what machine-readable output is built from.

use vstd::prelude::*;

use crate::path_utils::{display_path, displayed};
use crate::text::{chars_of, owned, string_of};

verus! {

/// Diagnostic severity.
#[derive(Debug, Clone, Copy, PartialEq, Eq, PartialOrd, Ord, Structural)]
pub enum Severity {
    /// The issue should fail CI and produce exit code 1.
    Error,
    /// The issue is informational and does not fail CI.
    Warning,
}

/// Byte range within a source file.
#[derive(Debug, Clone, Copy, PartialEq, Eq, Structural)]
pub struct ByteSpan {
    /// Inclusive start byte offset.
    pub start: usize,
    /// Exclusive end byte offset.
    pub end: usize,
}

/// A linter diagnostic with a stable JSON Pointer location.
#[derive(Debug)]
pub struct Diagnostic {
    /// Stable rule code, such as `unknown-action-reference`.
    pub code: String,
    /// Severity used for exit-code decisions.
    pub severity: Severity,
    /// Path of the file the diagnostic is about.
    pub path: String,
    /// JSON Pointer to the offending value, relative to `path`.
    pub pointer: String,
    /// Optional byte span in the source file.
    pub span: Option<ByteSpan>,
    /// Human-readable diagnostic message.
    pub message: String,
}

/// What a diagnostic says, as a mathematical value.
pub struct Finding {
    pub code: Seq<char>,
    pub severity: Severity,
    pub path: Seq<char>,
    pub pointer: Seq<char>,
    pub span: Option<ByteSpan>,
    pub message: Seq<char>,
}

impl View for Diagnostic {
    type V = Finding;

    open spec fn view(&self) -> Finding {
        Finding {
            code: self.code@,
            severity: self.severity,
            path: self.path@,
            pointer: self.pointer@,
            span: self.span,
            message: self.message@,
        }
    }
}

/// What a list of diagnostics says, in order.
#[verifier::opaque]
pub open spec fn findings(list: Seq<Diagnostic>) -> Seq<Finding> {
    Seq::new(list.len(), |i: int| list[i]@)
}

impl Diagnostic {
    /// Construct an error diagnostic.
    pub fn error(
        code: &str,
        path: &str,
        pointer: &str,
        span: Option<ByteSpan>,
        message: &str,
    ) -> (diagnostic: Diagnostic)
        ensures
            diagnostic@ == (Finding {
                code: code@,
                severity: Severity::Error,
                path: path@,
                pointer: pointer@,
                span,
                message: message@,
            }),
    {
        Diagnostic {
            code: owned(code),
            severity: Severity::Error,
            path: owned(path),
            pointer: owned(pointer),
            span,
            message: owned(message),
        }
    }

    /// A diagnostic that says the same.
    pub fn duplicate(&self) -> (copy: Diagnostic)
        ensures
            copy@ == self@,
    {
        Diagnostic {
            code: self.code.clone(),
            severity: self.severity,
            path: self.path.clone(),
            pointer: self.pointer.clone(),
            span: self.span,
            message: self.message.clone(),
        }
    }
}

/// Diagnostic as machine-readable output shows it.
#[derive(Debug)]
pub struct JsonDiagnostic<'a> {
    /// Stable rule code.
    pub code: &'a str,
    /// Diagnostic severity.
    pub severity: Severity,
    /// Path formatted relative to the input base.
    pub path: String,
    /// JSON Pointer to the offending value.
    pub pointer: &'a str,
    /// Human-readable diagnostic message.
    pub message: &'a str,
}

impl Diagnostic {
    /// Convert this diagnostic to the stable machine-readable contract.
    pub fn as_json_contract(&self, base: &str) -> (contract: JsonDiagnostic<'_>)
        ensures
            contract.code@ == self.code@,
            contract.severity == self.severity,
            contract.path@ == displayed(base@, self.path@),
            contract.pointer@ == self.pointer@,
            contract.message@ == self.message@,
    {
        JsonDiagnostic {
            code: self.code.as_str(),
            severity: self.severity,
            path: display_path(base, self.path.as_str()),
            pointer: self.pointer.as_str(),
            message: self.message.as_str(),
        }
    }
}

/// A control character.
pub open spec fn is_control(c: char) -> bool {
    c <= '\u{1f}' || ('\u{7f}' <= c && c <= '\u{9f}')
}

/// The hexadecimal digits.
pub open spec fn hex_digits() -> Seq<char> {
    seq!['0', '1', '2', '3', '4', '5', '6', '7', '8', '9', 'a', 'b', 'c', 'd', 'e', 'f']
}

/// A character as a terminal gets it: control characters by their code, in two
/// hexadecimal digits.
pub open spec fn sanitized_char(c: char) -> Seq<char> {
    if is_control(c) {
        seq!['\\', 'x', hex_digits()[c as int / 16], hex_digits()[c as int % 16]]
    } else {
        seq![c]
    }
}

/// A text as a terminal gets it.
pub open spec fn sanitized(text: Seq<char>) -> Seq<char>
    decreases text.len(),
{
    if text.len() == 0 {
        Seq::empty()
    } else {
        sanitized(text.drop_last()) + sanitized_char(text.last())
    }
}

proof fn lemma_char_code(c: char)
    ensures
        0 <= c as int,
{
}

fn hex_digit(n: u32) -> (digit: char)
    requires
        n < 16,
    ensures
        digit == hex_digits()[n as int],
{
    let digits = ['0', '1', '2', '3', '4', '5', '6', '7', '8', '9', 'a', 'b', 'c', 'd', 'e', 'f'];
    assert(digits@ =~= hex_digits());
    digits[n as usize]
}

/// Escape control characters for safe terminal display.
///
/// A path name may hold terminal escapes; every control character is rendered
/// by its code, so that none reaches the terminal.
pub fn sanitize_for_terminal(input: &str) -> (output: String)
    ensures
        output@ == sanitized(input@),
{
    let text = chars_of(input);
    let mut out: Vec<char> = Vec::new();
    let mut i: usize = 0;
    assert(out@ =~= sanitized(input@.take(0)));
    while i < text.len()
        invariant
            i <= text@.len(),
            text@ == input@,
            out@ == sanitized(input@.take(i as int)),
        decreases text@.len() - i,
    {
        let c = text[i];
        let ghost before = out@;
        assert(input@.take(i + 1).drop_last() =~= input@.take(i as int));
        if c <= '\u{1f}' || ('\u{7f}' <= c && c <= '\u{9f}') {
            proof {
                lemma_char_code(c);
            }
            let code: u32 = c as u32;
            out.push('\\');
            out.push('x');
            out.push(hex_digit(code / 16));
            out.push(hex_digit(code % 16));
        } else {
            out.push(c);
        }
        assert(out@ =~= before + sanitized_char(c));
        i += 1;
    }
    assert(input@.take(i as int) =~= input@);
    string_of(out.as_slice())
}

/// What reaches the terminal holds no control character.
pub proof fn law_sanitized_text_is_safe(text: Seq<char>)
    ensures
        forall|i: int| 0 <= i < sanitized(text).len() ==> !is_control(#[trigger] sanitized(text)[i]),
    decreases text.len(),
{
    if text.len() > 0 {
        law_sanitized_text_is_safe(text.drop_last());
        let last = sanitized_char(text.last());
        lemma_char_code(text.last());
        assert(forall|k: int| 0 <= k < 16 ==> !is_control(#[trigger] hex_digits()[k]));
        assert(forall|i: int| 0 <= i < last.len() ==> !is_control(#[trigger] last[i]));
        assert forall|i: int| 0 <= i < sanitized(text).len() implies !is_control(
            #[trigger] sanitized(text)[i],
        ) by {
            let front = sanitized(text.drop_last());
            if i < front.len() {
                assert(sanitized(text)[i] == front[i]);
            } else {
                assert(sanitized(text)[i] == last[i - front.len()]);
            }
        }
    }
}

/// A text without such characters reaches the terminal unchanged.
pub proof fn law_safe_text_is_kept(text: Seq<char>)
    requires
        forall|i: int| 0 <= i < text.len() ==> !is_control(#[trigger] text[i]),
    ensures
        sanitized(text) == text,
    decreases text.len(),
{
    if text.len() > 0 {
        let front = text.drop_last();
        assert(forall|i: int| 0 <= i < front.len() ==> #[trigger] front[i] == text[i]);
        law_safe_text_is_kept(front);
        assert(!is_control(text[text.len() - 1]));
        assert(front + seq![text.last()] =~= text);
    } else {
        assert(sanitized(text) =~= text);
    }
}

/// Appending a diagnostic appends what it says.
pub proof fn lemma_findings_push(list: Seq<Diagnostic>, last: Diagnostic)
    ensures
        findings(list.push(last)) == findings(list) + seq![last@],
{
    reveal(findings);
    assert(findings(list.push(last)) =~= findings(list) + seq![last@]);
}

/// What a list says has one entry per diagnostic, in the same place.
pub proof fn lemma_findings_index(list: Seq<Diagnostic>)
    ensures
        findings(list).len() == list.len(),
        forall|i: int| 0 <= i < list.len() ==> #[trigger] findings(list)[i] == list[i]@,
{
    reveal(findings);
}

pub broadcast proof fn lemma_findings_regroup(a: Seq<Finding>, b: Seq<Finding>, c: Seq<Finding>)
    ensures
        #[trigger] (a + (b + c)) == (a + b) + c,
{
    assert(a + (b + c) =~= (a + b) + c);
}

pub broadcast proof fn lemma_findings_then_none(a: Seq<Finding>)
    ensures
        #[trigger] (a + Seq::<Finding>::empty()) == a,
{
    assert(a + Seq::<Finding>::empty() =~= a);
}

pub broadcast proof fn lemma_findings_after_none(a: Seq<Finding>)
    ensures
        #[trigger] (Seq::<Finding>::empty() + a) == a,
{
    assert(Seq::<Finding>::empty() + a =~= a);
}

pub broadcast group group_findings {
    lemma_findings_regroup,
    lemma_findings_then_none,
    lemma_findings_after_none,
}

} // verus!
