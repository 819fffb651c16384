//! Decisions of the command line: severity overrides, the exit code, which
//! output format a caller wants, and what a tool error may reveal.

use vstd::prelude::*;

use crate::diagnostic::{
    findings, lemma_findings_index, lemma_findings_push, Diagnostic, Finding, Severity,
};
use crate::path_utils::{is_under, path_starts_with};
use crate::strictness::{downgraded, relaxed_list, shown};
use crate::text::{chars_of, occurs_at, owned, stands_at, string_of, text_eq};

verus! {

/// The code of a diagnostic is in the list.
pub open spec fn lists_code(codes: Seq<String>, code: Seq<char>) -> bool {
    exists|i: int| 0 <= i < codes.len() && (#[trigger] codes[i])@ == code
}

/// What the overrides leave of a diagnostic: one with an allowed code is
/// dropped, one with a warn code becomes a warning.
pub open spec fn overridden(finding: Finding, allow: Seq<String>, warn: Seq<String>) -> Option<
    Finding,
> {
    if lists_code(allow, finding.code) {
        None
    } else if lists_code(warn, finding.code) {
        Some(downgraded(finding))
    } else {
        Some(finding)
    }
}

/// What the overrides leave of a list of diagnostics, in order.
pub open spec fn overridden_list(
    list: Seq<Finding>,
    allow: Seq<String>,
    warn: Seq<String>,
) -> Seq<Finding>
    decreases list.len(),
{
    if list.len() == 0 {
        Seq::empty()
    } else {
        let front = overridden_list(list.drop_last(), allow, warn);
        match overridden(list.last(), allow, warn) {
            Some(finding) => front.push(finding),
            None => front,
        }
    }
}

/// A diagnostic that fails the run is in the list.
pub open spec fn has_error(list: Seq<Finding>) -> bool {
    exists|i: int| 0 <= i < list.len() && (#[trigger] list[i]).severity == Severity::Error
}

fn code_in(codes: &[String], code: &str) -> (found: bool)
    ensures
        found == lists_code(codes@, code@),
{
    let length: usize = codes.len();
    let mut i: usize = 0;
    while i < length
        invariant
            i <= length,
            length == codes@.len(),
            forall|j: int| 0 <= j < i ==> (#[trigger] codes@[j])@ != code@,
        decreases length - i,
    {
        if text_eq(codes[i].as_str(), code) {
            return true;
        }
        i += 1;
    }
    false
}

/// Apply the allow list (suppress) and the warn list (downgrade), in that
/// order: a code that is in both lists is suppressed.
pub fn apply_severity_overrides(
    diagnostics: Vec<Diagnostic>,
    allow: &[String],
    warn: &[String],
) -> (kept: Vec<Diagnostic>)
    ensures
        findings(kept@) == overridden_list(findings(diagnostics@), allow@, warn@),
{
    let mut kept: Vec<Diagnostic> = Vec::new();
    let ghost all = findings(diagnostics@);
    proof {
        lemma_findings_index(kept@);
        assert(findings(kept@) =~= overridden_list(all.take(0), allow@, warn@));
    }
    let mut i: usize = 0;
    while i < diagnostics.len()
        invariant
            i <= diagnostics.len(),
            all == findings(diagnostics@),
            findings(kept@) == overridden_list(all.take(i as int), allow@, warn@),
        decreases diagnostics.len() - i,
    {
        proof {
            lemma_findings_index(diagnostics@);
            assert(all.take(i + 1).drop_last() =~= all.take(i as int));
        }
        let code = diagnostics[i].code.as_str();
        if !code_in(allow, code) {
            let mut left = diagnostics[i].duplicate();
            if code_in(warn, code) {
                left.severity = Severity::Warning;
            }
            proof {
                lemma_findings_push(kept@, left);
                assert(findings(kept@.push(left)) =~= findings(kept@).push(left@));
            }
            kept.push(left);
        }
        i += 1;
    }
    proof {
        lemma_findings_index(diagnostics@);
        assert(all.take(i as int) =~= all);
    }
    kept
}

/// The exit code for what is left after all overrides: one where an error is
/// left, and zero where only warnings are.
pub fn exit_code(diagnostics: &Vec<Diagnostic>) -> (code: u8)
    ensures
        code == (if has_error(findings(diagnostics@)) {
            1u8
        } else {
            0u8
        }),
{
    proof {
        lemma_findings_index(diagnostics@);
    }
    let mut i: usize = 0;
    while i < diagnostics.len()
        invariant
            i <= diagnostics.len(),
            findings(diagnostics@).len() == diagnostics@.len(),
            forall|j: int|
                0 <= j < diagnostics@.len() ==> #[trigger] findings(diagnostics@)[j]
                    == diagnostics@[j]@,
            forall|j: int|
                0 <= j < i ==> (#[trigger] findings(diagnostics@)[j]).severity != Severity::Error,
        decreases diagnostics.len() - i,
    {
        assert(findings(diagnostics@)[i as int] == diagnostics@[i as int]@);
        if diagnostics[i].severity == Severity::Error {
            return 1;
        }
        i += 1;
    }
    0
}

/// No diagnostic with an allowed code is left, and every one with a warn code
/// is a warning.
pub proof fn law_overrides_reach_every_diagnostic(
    list: Seq<Finding>,
    allow: Seq<String>,
    warn: Seq<String>,
)
    ensures
        forall|i: int|
            0 <= i < overridden_list(list, allow, warn).len() ==> {
                let left = #[trigger] overridden_list(list, allow, warn)[i];
                &&& !lists_code(allow, left.code)
                &&& lists_code(warn, left.code) ==> left.severity == Severity::Warning
            },
    decreases list.len(),
{
    if list.len() > 0 {
        law_overrides_reach_every_diagnostic(list.drop_last(), allow, warn);
        let front = overridden_list(list.drop_last(), allow, warn);
        assert forall|i: int| 0 <= i < overridden_list(list, allow, warn).len() implies {
            let left = #[trigger] overridden_list(list, allow, warn)[i];
            &&& !lists_code(allow, left.code)
            &&& lists_code(warn, left.code) ==> left.severity == Severity::Warning
        } by {
            if i < front.len() {
                assert(overridden_list(list, allow, warn)[i] == front[i]);
            }
        }
    }
}

/// Without overrides nothing changes.
pub proof fn law_no_overrides_keep_everything(list: Seq<Finding>)
    ensures
        overridden_list(list, Seq::empty(), Seq::empty()) == list,
    decreases list.len(),
{
    if list.len() > 0 {
        law_no_overrides_keep_everything(list.drop_last());
        assert(list.drop_last().push(list.last()) =~= list);
    } else {
        assert(overridden_list(list, Seq::empty(), Seq::empty()) =~= list);
    }
}

/// Overrides hold whatever the strictness: no diagnostic with an allowed code
/// is left, and every one with a warn code is a warning.
pub proof fn law_overrides_hold_in_either_mode(
    list: Seq<Finding>,
    strict: bool,
    allow: Seq<String>,
    warn: Seq<String>,
)
    ensures
        forall|i: int|
            0 <= i < overridden_list(shown(list, strict), allow, warn).len() ==> {
                let left = #[trigger] overridden_list(shown(list, strict), allow, warn)[i];
                &&& !lists_code(allow, left.code)
                &&& lists_code(warn, left.code) ==> left.severity == Severity::Warning
            },
{
    law_overrides_reach_every_diagnostic(shown(list, strict), allow, warn);
}

/// A code that is both allowed and downgraded is suppressed.
pub proof fn law_allow_beats_warn(finding: Finding, allow: Seq<String>, warn: Seq<String>)
    requires
        lists_code(allow, finding.code),
    ensures
        overridden(finding, allow, warn) is None,
{
}

/// A list of warnings alone never fails the run, whatever the overrides.
pub proof fn law_warnings_never_fail(list: Seq<Finding>, allow: Seq<String>, warn: Seq<String>)
    requires
        !has_error(list),
    ensures
        !has_error(overridden_list(list, allow, warn)),
        !has_error(relaxed_list(list)),
    decreases list.len(),
{
    if list.len() > 0 {
        let front = list.drop_last();
        assert forall|i: int| 0 <= i < front.len() implies (#[trigger] front[i]).severity
            != Severity::Error by {
            assert(front[i] == list[i]);
        }
        law_warnings_never_fail(front, allow, warn);
        assert(list[list.len() - 1].severity != Severity::Error);
    }
}

/// The arguments from position `from` on ask for machine-readable output,
/// before they end or a `--` stands among them.
pub open spec fn asks_for_json(args: Seq<String>, from: int) -> bool
    decreases args.len() - from,
{
    if from < 0 || from >= args.len() || args[from]@ == "--"@ {
        false
    } else if args[from]@ == "--format"@ {
        from + 1 < args.len() && args[from + 1]@ == "json"@
    } else if args[from]@ == "--format=json"@ {
        true
    } else {
        asks_for_json(args, from + 1)
    }
}

/// Whether the arguments ask for machine-readable output, for when they could
/// not be parsed: `--format json` or `--format=json`, in front of any `--`.
pub fn args_request_json_format(args: &[String]) -> (holds: bool)
    ensures
        holds == asks_for_json(args@, 0),
{
    let length: usize = args.len();
    let mut i: usize = 0;
    while i < length
        invariant
            i <= length,
            length == args@.len(),
            asks_for_json(args@, 0) == asks_for_json(args@, i as int),
        decreases length - i,
    {
        let arg = args[i].as_str();
        if text_eq(arg, "--") {
            return false;
        }
        if text_eq(arg, "--format") {
            return i + 1 < length && text_eq(args[i + 1].as_str(), "json");
        }
        if text_eq(arg, "--format=json") {
            return true;
        }
        i += 1;
    }
    false
}

/// An ASCII letter.
pub open spec fn is_letter(c: char) -> bool {
    ('a' <= c && c <= 'z') || ('A' <= c && c <= 'Z')
}

/// Unicode white space.
pub open spec fn is_white(c: char) -> bool {
    ||| '\t' <= c && c <= '\r'
    ||| c == ' '
    ||| c == '\u{85}'
    ||| c == '\u{a0}'
    ||| c == '\u{1680}'
    ||| '\u{2000}' <= c && c <= '\u{200a}'
    ||| c == '\u{2028}'
    ||| c == '\u{2029}'
    ||| c == '\u{202f}'
    ||| c == '\u{205f}'
    ||| c == '\u{3000}'
}

/// An absolute path, of any platform, begins at `at`.
pub open spec fn starts_path(text: Seq<char>, at: int) -> bool {
    &&& 0 <= at < text.len()
    &&& {
        ||| text[at] == '/'
        ||| at + 1 < text.len() && text[at] == '\\' && text[at + 1] == '\\'
        ||| at + 2 < text.len() && is_letter(text[at]) && text[at + 1] == ':' && (text[at + 2]
            == '/' || text[at + 2] == '\\')
    }
}

/// The quote at `at` ends a quoted path: nothing follows, or the words of a
/// message about it.
pub open spec fn ends_quoted_path(text: Seq<char>, at: int) -> bool {
    &&& 0 <= at < text.len()
    &&& text[at] == '\''
    &&& {
        ||| at + 1 == text.len()
        ||| text.skip(at + 1) == " found"@
        ||| occurs_at(text, " found\n\n"@, at + 1)
        ||| occurs_at(text, " found\r\n\r\n"@, at + 1)
    }
}

/// The last quote in front of `end`, and not in front of `from`, that ends a
/// quoted path.
pub open spec fn closing_quote(text: Seq<char>, from: int, end: int) -> Option<int>
    decreases end - from,
{
    if end <= from {
        None
    } else if ends_quoted_path(text, end - 1) {
        Some(end - 1)
    } else {
        closing_quote(text, from, end - 1)
    }
}

/// The first position at or after `from` where a path without quotes ends.
pub open spec fn bare_end(text: Seq<char>, from: int) -> int
    decreases text.len() - from,
{
    if from < 0 || from >= text.len() {
        text.len() as int
    } else if is_white(text[from]) || text[from] == '\'' || text[from] == '"' {
        from
    } else {
        bare_end(text, from + 1)
    }
}

/// Where the path that begins at `from` ends.
pub open spec fn path_end(text: Seq<char>, from: int) -> int {
    match closing_quote(text, from, text.len() as int) {
        Some(at) => at,
        None => bare_end(text, from),
    }
}

/// The text from `from` on, with absolute paths left out.
pub open spec fn redacted(text: Seq<char>, from: int) -> Seq<char>
    decreases text.len() - from,
    when 0 <= from
    via redacted_ends
{
    if from >= text.len() {
        Seq::empty()
    } else if text[from] == '\'' && starts_path(text, from + 1) {
        match closing_quote(text, from + 1, text.len() as int) {
            Some(at) => "'<path>'"@ + redacted(text, at + 1),
            None => "'<path>"@,
        }
    } else if starts_path(text, from) {
        "<path>"@ + redacted(text, path_end(text, from))
    } else {
        seq![text[from]] + redacted(text, from + 1)
    }
}

#[via_fn]
proof fn redacted_ends(text: Seq<char>, from: int) {
    if from < text.len() {
        lemma_closing_quote(text, from + 1, text.len() as int);
        if starts_path(text, from) {
            lemma_path_end(text, from);
        }
    }
}

proof fn lemma_closing_quote(text: Seq<char>, from: int, end: int)
    requires
        from <= end,
    ensures
        match closing_quote(text, from, end) {
            Some(at) => from <= at < end && ends_quoted_path(text, at),
            None => true,
        },
    decreases end - from,
{
    if from < end {
        lemma_closing_quote(text, from, end - 1);
    }
}

proof fn lemma_bare_end(text: Seq<char>, from: int)
    requires
        0 <= from <= text.len(),
    ensures
        from <= bare_end(text, from) <= text.len(),
    decreases text.len() - from,
{
    if from < text.len() {
        lemma_bare_end(text, from + 1);
    }
}

proof fn lemma_path_end(text: Seq<char>, from: int)
    requires
        starts_path(text, from),
    ensures
        from < path_end(text, from) <= text.len(),
{
    lemma_closing_quote(text, from, text.len() as int);
    lemma_bare_end(text, from + 1);
}

fn is_absolute_path_start(text: &[char], at: usize) -> (holds: bool)
    requires
        at <= text@.len(),
    ensures
        holds == starts_path(text@, at as int),
{
    let length: usize = text.len();
    let left: usize = length - at;
    if left == 0 {
        return false;
    }
    let first = text[at];
    if first == '/' || (left > 1 && first == '\\' && text[at + 1] == '\\') {
        return true;
    }
    let letter = ('a' <= first && first <= 'z') || ('A' <= first && first <= 'Z');
    letter && left > 2 && text[at + 1] == ':' && (text[at + 2] == '/' || text[at + 2] == '\\')
}

/// Whether what follows the quote in front of `at` ends a quoted path.
fn path_quote_terminator(text: &[char], at: usize) -> (holds: bool)
    requires
        at <= text@.len(),
    ensures
        holds == (at == text@.len() || text@.skip(at as int) == " found"@ || occurs_at(
            text@,
            " found\n\n"@,
            at as int,
        ) || occurs_at(text@, " found\r\n\r\n"@, at as int)),
{
    let length: usize = text.len();
    if at == length {
        return true;
    }
    let found = chars_of(" found");
    let ends = stands_at(text, found.as_slice(), at) && length - at == found.len();
    proof {
        if ends {
            assert(text@.skip(at as int) =~= text@.subrange(at as int, at + found@.len()));
        } else if text@.skip(at as int) == " found"@ {
            assert(text@.subrange(at as int, at + found@.len()) =~= text@.skip(at as int));
        }
    }
    let unix = chars_of(" found\n\n");
    let windows = chars_of(" found\r\n\r\n");
    ends || stands_at(text, unix.as_slice(), at) || stands_at(text, windows.as_slice(), at)
}

fn closing_path_quote(text: &[char], from: usize) -> (found: Option<usize>)
    requires
        from <= text@.len(),
    ensures
        match found {
            Some(at) => closing_quote(text@, from as int, text@.len() as int) == Some(at as int)
                && from <= at < text@.len(),
            None => closing_quote(text@, from as int, text@.len() as int) is None,
        },
{
    let length: usize = text.len();
    let mut end: usize = length;
    while end > from
        invariant
            from <= end <= length,
            length == text@.len(),
            closing_quote(text@, from as int, length as int) == closing_quote(
                text@,
                from as int,
                end as int,
            ),
        decreases end,
    {
        if text[end - 1] == '\'' && path_quote_terminator(text, end) {
            return Some(end - 1);
        }
        end -= 1;
    }
    None
}

fn whitespace(c: char) -> (holds: bool)
    ensures
        holds == is_white(c),
{
    ('\t' <= c && c <= '\r') || c == ' ' || c == '\u{85}' || c == '\u{a0}' || c == '\u{1680}' || (
    '\u{2000}' <= c && c <= '\u{200a}') || c == '\u{2028}' || c == '\u{2029}' || c == '\u{202f}'
        || c == '\u{205f}' || c == '\u{3000}'
}

/// Where the path that begins at `from` ends.
fn embedded_absolute_path_end(text: &[char], from: usize) -> (end: usize)
    requires
        starts_path(text@, from as int),
    ensures
        end == path_end(text@, from as int),
        from < end <= text@.len(),
{
    proof {
        lemma_path_end(text@, from as int);
    }
    if let Some(at) = closing_path_quote(text, from) {
        return at;
    }
    let length: usize = text.len();
    let mut end: usize = from;
    while end < length && !whitespace(text[end]) && text[end] != '\'' && text[end] != '"'
        invariant
            from <= end <= length,
            length == text@.len(),
            bare_end(text@, from as int) == bare_end(text@, end as int),
        decreases length - end,
    {
        end += 1;
    }
    end
}

fn push_text(out: &mut Vec<char>, text: &str)
    ensures
        final(out)@ == old(out)@ + text@,
{
    let chars = chars_of(text);
    let mut i: usize = 0;
    let ghost before = out@;
    assert(out@ =~= before + text@.take(0));
    while i < chars.len()
        invariant
            i <= chars@.len(),
            chars@ == text@,
            out@ == before + text@.take(i as int),
        decreases chars@.len() - i,
    {
        out.push(chars[i]);
        assert(out@ =~= before + text@.take(i + 1));
        i += 1;
    }
    assert(text@.take(i as int) =~= text@);
}

/// Leave absolute paths out of a message: each is shown as `<path>`.
pub fn redact_absolute_paths(message: &str) -> (output: String)
    ensures
        output@ == redacted(message@, 0),
{
    let text = chars_of(message);
    let length: usize = text.len();
    let mut out: Vec<char> = Vec::new();
    let mut at: usize = 0;
    assert(out@ + redacted(message@, 0) =~= redacted(message@, 0));
    while at < length
        invariant
            at <= length,
            length == text@.len(),
            text@ == message@,
            out@ + redacted(message@, at as int) == redacted(message@, 0),
        decreases length - at,
    {
        let ghost before = out@;
        if text[at] == '\'' && is_absolute_path_start(text.as_slice(), at + 1) {
            match closing_path_quote(text.as_slice(), at + 1) {
                Some(close) => {
                    push_text(&mut out, "'<path>'");
                    assert(before + ("'<path>'"@ + redacted(message@, close + 1)) =~= out@
                        + redacted(message@, close + 1));
                    at = close + 1;
                },
                None => {
                    push_text(&mut out, "'<path>");
                    at = length;
                    assert(out@ + redacted(message@, at as int) =~= out@);
                },
            }
        } else if is_absolute_path_start(text.as_slice(), at) {
            let end = embedded_absolute_path_end(text.as_slice(), at);
            push_text(&mut out, "<path>");
            assert(before + ("<path>"@ + redacted(message@, end as int)) =~= out@ + redacted(
                message@,
                end as int,
            ));
            at = end;
        } else {
            let c = text[at];
            out.push(c);
            assert(before + (seq![c] + redacted(message@, at + 1)) =~= out@ + redacted(
                message@,
                at + 1,
            ));
            at += 1;
        }
    }
    assert(out@ + redacted(message@, at as int) =~= out@);
    string_of(out.as_slice())
}

proof fn lemma_redacted_first(text: Seq<char>, from: int)
    requires
        0 <= from <= text.len(),
    ensures
        redacted(text, from).len() > 0 ==> from < text.len() && (redacted(text, from)[0]
            == text[from] || redacted(text, from)[0] == '<'),
{
    reveal_strlit("'<path>'");
    reveal_strlit("'<path>");
    reveal_strlit("<path>");
}

proof fn lemma_no_path_behind(front: Seq<char>, rest: Seq<char>)
    requires
        front == "'<path>'"@ || front == "'<path>"@ || front == "<path>"@,
        forall|i: int| !#[trigger] starts_path(rest, i),
    ensures
        forall|i: int| !#[trigger] starts_path(front + rest, i),
{
    reveal_strlit("'<path>'");
    reveal_strlit("'<path>");
    reveal_strlit("<path>");
    let whole = front + rest;
    assert forall|i: int| !#[trigger] starts_path(whole, i) by {
        if i >= front.len() {
            assert(!starts_path(rest, i - front.len()));
            assert(forall|j: int| front.len() <= j < whole.len() ==> #[trigger] whole[j] == rest[j - front.len()]);
        } else if 0 <= i {
            assert(whole[i] == front[i]);
            if i + 1 < front.len() {
                assert(whole[i + 1] == front[i + 1]);
            }
        }
    }
}

/// No absolute path is left in a redacted message.
pub proof fn law_redacted_message_holds_no_path(text: Seq<char>, from: int)
    requires
        0 <= from <= text.len(),
    ensures
        forall|i: int| !#[trigger] starts_path(redacted(text, from), i),
    decreases text.len() - from,
{
    let whole = redacted(text, from);
    if from >= text.len() {
    } else if text[from] == '\'' && starts_path(text, from + 1) {
        lemma_closing_quote(text, from + 1, text.len() as int);
        match closing_quote(text, from + 1, text.len() as int) {
            Some(at) => {
                law_redacted_message_holds_no_path(text, at + 1);
                lemma_no_path_behind("'<path>'"@, redacted(text, at + 1));
            },
            None => {
                lemma_no_path_behind("'<path>"@, Seq::empty());
                assert("'<path>"@ + Seq::empty() =~= "'<path>"@);
            },
        }
    } else if starts_path(text, from) {
        lemma_path_end(text, from);
        law_redacted_message_holds_no_path(text, path_end(text, from));
        lemma_no_path_behind("<path>"@, redacted(text, path_end(text, from)));
    } else {
        let rest = redacted(text, from + 1);
        law_redacted_message_holds_no_path(text, from + 1);
        lemma_redacted_first(text, from + 1);
        assert(whole == seq![text[from]] + rest);
        if from + 2 <= text.len() {
            lemma_redacted_first(text, from + 2);
        }
        assert forall|i: int| !#[trigger] starts_path(whole, i) by {
            if i > 0 {
                assert(!starts_path(rest, i - 1));
                assert(forall|j: int| 1 <= j < whole.len() ==> #[trigger] whole[j] == rest[j - 1]);
            } else if i == 0 {
                assert(whole[0] == text[from]);
                if whole.len() > 1 {
                    assert(whole[1] == rest[0]);
                    if rest[0] == ':' {
                        reveal_strlit("<path>");
                        assert(rest == seq![text[from + 1]] + redacted(text, from + 2));
                        if whole.len() > 2 {
                            assert(whole[2] == redacted(text, from + 2)[0]);
                        }
                    }
                }
            }
        }
    }
}

/// The path that a tool error is reported for: the one it is about where that
/// lies below the base, and the target otherwise.
pub fn tool_error_path(base: &str, target: &str, error_path: &str) -> (path: String)
    ensures
        path@ == (if is_under(error_path@, base@) {
            error_path@
        } else {
            target@
        }),
{
    if path_starts_with(error_path, base) {
        owned(error_path)
    } else {
        owned(target)
    }
}

/// What the file system says of a candidate for a marker file.
#[derive(Debug)]
pub struct MarkerFacts {
    /// It is a symbolic link that leads out of the directory.
    pub escapes: bool,
    /// It exists, behind links, and is a plain file.
    pub is_file: bool,
    /// The physical place of the directory, where known.
    pub root: Option<String>,
    /// The physical place of the candidate, where known.
    pub place: Option<String>,
}

/// A candidate counts where it is a plain file that does not lie outside.
pub open spec fn counts_as_marker(facts: MarkerFacts) -> bool {
    &&& !facts.escapes
    &&& facts.is_file
    &&& match (facts.root, facts.place) {
        (Some(root), Some(place)) => is_under(place@, root@),
        _ => true,
    }
}

/// Whether a candidate for a marker file counts.
pub fn marker_file_under_root(facts: &MarkerFacts) -> (holds: bool)
    ensures
        holds == counts_as_marker(*facts),
{
    if facts.escapes || !facts.is_file {
        return false;
    }
    match (&facts.root, &facts.place) {
        (Some(root), Some(place)) => path_starts_with(place.as_str(), root.as_str()),
        _ => true,
    }
}

/// The marker files of one directory.
#[derive(Debug, Clone, Copy, PartialEq, Eq, Structural)]
pub struct Markers {
    pub manifest: bool,
    pub host: bool,
    pub workflow_parameters: bool,
    pub connections: bool,
    /// A parameters file that belongs to a project.
    pub parameters: bool,
}

/// A project root by the files that every project has.
pub open spec fn marks_root(markers: Markers) -> bool {
    markers.manifest || markers.host
}

/// A project root by the files that a project may have.
pub open spec fn hints_at_root(markers: Markers) -> bool {
    markers.workflow_parameters || markers.connections || markers.parameters
}

/// `i` is the first directory for which `holds`.
pub open spec fn is_first(list: Seq<Markers>, holds: spec_fn(Markers) -> bool, i: int) -> bool {
    &&& 0 <= i < list.len()
    &&& holds(list[i])
    &&& forall|j: int| 0 <= j < i ==> !holds(#[trigger] list[j])
}

/// Choose the directory that paths are shown relative to, from the markers of
/// a start directory and its ancestors, nearest first. The nearest one with a
/// manifest or a host file wins; without any, the nearest one with another
/// project file.
pub fn project_output_base(markers: &[Markers]) -> (found: Option<usize>)
    ensures
        match found {
            Some(i) => {
                ||| is_first(markers@, |m: Markers| marks_root(m), i as int)
                ||| (forall|j: int| 0 <= j < markers@.len() ==> !marks_root(#[trigger] markers@[j]))
                    && is_first(markers@, |m: Markers| hints_at_root(m), i as int)
            },
            None => forall|j: int|
                0 <= j < markers@.len() ==> !marks_root(#[trigger] markers@[j]) && !hints_at_root(
                    markers@[j],
                ),
        },
{
    let length: usize = markers.len();
    let mut i: usize = 0;
    while i < length
        invariant
            i <= length,
            length == markers@.len(),
            forall|j: int| 0 <= j < i ==> !marks_root(#[trigger] markers@[j]),
        decreases length - i,
    {
        if markers[i].manifest || markers[i].host {
            return Some(i);
        }
        i += 1;
    }
    let mut k: usize = 0;
    while k < length
        invariant
            k <= length,
            length == markers@.len(),
            forall|j: int| 0 <= j < length ==> !marks_root(#[trigger] markers@[j]),
            forall|j: int| 0 <= j < k ==> !hints_at_root(#[trigger] markers@[j]),
        decreases length - k,
    {
        if markers[k].workflow_parameters || markers[k].connections || markers[k].parameters {
            return Some(k);
        }
        k += 1;
    }
    None
}

} // verus!
