//! Central policy table for the strict / lenient split.
//!
//! Rules always emit their strict diagnostic. This module then relaxes the
//! collected set for lenient callers: it drops diagnostics whose only sin is
//! case divergence from an enum that the runtime tolerates, and downgrades
//! registry gaps (unknown action or trigger type, unregistered kind,
//! unregistered `operationOptions` token) to warnings.
//!
//! The module reads diagnostic messages as an internal contract: a rule that
//! rewords one of the relaxed messages has to change this file too.

use vstd::prelude::*;

use crate::diagnostic::{
    findings, lemma_findings_index, lemma_findings_push, Diagnostic, Finding, Severity,
};
use crate::text::{
    chars_of, contains, ends_with, folded, has_part, has_prefix, has_suffix, in_list_ignoring_case,
    names, occurs_at, one_of_ignoring_case, same_ignoring_case, starts_with,
    string_of_range, text_eq,
};

verus! {

/// The position of the first single quote of `text` at or after `from`; the
/// length of `text` where there is none.
pub open spec fn next_quote(text: Seq<char>, from: int) -> int
    decreases text.len() - from,
{
    if from < 0 || from >= text.len() {
        text.len() as int
    } else if text[from] == '\'' {
        from
    } else {
        next_quote(text, from + 1)
    }
}

/// What stands between the first pair of single quotes.
pub open spec fn quoted_token(message: Seq<char>) -> Option<Seq<char>> {
    let open = next_quote(message, 0);
    let close = next_quote(message, open + 1);
    if open < message.len() && close < message.len() {
        Some(message.subrange(open + 1, close))
    } else {
        None
    }
}

/// The `runAfter` statuses as the schema spells them.
pub open spec fn status_literals() -> Seq<Seq<char>> {
    seq!["Succeeded"@, "Failed"@, "Skipped"@, "TimedOut"@]
}

/// The primitive parameter types as the schema spells them.
pub open spec fn parameter_type_literals() -> Seq<Seq<char>> {
    seq![
        "String"@,
        "SecureString"@,
        "Int"@,
        "Integer"@,
        "Float"@,
        "Bool"@,
        "Boolean"@,
        "Array"@,
        "Object"@,
        "SecureObject"@,
    ]
}

/// The first quoted token of `message` is one of `literals`, whatever its case.
pub open spec fn quotes_case_variant(message: Seq<char>, literals: Seq<Seq<char>>) -> bool {
    match quoted_token(message) {
        Some(token) => one_of_ignoring_case(token, literals),
        None => false,
    }
}

/// A message about a kind or an operation option that is not registered.
pub open spec fn names_registry_gap(message: Seq<char>) -> bool {
    &&& has_suffix(message, "' is not supported"@)
    &&& {
        ||| has_part(message, " kind '"@)
        ||| has_prefix(message, "action operationOptions '"@)
        ||| has_prefix(message, "trigger operationOptions '"@)
    }
}

/// The runtime accepts what the diagnostic complains about.
pub open spec fn is_tolerated(finding: Finding) -> bool {
    ||| finding.code == "runafter-invalid-status"@ && quotes_case_variant(
        finding.message,
        status_literals(),
    )
    ||| finding.code == "workflow-shape-invalid-value"@ && has_prefix(
        finding.message,
        "definition parameter type "@,
    ) && quotes_case_variant(finding.message, parameter_type_literals())
}

/// The diagnostic may only mean that a registry has fallen behind.
pub open spec fn is_registry_gap(finding: Finding) -> bool {
    ||| finding.code == "workflow-shape-unknown-type"@
    ||| finding.code == "workflow-shape-invalid-value"@ && names_registry_gap(finding.message)
}

/// `finding` as a warning.
pub open spec fn downgraded(finding: Finding) -> Finding {
    Finding { severity: Severity::Warning, ..finding }
}

/// What is left of a diagnostic for a lenient caller.
pub open spec fn relaxed(finding: Finding) -> Option<Finding> {
    if is_tolerated(finding) {
        None
    } else if is_registry_gap(finding) {
        Some(downgraded(finding))
    } else {
        Some(finding)
    }
}

/// What is left of a list of diagnostics for a lenient caller, in order.
pub open spec fn relaxed_list(list: Seq<Finding>) -> Seq<Finding>
    decreases list.len(),
{
    if list.len() == 0 {
        Seq::empty()
    } else {
        match relaxed(list.last()) {
            Some(finding) => relaxed_list(list.drop_last()).push(finding),
            None => relaxed_list(list.drop_last()),
        }
    }
}

/// What a caller gets to see of a list of diagnostics.
pub open spec fn shown(list: Seq<Finding>, strict: bool) -> Seq<Finding> {
    if strict {
        list
    } else {
        relaxed_list(list)
    }
}

fn find_quote(text: &[char], from: usize) -> (at: usize)
    requires
        from <= text@.len(),
    ensures
        at == next_quote(text@, from as int),
        from <= at <= text@.len(),
{
    let length: usize = text.len();
    let mut at: usize = from;
    while at < length && text[at] != '\''
        invariant
            from <= at <= length,
            length == text@.len(),
            next_quote(text@, from as int) == next_quote(text@, at as int),
        decreases length - at,
    {
        at += 1;
    }
    at
}

/// Extract what stands between the first pair of single quotes.
fn extract_first_quoted_token(message: &str) -> (token: Option<String>)
    ensures
        match token {
            Some(text) => quoted_token(message@) == Some(text@),
            None => quoted_token(message@) is None,
        },
{
    let text = chars_of(message);
    let open = find_quote(text.as_slice(), 0);
    if open == text.len() {
        return None;
    }
    let close = find_quote(text.as_slice(), open + 1);
    if close == text.len() {
        return None;
    }
    Some(string_of_range(text.as_slice(), open + 1, close))
}

fn is_case_variant_of_runafter_status(message: &str) -> (holds: bool)
    ensures
        holds == quotes_case_variant(message@, status_literals()),
{
    match extract_first_quoted_token(message) {
        Some(token) => {
            let literals = vec!["Succeeded", "Failed", "Skipped", "TimedOut"];
            assert(names(literals@) =~= status_literals());
            in_list_ignoring_case(token.as_str(), literals.as_slice())
        },
        None => false,
    }
}

fn is_parameter_type_case_variant(message: &str) -> (holds: bool)
    ensures
        holds == (has_prefix(message@, "definition parameter type "@) && quotes_case_variant(
            message@,
            parameter_type_literals(),
        )),
{
    if !starts_with(message, "definition parameter type ") {
        return false;
    }
    match extract_first_quoted_token(message) {
        Some(token) => {
            let literals = vec![
                "String",
                "SecureString",
                "Int",
                "Integer",
                "Float",
                "Bool",
                "Boolean",
                "Array",
                "Object",
                "SecureObject",
            ];
            assert(names(literals@) =~= parameter_type_literals());
            in_list_ignoring_case(token.as_str(), literals.as_slice())
        },
        None => false,
    }
}

fn is_registry_gap_invalid_value(message: &str) -> (holds: bool)
    ensures
        holds == names_registry_gap(message@),
{
    ends_with(message, "' is not supported") && (contains(message, " kind '") || starts_with(
        message,
        "action operationOptions '",
    ) || starts_with(message, "trigger operationOptions '"))
}

pub proof fn lemma_codes_differ()
    ensures
        "runafter-invalid-status"@ != "workflow-shape-unknown-type"@,
        "runafter-invalid-status"@ != "workflow-shape-invalid-value"@,
        "workflow-shape-unknown-type"@ != "workflow-shape-invalid-value"@,
{
    reveal_strlit("runafter-invalid-status");
    reveal_strlit("workflow-shape-unknown-type");
    reveal_strlit("workflow-shape-invalid-value");
    assert("runafter-invalid-status"@.len() != "workflow-shape-unknown-type"@.len());
    assert("runafter-invalid-status"@.len() != "workflow-shape-invalid-value"@.len());
    assert("workflow-shape-unknown-type"@.len() != "workflow-shape-invalid-value"@.len());
}

/// Apply the lenient policy to one diagnostic.
fn relax_diagnostic(diagnostic: &Diagnostic) -> (kept: Option<Diagnostic>)
    ensures
        match kept {
            Some(left) => relaxed(diagnostic@) == Some(left@),
            None => relaxed(diagnostic@) is None,
        },
{
    proof {
        lemma_codes_differ();
    }
    let code = diagnostic.code.as_str();
    let message = diagnostic.message.as_str();
    let mut kept = diagnostic.duplicate();
    if text_eq(code, "runafter-invalid-status") {
        if is_case_variant_of_runafter_status(message) {
            return None;
        }
    } else if text_eq(code, "workflow-shape-unknown-type") {
        kept.severity = Severity::Warning;
    } else if text_eq(code, "workflow-shape-invalid-value") {
        if is_parameter_type_case_variant(message) {
            return None;
        }
        if is_registry_gap_invalid_value(message) {
            kept.severity = Severity::Warning;
        }
    }
    Some(kept)
}

/// Apply the strict / lenient policy to a diagnostic set.
///
/// A strict caller gets the input unchanged. For a lenient one, case variants
/// that the runtime tolerates are dropped and registry gaps become warnings.
pub fn relax_diagnostics(diagnostics: Vec<Diagnostic>, strict: bool) -> (kept: Vec<Diagnostic>)
    ensures
        findings(kept@) == shown(findings(diagnostics@), strict),
{
    if strict {
        return diagnostics;
    }
    let mut kept: Vec<Diagnostic> = Vec::new();
    let ghost all = findings(diagnostics@);
    proof {
        lemma_findings_index(diagnostics@);
        lemma_findings_index(kept@);
        assert(findings(kept@) =~= relaxed_list(all.take(0)));
    }
    let mut i: usize = 0;
    while i < diagnostics.len()
        invariant
            i <= diagnostics.len(),
            all == findings(diagnostics@),
            findings(kept@) == relaxed_list(all.take(i as int)),
        decreases diagnostics.len() - i,
    {
        proof {
            lemma_findings_index(diagnostics@);
            assert(all.take(i + 1).drop_last() =~= all.take(i as int));
        }
        if let Some(left) = relax_diagnostic(&diagnostics[i]) {
            proof {
                lemma_findings_push(kept@, left);
                assert(findings(kept@.push(left)) =~= findings(kept@).push(left@));
            }
            kept.push(left);
        }
        i += 1;
    }
    proof {
        lemma_findings_index(diagnostics@);
        assert(all.take(i as int) =~= all);
    }
    kept
}

/// A lenient caller sees the diagnostics in the same order, each as it was or
/// as a warning: for each one that is left there is the one it came from.
pub proof fn law_relaxing_only_weakens(list: Seq<Finding>)
    ensures
        relaxed_list(list).len() <= list.len(),
        forall|i: int|
            0 <= i < relaxed_list(list).len() ==> exists|j: int|
                i <= j < list.len() && relaxed(list[j]) == Some(#[trigger] relaxed_list(list)[i])
                    && (relaxed_list(list)[i] == list[j] || relaxed_list(list)[i] == downgraded(
                    list[j],
                )),
    decreases list.len(),
{
    if list.len() > 0 {
        let front = list.drop_last();
        let last = list.last();
        law_relaxing_only_weakens(front);
        assert forall|i: int| 0 <= i < relaxed_list(list).len() implies exists|j: int|
            i <= j < list.len() && relaxed(list[j]) == Some(#[trigger] relaxed_list(list)[i]) && (
            relaxed_list(list)[i] == list[j] || relaxed_list(list)[i] == downgraded(list[j])) by {
            if i < relaxed_list(front).len() {
                assert(relaxed_list(list)[i] == relaxed_list(front)[i]);
                let j = choose|j: int|
                    i <= j < front.len() && relaxed(front[j]) == Some(
                        #[trigger] relaxed_list(front)[i],
                    ) && (relaxed_list(front)[i] == front[j] || relaxed_list(front)[i]
                        == downgraded(front[j]));
                assert(list[j] == front[j]);
            } else {
                assert(list[list.len() - 1] == last);
            }
        }
    }
}

/// Relaxing twice is relaxing once.
pub proof fn law_relaxing_is_idempotent(list: Seq<Finding>)
    ensures
        relaxed_list(relaxed_list(list)) == relaxed_list(list),
    decreases list.len(),
{
    if list.len() > 0 {
        law_relaxing_is_idempotent(list.drop_last());
        if let Some(finding) = relaxed(list.last()) {
            let front = relaxed_list(list.drop_last());
            assert(front.push(finding).drop_last() =~= front);
            assert(front.push(finding).last() == finding);
            assert(relaxed(finding) == Some(finding));
        }
    }
}

/// What a lenient caller sees of two lists is what it sees of each, one after
/// the other.
pub proof fn law_relaxing_goes_one_by_one(first: Seq<Finding>, second: Seq<Finding>)
    ensures
        relaxed_list(first + second) == relaxed_list(first) + relaxed_list(second),
    decreases second.len(),
{
    if second.len() == 0 {
        assert(first + second =~= first);
        assert(relaxed_list(first) + relaxed_list(second) =~= relaxed_list(first));
    } else {
        law_relaxing_goes_one_by_one(first, second.drop_last());
        assert((first + second).drop_last() =~= first + second.drop_last());
        assert((first + second).last() == second.last());
        if let Some(finding) = relaxed(second.last()) {
            assert((relaxed_list(first) + relaxed_list(second.drop_last())).push(finding)
                =~= relaxed_list(first) + relaxed_list(second.drop_last()).push(finding));
        }
    }
}

/// The position of the first quote behind a text without quotes.
proof fn lemma_quote_behind(front: Seq<char>, back: Seq<char>, from: int)
    requires
        0 <= from <= front.len(),
        back.len() > 0,
        back[0] == '\'',
        forall|i: int| from <= i < front.len() ==> #[trigger] front[i] != '\'',
    ensures
        next_quote(front + back, from) == front.len(),
    decreases front.len() - from,
{
    let text = front + back;
    if from < front.len() {
        assert(text[from] == front[from]);
        lemma_quote_behind(front, back, from + 1);
    } else {
        assert(text[from] == back[0]);
    }
}

/// A message that quotes a text without quotes quotes just that text.
pub proof fn lemma_token_of_message(before: Seq<char>, token: Seq<char>, after: Seq<char>)
    requires
        forall|i: int| 0 <= i < before.len() ==> #[trigger] before[i] != '\'',
        forall|i: int| 0 <= i < token.len() ==> #[trigger] token[i] != '\'',
    ensures
        quoted_token(before + seq!['\''] + token + seq!['\''] + after) == Some(token),
{
    let quote = seq!['\''];
    let message = before + quote + token + quote + after;
    assert(message =~= before + (quote + token + quote + after));
    lemma_quote_behind(before, quote + token + quote + after, 0);
    let front = before + quote + token;
    assert(message =~= front + (quote + after));
    assert forall|i: int| before.len() + 1 <= i < front.len() implies #[trigger] front[i] != '\'' by {
        assert(front[i] == token[i - before.len() - 1]);
    }
    lemma_quote_behind(front, quote + after, before.len() as int + 1);
    assert(message.subrange(before.len() as int + 1, front.len() as int) =~= token);
}

/// The message about a status that is not one of the schema's.
pub open spec fn status_message(status: Seq<char>) -> Seq<char> {
    "runAfter status '"@ + status + "' is not supported"@
}

/// A lenient caller never sees a complaint about a `runAfter` status that
/// differs from the schema's spelling in case only, and sees every complaint
/// about another status without quotes.
pub proof fn law_status_case_variants_are_dropped(finding: Finding, status: Seq<char>)
    requires
        finding.code == "runafter-invalid-status"@,
        finding.message == status_message(status),
        forall|i: int| 0 <= i < status.len() ==> #[trigger] status[i] != '\'',
    ensures
        relaxed(finding) == (if one_of_ignoring_case(status, status_literals()) {
            None
        } else {
            Some(finding)
        }),
{
    lemma_codes_differ();
    reveal_strlit("runAfter status '");
    reveal_strlit("' is not supported");
    let before = "runAfter status '"@.drop_last();
    let after = "' is not supported"@.skip(1);
    assert("runAfter status '"@ =~= before + seq!['\'']);
    assert("' is not supported"@ =~= seq!['\''] + after);
    assert(status_message(status) =~= before + seq!['\''] + status + seq!['\''] + after);
    lemma_token_of_message(before, status, after);
}

/// A text that holds letters only.
spec fn is_word(text: Seq<char>) -> bool {
    forall|i: int| 0 <= i < text.len() ==> folded(#[trigger] text[i]) >= 'a' as int
}

proof fn lemma_literals_are_words()
    ensures
        forall|i: int| 0 <= i < status_literals().len() ==> is_word(#[trigger] status_literals()[i]),
        forall|i: int|
            0 <= i < parameter_type_literals().len() ==> is_word(
                #[trigger] parameter_type_literals()[i],
            ),
{
    reveal_strlit("Succeeded");
    assert("Succeeded"@ =~= seq!['S', 'u', 'c', 'c', 'e', 'e', 'd', 'e', 'd']);
    reveal_strlit("Failed");
    assert("Failed"@ =~= seq!['F', 'a', 'i', 'l', 'e', 'd']);
    reveal_strlit("Skipped");
    assert("Skipped"@ =~= seq!['S', 'k', 'i', 'p', 'p', 'e', 'd']);
    reveal_strlit("TimedOut");
    assert("TimedOut"@ =~= seq!['T', 'i', 'm', 'e', 'd', 'O', 'u', 't']);
    reveal_strlit("String");
    assert("String"@ =~= seq!['S', 't', 'r', 'i', 'n', 'g']);
    reveal_strlit("SecureString");
    assert("SecureString"@ =~= seq!['S', 'e', 'c', 'u', 'r', 'e', 'S', 't', 'r', 'i', 'n', 'g']);
    reveal_strlit("Int");
    assert("Int"@ =~= seq!['I', 'n', 't']);
    reveal_strlit("Integer");
    assert("Integer"@ =~= seq!['I', 'n', 't', 'e', 'g', 'e', 'r']);
    reveal_strlit("Float");
    assert("Float"@ =~= seq!['F', 'l', 'o', 'a', 't']);
    reveal_strlit("Bool");
    assert("Bool"@ =~= seq!['B', 'o', 'o', 'l']);
    reveal_strlit("Boolean");
    assert("Boolean"@ =~= seq!['B', 'o', 'o', 'l', 'e', 'a', 'n']);
    reveal_strlit("Array");
    assert("Array"@ =~= seq!['A', 'r', 'r', 'a', 'y']);
    reveal_strlit("Object");
    assert("Object"@ =~= seq!['O', 'b', 'j', 'e', 'c', 't']);
    reveal_strlit("SecureObject");
    assert("SecureObject"@ =~= seq!['S', 'e', 'c', 'u', 'r', 'e', 'O', 'b', 'j', 'e', 'c', 't']);
}

/// A case variant of a word holds no quote.
proof fn lemma_variant_holds_no_quote(text: Seq<char>, literals: Seq<Seq<char>>)
    requires
        one_of_ignoring_case(text, literals),
        forall|i: int| 0 <= i < literals.len() ==> is_word(#[trigger] literals[i]),
    ensures
        forall|i: int| 0 <= i < text.len() ==> #[trigger] text[i] != '\'',
{
    let k = choose|k: int|
        0 <= k < literals.len() && same_ignoring_case(text, #[trigger] literals[k]);
    assert(is_word(literals[k]));
    assert forall|i: int| 0 <= i < text.len() implies #[trigger] text[i] != '\'' by {
        assert(folded(text[i]) == folded(literals[k][i]));
    }
}

/// A lenient caller never sees a complaint about a `runAfter` status that is a
/// case variant of one of the schema's, whatever rule made it.
pub proof fn law_status_variants_are_tolerated(finding: Finding, status: Seq<char>)
    requires
        finding.code == "runafter-invalid-status"@,
        finding.message == status_message(status),
        one_of_ignoring_case(status, status_literals()),
    ensures
        relaxed(finding) is None,
{
    lemma_literals_are_words();
    lemma_variant_holds_no_quote(status, status_literals());
    law_status_case_variants_are_dropped(finding, status);
}

/// The message about a parameter type that is not one of the schema's.
pub open spec fn parameter_type_message(kind: Seq<char>) -> Seq<char> {
    "definition parameter type '"@ + kind + "' is not supported"@
}

/// A lenient caller never sees a complaint about a parameter type that is a
/// case variant of one of the schema's.
pub proof fn law_parameter_type_variants_are_tolerated(finding: Finding, kind: Seq<char>)
    requires
        finding.code == "workflow-shape-invalid-value"@,
        finding.message == parameter_type_message(kind),
        one_of_ignoring_case(kind, parameter_type_literals()),
    ensures
        relaxed(finding) is None,
{
    lemma_literals_are_words();
    lemma_variant_holds_no_quote(kind, parameter_type_literals());
    reveal_strlit("definition parameter type '");
    reveal_strlit("definition parameter type ");
    reveal_strlit("' is not supported");
    let before = "definition parameter type '"@.drop_last();
    let after = "' is not supported"@.skip(1);
    assert("definition parameter type '"@ =~= before + seq!['\'']);
    assert("' is not supported"@ =~= seq!['\''] + after);
    assert(parameter_type_message(kind) =~= before + seq!['\''] + kind + seq!['\''] + after);
    lemma_token_of_message(before, kind, after);
    assert(before =~= "definition parameter type "@);
    assert(finding.message.subrange(0, before.len() as int) =~= before);
}

/// The message about a kind that is not registered.
pub open spec fn kind_message(label: Seq<char>, kind: Seq<char>) -> Seq<char> {
    label + " kind '"@ + kind + "' is not supported"@
}

/// A lenient caller sees every complaint about a kind that is not registered,
/// as a warning.
pub proof fn law_unregistered_kinds_are_warnings(
    finding: Finding,
    label: Seq<char>,
    kind: Seq<char>,
)
    requires
        finding.code == "workflow-shape-invalid-value"@,
        finding.message == kind_message(label, kind),
        label == "workflow"@ || label == "trigger"@ || label == "action"@,
    ensures
        relaxed(finding) == Some(downgraded(finding)),
{
    lemma_codes_differ();
    reveal_strlit("workflow");
    reveal_strlit("trigger");
    reveal_strlit("action");
    reveal_strlit(" kind '");
    reveal_strlit("' is not supported");
    reveal_strlit("definition parameter type ");
    let message = finding.message;
    let part = " kind '"@;
    let last = "' is not supported"@;
    assert(message.subrange(label.len() as int, label.len() as int + part.len()) =~= part);
    assert(occurs_at(message, part, label.len() as int));
    assert(message.subrange(message.len() - last.len(), message.len() as int) =~= last);
    if has_prefix(message, "definition parameter type "@) {
        let prefix = "definition parameter type "@;
        assert(message.subrange(0, prefix.len() as int)[0] == message[0]);
        assert(message[0] == label[0]);
    }
}

/// The message about an `operationOptions` token that is not registered.
pub open spec fn option_message(label: Seq<char>, token: Seq<char>) -> Seq<char> {
    label + " operationOptions '"@ + token + "' is not supported"@
}

/// A lenient caller sees every complaint about an `operationOptions` token that
/// is not registered, on an action as on a trigger, as a warning.
pub proof fn law_unregistered_options_are_warnings(
    finding: Finding,
    label: Seq<char>,
    token: Seq<char>,
)
    requires
        finding.code == "workflow-shape-invalid-value"@,
        finding.message == option_message(label, token),
        label == "trigger"@ || label == "action"@,
    ensures
        relaxed(finding) == Some(downgraded(finding)),
{
    lemma_codes_differ();
    reveal_strlit("trigger");
    reveal_strlit("action");
    reveal_strlit(" operationOptions '");
    reveal_strlit("action operationOptions '");
    reveal_strlit("trigger operationOptions '");
    reveal_strlit("' is not supported");
    reveal_strlit("definition parameter type ");
    let message = finding.message;
    let last = "' is not supported"@;
    let first = label + " operationOptions '"@;
    assert(message.subrange(0, first.len() as int) =~= first);
    if label == "action"@ {
        assert(first =~= "action operationOptions '"@);
    } else {
        assert(first =~= "trigger operationOptions '"@);
    }
    assert(message.subrange(message.len() - last.len(), message.len() as int) =~= last);
    if has_prefix(message, "definition parameter type "@) {
        let prefix = "definition parameter type "@;
        assert(message.subrange(0, prefix.len() as int)[0] == message[0]);
        assert(message[0] == label[0]);
    }
}

} // verus!
