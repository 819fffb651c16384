//! What a run shows, what it fails on and what it keeps to itself.

use vstd::prelude::*;

use crate::cli::{asks_for_json, bare_end, closing_quote, is_white, overridden, redacted};
use crate::cli::{overridden_list, has_error};
use crate::deployment::{is_deployment, is_root_key};
use crate::diagnostic::{is_control, sanitized, Finding, Severity};
use crate::json::{field, text_field, Json, Member, Node};
use crate::strictness::{
    law_status_case_variants_are_dropped, lemma_codes_differ, lemma_token_of_message,
    parameter_type_literals, relaxed, relaxed_list, status_literals,
};
use crate::text::{has_prefix, occurs_at, one_of_ignoring_case, same_ignoring_case};

verus! {

proof fn lemma_status_literals(name: Seq<char>)
    ensures
        one_of_ignoring_case(name, status_literals()) == (same_ignoring_case(name, "Succeeded"@) || same_ignoring_case(name, "Failed"@) || same_ignoring_case(name, "Skipped"@) || same_ignoring_case(name, "TimedOut"@)),
{
    let list = status_literals();
    assert(list[0] == "Succeeded"@);
    assert(list[1] == "Failed"@);
    assert(list[2] == "Skipped"@);
    assert(list[3] == "TimedOut"@);
    if one_of_ignoring_case(name, list) {
        let k = choose|k: int| 0 <= k < list.len() && same_ignoring_case(name, #[trigger] list[k]);
        assert(same_ignoring_case(name, list[k]));
    }
}

proof fn lemma_parameter_type_literals(name: Seq<char>)
    ensures
        one_of_ignoring_case(name, parameter_type_literals()) == (same_ignoring_case(name, "String"@) || same_ignoring_case(name, "SecureString"@) || same_ignoring_case(name, "Int"@) || same_ignoring_case(name, "Integer"@) || same_ignoring_case(name, "Float"@) || same_ignoring_case(name, "Bool"@) || same_ignoring_case(name, "Boolean"@) || same_ignoring_case(name, "Array"@) || same_ignoring_case(name, "Object"@) || same_ignoring_case(name, "SecureObject"@)),
{
    let list = parameter_type_literals();
    assert(list[0] == "String"@);
    assert(list[1] == "SecureString"@);
    assert(list[2] == "Int"@);
    assert(list[3] == "Integer"@);
    assert(list[4] == "Float"@);
    assert(list[5] == "Bool"@);
    assert(list[6] == "Boolean"@);
    assert(list[7] == "Array"@);
    assert(list[8] == "Object"@);
    assert(list[9] == "SecureObject"@);
    if one_of_ignoring_case(name, list) {
        let k = choose|k: int| 0 <= k < list.len() && same_ignoring_case(name, #[trigger] list[k]);
        assert(same_ignoring_case(name, list[k]));
    }
}

/// A complaint about a status is dropped for a lenient caller exactly where the
/// status is one of the four that actions end with, in other letters.
pub proof fn law_four_statuses_are_tolerated(finding: Finding, status: Seq<char>)
    requires
        finding.code == "runafter-invalid-status"@,
        finding.message == "runAfter status '"@ + status + "' is not supported"@,
        forall|i: int| 0 <= i < status.len() ==> #[trigger] status[i] != '\'',
    ensures
        (relaxed(finding) is None) == (same_ignoring_case(status, "Succeeded"@) || same_ignoring_case(status, "Failed"@) || same_ignoring_case(status, "Skipped"@) || same_ignoring_case(status, "TimedOut"@)),
        relaxed(finding) is Some ==> relaxed(finding) == Some(finding),
{
    law_status_case_variants_are_dropped(finding, status);
    lemma_status_literals(status);
}

/// A complaint about the type of a parameter is dropped for a lenient caller
/// exactly where the type is one of those of the schema, in other letters or by
/// its long name.
pub proof fn law_parameter_types_are_tolerated(finding: Finding, kind: Seq<char>)
    requires
        finding.code == "workflow-shape-invalid-value"@,
        finding.message == "definition parameter type '"@ + kind + "' is not supported"@,
        forall|i: int| 0 <= i < kind.len() ==> #[trigger] kind[i] != '\'',
    ensures
        (relaxed(finding) is None) == (same_ignoring_case(kind, "String"@) || same_ignoring_case(kind, "SecureString"@) || same_ignoring_case(kind, "Int"@) || same_ignoring_case(kind, "Integer"@) || same_ignoring_case(kind, "Float"@) || same_ignoring_case(kind, "Bool"@) || same_ignoring_case(kind, "Boolean"@) || same_ignoring_case(kind, "Array"@) || same_ignoring_case(kind, "Object"@) || same_ignoring_case(kind, "SecureObject"@)),
{
    lemma_codes_differ();
    reveal_strlit("definition parameter type '");
    reveal_strlit("definition parameter type ");
    reveal_strlit("' is not supported");
    let before = "definition parameter type '"@.drop_last();
    let after = "' is not supported"@.skip(1);
    assert("definition parameter type '"@ =~= before + seq!['\'']);
    assert("' is not supported"@ =~= seq!['\''] + after);
    assert(finding.message =~= before + seq!['\''] + kind + seq!['\''] + after);
    lemma_token_of_message(before, kind, after);
    assert(before =~= "definition parameter type "@);
    assert(finding.message.take(before.len() as int) =~= before);
    assert(has_prefix(finding.message, "definition parameter type "@));
    lemma_parameter_type_literals(kind);
}

/// A complaint of any other code reaches a lenient caller as it is.
pub proof fn law_other_codes_are_kept(finding: Finding)
    requires
        finding.code != "runafter-invalid-status"@,
        finding.code != "workflow-shape-invalid-value"@,
        finding.code != "workflow-shape-unknown-type"@,
    ensures
        relaxed(finding) == Some(finding),
{
}

/// A complaint about an unknown type reaches a lenient caller as a warning, and
/// otherwise as it is.
pub proof fn law_unknown_types_are_warnings(finding: Finding)
    requires
        finding.code == "workflow-shape-unknown-type"@,
    ensures
        relaxed(finding) is Some,
        (relaxed(finding)->Some_0).severity == Severity::Warning,
        (relaxed(finding)->Some_0) == (Finding { severity: Severity::Warning, ..finding }),
{
    lemma_codes_differ();
}

/// An override drops what is allowed, turns what is to be a warning into one,
/// and leaves the rest as it is.
pub proof fn law_overrides_go_by_code(finding: Finding, allow: Seq<String>, warn: Seq<String>)
    ensures
        (overridden(finding, allow, warn) is None) == (exists|i: int|
            0 <= i < allow.len() && (#[trigger] allow[i])@ == finding.code),
        overridden(finding, allow, warn) is Some ==> overridden(finding, allow, warn) == Some(
            Finding {
                severity: if exists|i: int|
                    0 <= i < warn.len() && (#[trigger] warn[i])@ == finding.code {
                    Severity::Warning
                } else {
                    finding.severity
                },
                ..finding
            },
        ),
{
}

/// Overrides and leniency leave every diagnostic that they do not speak of, and
/// in its place: what they leave of a list that ends with it ends with it.
pub proof fn law_errors_of_other_codes_fail(
    list: Seq<Finding>,
    finding: Finding,
    allow: Seq<String>,
    warn: Seq<String>,
)
    requires
        finding.severity == Severity::Error,
        forall|i: int| 0 <= i < allow.len() ==> (#[trigger] allow[i])@ != finding.code,
        forall|i: int| 0 <= i < warn.len() ==> (#[trigger] warn[i])@ != finding.code,
        finding.code != "runafter-invalid-status"@,
        finding.code != "workflow-shape-invalid-value"@,
        finding.code != "workflow-shape-unknown-type"@,
    ensures
        overridden_list(list.push(finding), allow, warn) == overridden_list(
            list,
            allow,
            warn,
        ).push(finding),
        has_error(overridden_list(list.push(finding), allow, warn)),
        relaxed_list(list.push(finding)) == relaxed_list(list).push(finding),
        has_error(relaxed_list(list.push(finding))),
{
    let all = list.push(finding);
    assert(all.drop_last() =~= list);
    let left = overridden_list(all, allow, warn);
    assert(left[left.len() - 1] == finding);
    let shown = relaxed_list(all);
    assert(shown[shown.len() - 1] == finding);
}

/// An argument that decides on the format of the output.
pub open spec fn decides_format(arg: Seq<char>) -> bool {
    arg == "--"@ || arg == "--format"@ || arg == "--format=json"@
}

/// The output is for machines exactly where the first argument that decides on
/// it is `--format=json`, or `--format` with `json` behind it.
pub proof fn law_the_first_format_counts(args: Seq<String>, from: int, at: int)
    requires
        0 <= from <= at <= args.len(),
        forall|i: int| from <= i < at ==> !decides_format((#[trigger] args[i])@),
        at < args.len() ==> decides_format(args[at]@),
    ensures
        asks_for_json(args, from) == (at < args.len() && (args[at]@ == "--format=json"@ || (
        args[at]@ == "--format"@ && at + 1 < args.len() && args[at + 1]@ == "json"@))),
    decreases at - from,
{
    reveal_strlit("--");
    reveal_strlit("--format");
    reveal_strlit("--format=json");
    assert("--"@.len() == 2 && "--"@[0] == '-');
    assert("--format"@.len() == 8 && "--format"@[0] == '-');
    assert("--format=json"@.len() == 13 && "--format=json"@[0] == '-');
    if from < at {
        assert(!decides_format(args[from]@));
        law_the_first_format_counts(args, from + 1, at);
    }
}

proof fn lemma_bare_end_at(text: Seq<char>, from: int, end: int)
    requires
        0 <= from <= end <= text.len(),
        forall|i: int| from <= i < end ==> !is_white(#[trigger] text[i]) && text[i] != '\''
            && text[i] != '"',
        end < text.len() ==> text[end] == ' ',
    ensures
        bare_end(text, from) == end,
    decreases end - from,
{
    if from < end {
        lemma_bare_end_at(text, from + 1, end);
    }
}

proof fn lemma_no_closing_quote(text: Seq<char>, from: int, end: int)
    requires
        0 <= from,
        end <= text.len(),
        forall|i: int| 0 <= i < text.len() ==> #[trigger] text[i] != '\'',
    ensures
        closing_quote(text, from, end) is None,
    decreases end - from,
{
    if from < end {
        lemma_no_closing_quote(text, from, end - 1);
    }
}

/// An absolute path in a message without quotes is left out up to the next
/// space.
pub proof fn law_paths_are_left_out(text: Seq<char>, from: int, end: int)
    requires
        0 <= from < end <= text.len(),
        text[from] == '/',
        forall|i: int| 0 <= i < text.len() ==> #[trigger] text[i] != '\'' && text[i] != '"',
        forall|i: int| from <= i < end ==> !is_white(#[trigger] text[i]),
        end < text.len() ==> text[end] == ' ',
    ensures
        redacted(text, from) == "<path>"@ + redacted(text, end),
{
    lemma_bare_end_at(text, from, end);
    lemma_no_closing_quote(text, from, text.len() as int);
}

/// The value of a hexadecimal digit.
pub open spec fn hex_value(c: char) -> int {
    if '0' <= c <= '9' {
        c as int - '0' as int
    } else {
        c as int - 'a' as int + 10
    }
}

/// A control character is shown by its code: a backslash, `x` and the two
/// hexadecimal digits of its number.
pub proof fn law_control_characters_are_shown_by_code(c: char)
    requires
        (c as int) < 32 || 127 <= c as int <= 159,
    ensures
        sanitized(seq![c]).len() == 4,
        sanitized(seq![c])[0] == '\\',
        sanitized(seq![c])[1] == 'x',
        16 * hex_value(sanitized(seq![c])[2]) + hex_value(sanitized(seq![c])[3]) == c as int,
{
    let text = seq![c];
    assert(text.drop_last() =~= Seq::<char>::empty());
    assert(sanitized(text.drop_last()).len() == 0);
    assert(is_control(c));
    let high = c as int / 16;
    let low = c as int % 16;
    assert(0 <= high < 10);
    assert(0 <= low < 16);
    assert(sanitized(text)[2] == crate::diagnostic::hex_digits()[high]);
    assert(sanitized(text)[3] == crate::diagnostic::hex_digits()[low]);
    assert(hex_value(crate::diagnostic::hex_digits()[high]) == high);
    assert(hex_value(crate::diagnostic::hex_digits()[low]) == low);
    assert(16 * high + low == c as int);
}

/// A file that names the schema of deployment parameters is taken for one.
pub proof fn law_the_schema_tells_deployments(value: &Node, before: Seq<char>, after: Seq<char>)
    requires
        text_field(value, "$schema"@) == Some(before + "/deploymentParameters.json"@ + after),
    ensures
        is_deployment(value),
{
    let schema = before + "/deploymentParameters.json"@ + after;
    let part = "/deploymentParameters.json"@;
    assert(schema.subrange(before.len() as int, before.len() as int + part.len()) =~= part);
    assert(occurs_at(schema, part, before.len() as int));
}

/// A file without a schema is taken for deployment parameters exactly where it
/// holds nothing else and gives each parameter a value or a reference, and no
/// type.
pub proof fn law_assignments_tell_deployments(
    value: &Node,
    root: Vec<Member>,
    members: Vec<Member>,
)
    requires
        value.kind == Json::Object(root),
        field(value, "$schema"@) is None,
        field(value, "parameters"@) is Some,
        (field(value, "parameters"@)->Some_0).kind == Json::Object(members),
        members@.len() > 0,
    ensures
        is_deployment(value) == {
            &&& forall|i: int|
                0 <= i < root@.len() ==> {
                    let name = (#[trigger] root@[i]).name@;
                    name == "$schema"@ || name == "contentVersion"@ || name == "parameters"@
                }
            &&& forall|i: int|
                0 <= i < members@.len() ==> {
                    let given = (#[trigger] members@[i]).value;
                    &&& given.kind is Object
                    &&& field(&given, "value"@) is Some || field(&given, "reference"@) is Some
                    &&& field(&given, "type"@) is None
                }
        },
{
    let named = forall|i: int| 0 <= i < root@.len() ==> is_root_key((#[trigger] root@[i]).name@);
    if named {
        assert forall|i: int| 0 <= i < root@.len() implies ({
            let name = (#[trigger] root@[i]).name@;
            name == "$schema"@ || name == "contentVersion"@ || name == "parameters"@
        }) by {
            assert(is_root_key(root@[i].name@));
        }
    }
}

} // verus!
