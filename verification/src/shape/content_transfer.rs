//! `runtimeConfiguration.contentTransfer`.
//!
//! Chunked transfer is for actions of a few types only, and not for Stateless
//! workflows. Tracked properties of such an action may not read the parts of its
//! output that chunked transfer suppresses.

use vstd::prelude::*;

use crate::diagnostic::{findings, Diagnostic, Finding};
use crate::json::{
    as_string, field, get, get_string, joined, pointer_join, text_field, text_of, Document, Json,
    Member, Node,
};
use crate::shape::arm_boundary::{
    authored, checked, get_authored, get_checked, is_opaque, is_opaque_arm_expression,
};
use crate::shape::field_validators::{
    caseless_enum_findings, validate_optional_string_enum_ignore_case,
};
use crate::shape::node_type::{type_is_one_of, node_type_is_one_of};
use crate::shape::report::{issue, report};
use crate::text::{
    chars_of, decimal, decimal_of_usize, eq_ignoring_case, names, same_ignoring_case,
    string_of_range, text2, text_eq,
};
use crate::workflow::{stateless, Workflow};
use crate::wdl::lex::{is_space, space};
use crate::wdl::segments::{bodies_of, expression_bodies, expression_segments};

verus! {

broadcast use crate::diagnostic::group_findings;

pub open spec fn transfer_mode_names() -> Seq<Seq<char>> {
    seq!["Chunked"@]
}

fn transfer_mode_list() -> (list: Vec<&'static str>)
    ensures
        names(list@) == transfer_mode_names(),
{
    let list = vec!["Chunked"];
    assert(names(list@) =~= transfer_mode_names());
    list
}

pub open spec fn transfer_type_names() -> Seq<Seq<char>> {
    seq!["ApiConnection"@, "ApiConnectionWebhook"@, "Http"@, "HttpWebhook"@]
}

fn transfer_type_list() -> (list: Vec<&'static str>)
    ensures
        names(list@) == transfer_type_names(),
{
    let list = vec!["ApiConnection", "ApiConnectionWebhook", "Http", "HttpWebhook"];
    assert(names(list@) =~= transfer_type_names());
    list
}

/// The forms in which an expression reads a field of the outputs that chunked
/// transfer leaves out.
pub open spec fn chunked_pattern_names() -> Seq<Seq<char>> {
    seq![
        ".outputs.statuscode"@,
        ".outputs?.statuscode"@,
        ".outputs['statuscode']"@,
        ".outputs?['statuscode']"@,
        "['outputs'].statuscode"@,
        "['outputs']?.statuscode"@,
        "['outputs']['statuscode']"@,
        "['outputs']?['statuscode']"@,
        ".outputs.headers"@,
        ".outputs?.headers"@,
        ".outputs['headers']"@,
        ".outputs?['headers']"@,
        "['outputs'].headers"@,
        "['outputs']?.headers"@,
        "['outputs']['headers']"@,
        "['outputs']?['headers']"@,
    ]
}

fn chunked_pattern_list() -> (list: Vec<&'static str>)
    ensures
        names(list@) == chunked_pattern_names(),
{
    let list = vec![
        ".outputs.statuscode",
        ".outputs?.statuscode",
        ".outputs['statuscode']",
        ".outputs?['statuscode']",
        "['outputs'].statuscode",
        "['outputs']?.statuscode",
        "['outputs']['statuscode']",
        "['outputs']?['statuscode']",
        ".outputs.headers",
        ".outputs?.headers",
        ".outputs['headers']",
        ".outputs?['headers']",
        "['outputs'].headers",
        "['outputs']?.headers",
        "['outputs']['headers']",
        "['outputs']?['headers']",
    ];
    assert(names(list@) =~= chunked_pattern_names());
    list
}

/// An action of a known type cannot transfer content in chunks.
pub open spec fn cannot_transfer(operation: &Node) -> bool {
    text_field(operation, "type"@) is Some && !type_is_one_of(operation, transfer_type_names())
}

fn action_type_supports_content_transfer(operation: &Node) -> (holds: bool)
    ensures
        holds == !cannot_transfer(operation),
{
    get_string(operation, "type").is_none()
        || node_type_is_one_of(operation, transfer_type_list().as_slice())
}

/// What is wrong with `runtimeConfiguration.contentTransfer`.
pub open spec fn content_transfer_findings(
    operation: &Node,
    known: bool,
    runtime: &Node,
    pointer: Seq<char>,
    label: Seq<char>,
    file: &Document,
    workflow: &Workflow,
) -> Seq<Finding> {
    match checked(file, runtime, "contentTransfer"@) {
        Some(content) => {
            let content_pointer = joined(pointer, "contentTransfer"@);
            (if label != "action"@ {
                issue(
                    file,
                    "workflow-shape-invalid-context"@,
                    content_pointer,
                    Some(content.span),
                    label + " runtimeConfiguration.contentTransfer is only supported on actions"@,
                )
            } else {
                Seq::empty()
            }) + (if !(content.kind is Object) {
                issue(
                    file,
                    "workflow-shape-invalid-type"@,
                    content_pointer,
                    Some(content.span),
                    label + " runtimeConfiguration.contentTransfer must be an object"@,
                )
            } else {
                (if label == "action"@ && known && cannot_transfer(operation) {
                    issue(
                        file,
                        "workflow-shape-invalid-context"@,
                        content_pointer,
                        Some(content.span),
                        "action runtimeConfiguration.contentTransfer is not supported for this action type"@,
                    )
                } else {
                    Seq::empty()
                }) + (if label == "action"@ && stateless(workflow) {
                    issue(
                        file,
                        "workflow-shape-invalid-context"@,
                        content_pointer,
                        Some(content.span),
                        "action runtimeConfiguration.contentTransfer is not supported in Stateless workflows"@,
                    )
                } else {
                    Seq::empty()
                }) + caseless_enum_findings(
                    &content,
                    content_pointer,
                    "transferMode"@,
                    label + " runtimeConfiguration.contentTransfer.transferMode"@,
                    transfer_mode_names(),
                    file,
                )
            })
        },
        None => Seq::empty(),
    }
}

/// Validate `runtimeConfiguration.contentTransfer`.
pub fn validate_runtime_content_transfer(
    operation: &Node,
    known: bool,
    runtime: &Node,
    pointer: &str,
    label: &str,
    file: &Document,
    workflow: &Workflow,
    diagnostics: &mut Vec<Diagnostic>,
)
    ensures
        findings(final(diagnostics)@) == findings(old(diagnostics)@)
            + content_transfer_findings(
                operation,
                known,
                runtime,
                pointer@,
                label@,
                file,
                workflow,
            ),
{
    if let Some(content) = get_checked(file, runtime, "contentTransfer") {
        let content_pointer_text = pointer_join(pointer, "contentTransfer");
        let content_pointer = content_pointer_text.as_str();
        if !text_eq(label, "action") {
            let message = text2(
                label,
                " runtimeConfiguration.contentTransfer is only supported on actions",
            );
            report(
                file,
                "workflow-shape-invalid-context",
                content_pointer,
                Some(content.span),
                message.as_str(),
                diagnostics,
            );
        }
        if !content.is_object() {
            let message = text2(label, " runtimeConfiguration.contentTransfer must be an object");
            report(
                file,
                "workflow-shape-invalid-type",
                content_pointer,
                Some(content.span),
                message.as_str(),
                diagnostics,
            );
        } else {
            if text_eq(label, "action")
                && known
                && !action_type_supports_content_transfer(operation) {
                report(
                    file,
                    "workflow-shape-invalid-context",
                    content_pointer,
                    Some(content.span),
                    "action runtimeConfiguration.contentTransfer is not supported for this action type",
                    diagnostics,
                );
            }
            if text_eq(label, "action") && workflow.is_stateless() {
                report(
                    file,
                    "workflow-shape-invalid-context",
                    content_pointer,
                    Some(content.span),
                    "action runtimeConfiguration.contentTransfer is not supported in Stateless workflows",
                    diagnostics,
                );
            }
            {
                let label = text2(label, " runtimeConfiguration.contentTransfer.transferMode");
                validate_optional_string_enum_ignore_case(
                    content,
                    content_pointer,
                    "transferMode",
                    label.as_str(),
                    transfer_mode_list().as_slice(),
                    file,
                    diagnostics,
                );
            }
        }
    }
}

/// The action asks for chunked transfer, whatever the case of the mode.
pub open spec fn is_chunked(value: &Node, file: &Document) -> bool {
    match field(value, "runtimeConfiguration"@) {
        Some(runtime) => match field(&runtime, "contentTransfer"@) {
            Some(content) => match authored(file, &content, "transferMode"@) {
                Some(mode) => match text_of(&mode) {
                    Some(text) => same_ignoring_case(text, "Chunked"@),
                    None => false,
                },
                None => false,
            },
            None => false,
        },
        None => false,
    }
}

/// True when the action's runtime configuration asks for chunked transfer.
pub fn action_uses_chunked_transfer(value: &Node, file: &Document) -> (holds: bool)
    ensures
        holds == is_chunked(value, file),
{
    match get(value, "runtimeConfiguration") {
        Some(runtime) => match get(runtime, "contentTransfer") {
            Some(content) => match get_authored(file, content, "transferMode") {
                Some(mode) => match as_string(mode) {
                    Some(text) => eq_ignoring_case(text, "Chunked"),
                    None => false,
                },
                None => false,
            },
            None => false,
        },
        None => false,
    }
}

/// The characters of `text` other than ASCII whitespace, ASCII letters lowered.
pub open spec fn compacted(text: Seq<char>) -> Seq<char>
    decreases text.len(),
{
    if text.len() == 0 {
        Seq::empty()
    } else {
        let rest = compacted(text.drop_last());
        if is_space(text.last()) { rest } else { rest.push(text.last()) }
    }
}

/// `part` stands in `text` up to ASCII case.
pub open spec fn has_part_ignoring_case(text: Seq<char>, part: Seq<char>) -> bool {
    exists|at: int| 0 <= at
        && at + part.len() <= text.len()
        && same_ignoring_case(#[trigger] text.subrange(at, at + part.len()), part)
}

/// An expression reads a status code or headers that chunked transfer leaves
/// out of `action().outputs`.
pub open spec fn reads_unavailable_output(expression: Seq<char>) -> bool {
    let compact = compacted(expression);
    &&& has_part_ignoring_case(compact, "action()"@)
    &&& has_part_ignoring_case(compact, "outputs"@)
    &&& exists|i: int| 0 <= i < chunked_pattern_names().len()
        && has_part_ignoring_case(compact, #[trigger] chunked_pattern_names()[i])
}

/// Some expression in `text` reads what chunked transfer leaves out.
pub open spec fn uses_unavailable_output(text: Seq<char>) -> bool {
    exists|i: int|
        0 <= i < expression_bodies(text).len() && reads_unavailable_output(
            #[trigger] expression_bodies(text)[i],
        )
}

fn contains_ignoring_case(text: &[char], part: &str) -> (found: bool)
    ensures
        found == has_part_ignoring_case(text@, part@),
{
    let part_chars = chars_of(part);
    let length: usize = text.len();
    let size: usize = part_chars.len();
    if size > length {
        return false;
    }
    let mut at: usize = 0;
    loop
        invariant
            at + size <= length,
            length == text@.len(),
            size == part@.len(),
            forall|k: int| 0 <= k < at
                ==> !same_ignoring_case(#[trigger] text@.subrange(k, k + part@.len()), part@),
        decreases length - at,
    {
        let piece = string_of_range(text, at, at + size);
        if eq_ignoring_case(piece.as_str(), part) {
            assert(same_ignoring_case(text@.subrange(at as int, at + part@.len()), part@));
            return true;
        }
        if length - at == size {
            return false;
        }
        at += 1;
    }
}

fn expression_reads_unavailable_output(chars: &[char]) -> (holds: bool)
    ensures
        holds == reads_unavailable_output(chars@),
{
    let mut compact: Vec<char> = Vec::new();
    let mut i: usize = 0;
    assert(compact@ =~= compacted(chars@.take(0)));
    while i < chars.len()
        invariant
            i <= chars.len(),
            compact@ == compacted(chars@.take(i as int)),
        decreases chars.len() - i,
    {
        assert(chars@.take(i + 1).drop_last() =~= chars@.take(i as int));
        if !space(chars[i]) {
            compact.push(chars[i]);
        }
        i += 1;
    }
    assert(chars@.take(i as int) =~= chars@);
    if !contains_ignoring_case(compact.as_slice(), "action()")
        || !contains_ignoring_case(compact.as_slice(), "outputs") {
        return false;
    }
    let patterns = chunked_pattern_list();
    let mut k: usize = 0;
    while k < patterns.len()
        invariant
            k <= patterns.len(),
            names(patterns@) == chunked_pattern_names(),
            compact@ == compacted(chars@),
            has_part_ignoring_case(compact@, "action()"@),
            has_part_ignoring_case(compact@, "outputs"@),
            forall|j: int| 0 <= j < k
                ==> !has_part_ignoring_case(compact@, #[trigger] chunked_pattern_names()[j]),
        decreases patterns.len() - k,
    {
        assert(names(patterns@)[k as int] == patterns@[k as int]@);
        if contains_ignoring_case(compact.as_slice(), patterns[k]) {
            assert(has_part_ignoring_case(compact@, chunked_pattern_names()[k as int]));
            return true;
        }
        k += 1;
    }
    false
}

fn chunked_tracked_property_uses_unavailable_output(text: &str) -> (holds: bool)
    ensures
        holds == uses_unavailable_output(text@),
{
    let chars = chars_of(text);
    let bodies = expression_segments(chars.as_slice());
    let mut i: usize = 0;
    while i < bodies.len()
        invariant
            i <= bodies@.len(),
            bodies_of(bodies@) == expression_bodies(text@),
            forall|j: int|
                0 <= j < i ==> !reads_unavailable_output(#[trigger] expression_bodies(text@)[j]),
        decreases bodies@.len() - i,
    {
        assert(expression_bodies(text@)[i as int] == bodies@[i as int]@);
        if expression_reads_unavailable_output(bodies[i].as_slice()) {
            return true;
        }
        i += 1;
    }
    false
}

/// What is wrong with the texts below `value`, in order.
pub open spec fn chunked_findings(value: &Node, pointer: Seq<char>, file: &Document) -> Seq<Finding>
    decreases value, 0nat,
{
    match value.kind {
        Json::String(text) => if !is_opaque(file, value) && uses_unavailable_output(text@) {
            issue(
                file,
                "workflow-shape-invalid-context"@,
                pointer,
                Some(value.span),
                "chunked action trackedProperties cannot reference unavailable statusCode or headers outputs"@,
            )
        } else {
            Seq::empty()
        },
        Json::Object(members) => chunked_member_findings(members, members@.len(), pointer, file),
        Json::Array(items) => chunked_item_findings(items, items@.len(), pointer, file),
        _ => Seq::empty(),
    }
}

pub open spec fn chunked_member_findings(
    members: Vec<Member>,
    n: nat,
    pointer: Seq<char>,
    file: &Document,
) -> Seq<Finding>
    decreases members, n,
{
    if n == 0 || n > members@.len() {
        Seq::empty()
    } else {
        chunked_member_findings(members, (n - 1) as nat, pointer, file)
            + chunked_findings(&members[n - 1].value, joined(pointer, members[n - 1].name@), file)
    }
}

pub open spec fn chunked_item_findings(
    items: Vec<Node>,
    n: nat,
    pointer: Seq<char>,
    file: &Document,
) -> Seq<Finding>
    decreases items, n,
{
    if n == 0 || n > items@.len() {
        Seq::empty()
    } else {
        chunked_item_findings(items, (n - 1) as nat, pointer, file)
            + chunked_findings(&items[n - 1], joined(pointer, decimal(n - 1)), file)
    }
}

/// Walk trackedProperties and flag expressions that read outputs which chunked
/// transfer does not emit.
pub fn validate_chunked_tracked_properties(
    value: &Node,
    pointer: &str,
    file: &Document,
    diagnostics: &mut Vec<Diagnostic>,
)
    ensures
        findings(final(diagnostics)@) == findings(old(diagnostics)@)
            + chunked_findings(value, pointer@, file),
    decreases value,
{
    match &value.kind {
        Json::String(text) => {
            if !is_opaque_arm_expression(file, value)
                && chunked_tracked_property_uses_unavailable_output(text.as_str()) {
                report(
                    file,
                    "workflow-shape-invalid-context",
                    pointer,
                    Some(value.span),
                    "chunked action trackedProperties cannot reference unavailable statusCode or headers outputs",
                    diagnostics,
                );
            }
        },
        Json::Object(members) => {
            validate_chunked_members(members, pointer, file, diagnostics);
        },
        Json::Array(items) => {
            validate_chunked_items(items, pointer, file, diagnostics);
        },
        _ => {},
    }
}

fn validate_chunked_members(
    members: &Vec<Member>,
    pointer: &str,
    file: &Document,
    diagnostics: &mut Vec<Diagnostic>,
)
    ensures
        findings(final(diagnostics)@) == findings(old(diagnostics)@)
            + chunked_member_findings(*members, members@.len(), pointer@, file),
    decreases members,
{
    let ghost before = findings(diagnostics@);
    let mut i: usize = 0;
    while i < members.len()
        invariant
            i <= members.len(),
            findings(diagnostics@) == before
                + chunked_member_findings(*members, i as nat, pointer@, file),
        decreases members.len() - i,
    {
        let child_pointer = pointer_join(pointer, members[i].name.as_str());
        assert(decreases_to!(members => members[i as int]));
        validate_chunked_tracked_properties(
            &members[i].value,
            child_pointer.as_str(),
            file,
            diagnostics,
        );
        i += 1;
    }
}

fn validate_chunked_items(
    items: &Vec<Node>,
    pointer: &str,
    file: &Document,
    diagnostics: &mut Vec<Diagnostic>,
)
    ensures
        findings(final(diagnostics)@) == findings(old(diagnostics)@)
            + chunked_item_findings(*items, items@.len(), pointer@, file),
    decreases items,
{
    let ghost before = findings(diagnostics@);
    let mut i: usize = 0;
    while i < items.len()
        invariant
            i <= items.len(),
            findings(diagnostics@) == before
                + chunked_item_findings(*items, i as nat, pointer@, file),
        decreases items.len() - i,
    {
        let index = decimal_of_usize(i);
        let child_pointer = pointer_join(pointer, index.as_str());
        assert(decreases_to!(items => items[i as int]));
        validate_chunked_tracked_properties(&items[i], child_pointer.as_str(), file, diagnostics);
        i += 1;
    }
}
} // verus!
