//! Count and nesting limits imposed by the runtime.

use vstd::prelude::*;

use crate::diagnostic::{findings, ByteSpan, Diagnostic, Finding};
use crate::json::{as_object, Json, Document, Member, Node};
use crate::shape::arm_boundary::{
    allows_expressions, arm_optional_property_absent, file_allows_arm_expressions, is_absent,
    resolved, static_json_value_from_spanned,
};
use crate::shape::report::{issue, report, report_value, wrong_value};
use crate::text::{
    chars_of, decimal, decimal_of_usize, in_list, names, one_of, text2, text3, text4, text6,
};
use crate::workflow::{standard, ActionInfo, Workflow, node_of};

verus! {

broadcast use crate::diagnostic::group_findings;

/// How many of the first `n` members count, those that are absent left out.
pub open spec fn present_count(members: Seq<Member>, n: nat, file: &Document) -> nat
    decreases n,
{
    if n == 0 {
        0
    } else {
        present_count(members, (n - 1) as nat, file)
            + (if is_absent(file, &members[n - 1].value) { 0nat } else { 1 })
    }
}

/// How many of the first `n` members of a resolved object count.
pub open spec fn resolved_count(members: Seq<Member>, n: nat, file: &Document) -> nat
    decreases n,
{
    if n == 0 {
        0
    } else {
        resolved_count(members, (n - 1) as nat, file)
            + (if is_absent_entry(file, &members[n - 1].value) { 0nat } else { 1 })
    }
}

/// A member of a resolved object counts as absent where it is null.
pub open spec fn is_absent_entry(file: &Document, value: &Node) -> bool {
    allows_expressions(file) && value.kind is Null
}

/// The number of entries that an object, written out or resolved, will have.
pub open spec fn entry_count(value: &Node, file: &Document) -> Option<nat> {
    match value.kind {
        Json::Object(members) => Some(present_count(members@, members@.len(), file)),
        _ => match resolved(file, value, &file.arm) {
            Some(result) => match result.kind {
                Json::Object(members) => Some(resolved_count(members@, members@.len(), file)),
                _ => None,
            },
            None => None,
        },
    }
}

/// A member of a resolved object counts as absent.
pub fn materialized_arm_entry_absent(file: &Document, value: &Node) -> (holds: bool)
    ensures
        holds == is_absent_entry(file, value),
{
    value.is_null() && file_allows_arm_expressions(file)
}

/// Count the entries of an object, written out or resolved.
pub fn effective_object_entry_count(value: &Node, file: &Document) -> (count: Option<usize>)
    ensures
        match count {
            Some(n) => entry_count(value, file) == Some(n as nat),
            None => entry_count(value, file) is None,
        },
{
    match as_object(value) {
        Some(members) => {
            let mut count: usize = 0;
            let mut i: usize = 0;
            while i < members.len()
                invariant
                    i <= members.len(),
                    count <= i,
                    count == present_count(members@, i as nat, file),
                decreases members.len() - i,
            {
                if !arm_optional_property_absent(file, &members[i].value) {
                    count += 1;
                }
                i += 1;
            }
            Some(count)
        },
        None => match static_json_value_from_spanned(file, value) {
            Some(result) => match as_object(result) {
                Some(members) => {
                    let mut count: usize = 0;
                    let mut i: usize = 0;
                    while i < members.len()
                        invariant
                            i <= members.len(),
                            count <= i,
                            count == resolved_count(members@, i as nat, file),
                        decreases members.len() - i,
                    {
                        if !materialized_arm_entry_absent(file, &members[i].value) {
                            count += 1;
                        }
                        i += 1;
                    }
                    Some(count)
                },
                None => None,
            },
            None => None,
        },
    }
}

/// What is wrong with the number of entries of an object.
pub open spec fn object_count_findings(
    value: &Node,
    pointer: Seq<char>,
    label: Seq<char>,
    max: usize,
    file: &Document,
) -> Seq<Finding> {
    match entry_count(value, file) {
        Some(count) => if count > max {
            issue(
                file,
                "workflow-shape-invalid-value"@,
                pointer,
                Some(value.span),
                label
                    + " contains "@
                    + decimal(count as int)
                    + " entries, but at most "@
                    + decimal(max as int)
                    + " are supported"@,
            )
        } else {
            Seq::empty()
        },
        None => Seq::empty(),
    }
}

/// Validate the number of entries of an object.
pub fn validate_root_object_count(
    value: &Node,
    pointer: &str,
    label: &str,
    max: usize,
    file: &Document,
    diagnostics: &mut Vec<Diagnostic>,
)
    ensures
        findings(final(diagnostics)@) == findings(old(diagnostics)@)
            + object_count_findings(value, pointer@, label@, max, file),
{
    if let Some(count) = effective_object_entry_count(value, file) {
        if count > max {
            let message = text6(
                label,
                " contains ",
                decimal_of_usize(count).as_str(),
                " entries, but at most ",
                decimal_of_usize(max).as_str(),
                " are supported",
            );
            report(
                file,
                "workflow-shape-invalid-value",
                pointer,
                Some(value.span),
                message.as_str(),
                diagnostics,
            );
        }
    }
}

/// What is wrong with the number of triggers of a Standard workflow, which is one.
pub open spec fn trigger_count_findings(
    value: &Node,
    pointer: Seq<char>,
    file: &Document,
    workflow: &Workflow,
) -> Seq<Finding> {
    if standard(workflow) {
        match entry_count(value, file) {
            Some(count) => if count > 1 {
                issue(
                    file,
                    "workflow-shape-invalid-value"@,
                    pointer,
                    Some(value.span),
                    "Standard workflow definitions support only one trigger, but found "@
                        + decimal(count as int),
                )
            } else {
                Seq::empty()
            },
            None => Seq::empty(),
        }
    } else {
        Seq::empty()
    }
}

/// Validate the number of triggers of a Standard workflow, which is one.
pub fn validate_standard_trigger_count(
    value: &Node,
    pointer: &str,
    file: &Document,
    workflow: &Workflow,
    diagnostics: &mut Vec<Diagnostic>,
)
    ensures
        findings(final(diagnostics)@) == findings(old(diagnostics)@)
            + trigger_count_findings(value, pointer@, file, workflow),
{
    if workflow.is_standard() {
        if let Some(count) = effective_object_entry_count(value, file) {
            if count > 1 {
                let message = text2(
                    "Standard workflow definitions support only one trigger, but found ",
                    decimal_of_usize(count).as_str(),
                );
                report(
                    file,
                    "workflow-shape-invalid-value",
                    pointer,
                    Some(value.span),
                    message.as_str(),
                    diagnostics,
                );
            }
        }
    }
}

/// What is wrong with the length of an operation name, at most 80 characters.
pub open spec fn name_length_findings(
    name: Seq<char>,
    pointer: Seq<char>,
    label: Seq<char>,
    file: &Document,
    span: Option<ByteSpan>,
) -> Seq<Finding> {
    if name.len() > 80 {
        issue(
            file,
            "workflow-shape-invalid-value"@,
            pointer,
            span,
            label + " name '"@ + name + "' exceeds the 80 character limit"@,
        )
    } else {
        Seq::empty()
    }
}

/// Validate the length of an operation name, at most 80 characters.
pub fn validate_operation_name_length(
    name: &str,
    pointer: &str,
    label: &str,
    file: &Document,
    span: Option<ByteSpan>,
    diagnostics: &mut Vec<Diagnostic>,
)
    ensures
        findings(final(diagnostics)@) == findings(old(diagnostics)@)
            + name_length_findings(name@, pointer@, label@, file, span),
{
    if chars_of(name).len() > 80 {
        let message = text4(label, " name '", name, "' exceeds the 80 character limit");
        report(file, "workflow-shape-invalid-value", pointer, span, message.as_str(), diagnostics);
    }
}

/// What is wrong with the nesting depth of the first `n` actions.
pub open spec fn depth_findings(
    actions: Seq<ActionInfo>,
    n: nat,
    file: &Document,
    workflow: &Workflow,
) -> Seq<Finding>
    decreases n,
{
    if n == 0 {
        Seq::empty()
    } else {
        let action = actions[n - 1];
        depth_findings(actions, (n - 1) as nat, file, workflow) + (if action.depth == 9 {
            issue(file, "workflow-shape-invalid-value"@, action.pointer@, match node_of(workflow, action.pointer@) {
                Some(node) => Some(node.span),
                None => None,
            }, "action nesting depth is "@ + decimal(
                action.depth as int,
            ) + ", but at most 8 levels are supported"@)
        } else {
            Seq::empty()
        })
    }
}

/// What is wrong with the size of a workflow: at most 500 actions, and at
/// most 8 levels of nesting, flagged where the ninth begins.
pub open spec fn total_limit_findings(
    definition_pointer: Seq<char>,
    file: &Document,
    workflow: &Workflow,
) -> Seq<Finding> {
    (if workflow.action_list@.len() > 500 {
        wrong_value(
            file,
            definition_pointer,
            "actions"@,
            workflow.definition.span,
            "workflow contains "@
                + decimal(workflow.action_list@.len() as int)
                + " actions, but at most 500 are supported"@,
        )
    } else {
        Seq::empty()
    }) + depth_findings(workflow.action_list@, workflow.action_list@.len(), file, workflow)
}

/// Enforce the limits on a whole workflow.
pub fn validate_total_action_limits(
    definition_pointer: &str,
    file: &Document,
    workflow: &Workflow,
    diagnostics: &mut Vec<Diagnostic>,
)
    ensures
        findings(final(diagnostics)@) == findings(old(diagnostics)@)
            + total_limit_findings(definition_pointer@, file, workflow),
{
    let actions = &workflow.action_list;
    if actions.len() > 500 {
        let message = text3(
            "workflow contains ",
            decimal_of_usize(actions.len()).as_str(),
            " actions, but at most 500 are supported",
        );
        report_value(
            file,
            definition_pointer,
            "actions",
            workflow.definition.span,
            message.as_str(),
            diagnostics,
        );
    }
    let ghost before = findings(diagnostics@);
    let mut i: usize = 0;
    while i < actions.len()
        invariant
            i <= actions.len(),
            findings(diagnostics@) == before + depth_findings(actions@, i as nat, file, workflow),
        decreases actions.len() - i,
    {
        let action = &actions[i];
        if action.depth == 9 {
            let span = match workflow.node_at(action.pointer.as_str()) {
                Some(node) => Some(node.span),
                None => None,
            };
            let message = text3(
                "action nesting depth is ",
                decimal_of_usize(action.depth).as_str(),
                ", but at most 8 levels are supported",
            );
            report(
                file,
                "workflow-shape-invalid-value",
                action.pointer.as_str(),
                span,
                message.as_str(),
                diagnostics,
            );
        }
        i += 1;
    }
}

pub open spec fn run_after_status_names() -> Seq<Seq<char>> {
    seq![
        "Aborted"@,
        "Cancelled"@,
        "Failed"@,
        "Faulted"@,
        "Ignored"@,
        "Paused"@,
        "Running"@,
        "Skipped"@,
        "Succeeded"@,
        "Suspended"@,
        "TimedOut"@,
        "Waiting"@,
    ]
}

pub fn run_after_status_list() -> (list: Vec<&'static str>)
    ensures
        names(list@) == run_after_status_names(),
{
    let list = vec![
        "Aborted",
        "Cancelled",
        "Failed",
        "Faulted",
        "Ignored",
        "Paused",
        "Running",
        "Skipped",
        "Succeeded",
        "Suspended",
        "TimedOut",
        "Waiting",
    ];
    assert(names(list@) =~= run_after_status_names());
    list
}

/// A `runAfter` status that the runtime accepts, in exactly this case.
pub fn run_after_status_supported(status: &str) -> (holds: bool)
    ensures
        holds == one_of(status@, run_after_status_names()),
{
    in_list(status, run_after_status_list().as_slice())
}
} // verus!
