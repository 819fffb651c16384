//! Driver that walks triggers and actions, and dispatches each entry by its type.
//!
//! Entries that template expressions supply are checked in their resolved form,
//! and reported where the expression was written.

use vstd::prelude::*;

use crate::arm::ArmScope;
use crate::diagnostic::{findings, ByteSpan, Diagnostic, Finding};
use crate::json::{
    as_object, as_string, field, get, get_string, joined, lemma_field_smaller, pointer_join,
    text_field, text_of, Document, Json, Member, Node,
};
use crate::shape::arm_boundary::{
    arm_optional_property_absent, get_present, is_absent, is_opaque, is_opaque_arm_expression,
    is_skipped, is_unresolved, node_in, present, resolved, skipped,
    static_json_value_from_spanned, static_string_from_spanned, static_text,
    unresolved_arm_expression_from_spanned,
};
use crate::shape::common::{
    common_findings, untyped_common_findings, validate_common_fields,
    validate_type_independent_common_fields,
};
use crate::shape::limits::{
    is_absent_entry, materialized_arm_entry_absent, name_length_findings,
    validate_operation_name_length,
};
use crate::shape::registry::{
    action_findings, action_spec, action_spec_of, materialized_value, scoped_value, trigger_spec,
    trigger_spec_of, typed_trigger_findings, validate_action, validate_typed_trigger, TriggerSpec,
};
use crate::shape::report::{
    extend_with_span, issue, missing, report, report_context, report_missing, report_type,
    respanned, wrong_context, wrong_type,
};
use crate::shape::run_after::{run_after_findings, validate_run_after};
use crate::shape::supplied::{
    alone, childless_message, childless_text, collect_json_action_container_shape, document_of,
    may_have_actions, supplied_action_findings, supplied_list_findings, validate_json_action_shape,
};
use crate::shape::triggers::common::{trigger_common_findings, validate_trigger_common_fields};
use crate::text::{eq_ignoring_case, same_ignoring_case, text2, text3, text_in};
use crate::workflow::{stateless, ActionKind, Workflow, action_kind};

use crate::diagnostic::lemma_findings_index;

verus! {

broadcast use crate::diagnostic::group_findings;

/// What is wrong with a container of actions.
pub open spec fn container_findings(
    value: &Node,
    pointer: Seq<char>,
    file: &Document,
    workflow: &Workflow,
    scope: &ArmScope,
) -> Seq<Finding>
    decreases value, 0nat,
{
    if is_absent(file, value) {
        Seq::empty()
    } else if is_opaque(file, value) {
        match resolved(file, value, file.arm) {
            Some(result) => match result.kind {
                Json::Object(members) => supplied_list_findings(
                    members,
                    members@.len(),
                    pointer,
                    file,
                    workflow,
                    value.span,
                    scope,
                ),
                _ => issue(
                    file,
                    "workflow-shape-invalid-type"@,
                    pointer,
                    Some(value.span),
                    "actions must be an object"@,
                ),
            },
            None => Seq::empty(),
        }
    } else {
        match value.kind {
            Json::Object(members) => entry_list_findings(
                members,
                members@.len(),
                pointer,
                file,
                workflow,
                scope,
            ),
            _ => issue(
                file,
                "workflow-shape-invalid-type"@,
                pointer,
                Some(value.span),
                "actions must be an object"@,
            ),
        }
    }
}

/// What is wrong with the first `n` actions of a container.
pub open spec fn entry_list_findings(
    members: Vec<Member>,
    n: nat,
    pointer: Seq<char>,
    file: &Document,
    workflow: &Workflow,
    scope: &ArmScope,
) -> Seq<Finding>
    decreases members, n,
{
    if n == 0 || n > members@.len() {
        Seq::empty()
    } else {
        entry_list_findings(members, (n - 1) as nat, pointer, file, workflow, scope)
            + entry_findings(
                &members[n - 1].value,
                members[n - 1].name@,
                pointer,
                file,
                workflow,
                scope,
            )
    }
}

/// What is wrong with one entry of a container.
pub open spec fn entry_findings(
    action: &Node,
    name: Seq<char>,
    container: Seq<char>,
    file: &Document,
    workflow: &Workflow,
    scope: &ArmScope,
) -> Seq<Finding>
    decreases action, 3nat,
{
    let pointer = joined(container, name);
    if is_absent(file, action) {
        Seq::empty()
    } else {
        name_length_findings(name, pointer, "action"@, file, Some(action.span))
            + (if is_opaque(file, action) {
            match resolved(file, action, file.arm) {
                Some(result) => if result.kind is Object {
                    supplied_action_findings(
                        &result,
                        pointer,
                        container,
                        file,
                        workflow,
                        action.span,
                        scope,
                    )
                } else {
                    issue(
                        file,
                        "workflow-shape-invalid-type"@,
                        pointer,
                        Some(action.span),
                        "action entries must be objects"@,
                    )
                },
                None => Seq::empty(),
            }
        } else if action.kind is Object {
            authored_action_findings(action, pointer, container, file, workflow, scope)
        } else {
            issue(
                file,
                "workflow-shape-invalid-type"@,
                pointer,
                Some(action.span),
                "action entries must be objects"@,
            )
        })
    }
}

/// What is wrong with an authored action.
pub open spec fn authored_action_findings(
    action: &Node,
    pointer: Seq<char>,
    container: Seq<char>,
    file: &Document,
    workflow: &Workflow,
    scope: &ArmScope,
) -> Seq<Finding>
    decreases action, 2nat,
{
    match field(action, "type"@) {
        None => missing(
            file,
            pointer,
            "type"@,
            action.span,
            "action is missing required field 'type'"@,
        ),
        Some(declared) => match static_text(file, &declared) {
            Some(kind) => match action_spec_of(kind) {
                None => issue(
                    file,
                    "workflow-shape-unknown-type"@,
                    joined(pointer, "type"@),
                    Some(declared.span),
                    "unknown action type '"@ + kind + "'"@,
                ),
                Some(spec) => action_findings(
                    spec,
                    action,
                    pointer,
                    container,
                    kind,
                    file,
                    workflow,
                    scope,
                )
                    + common_findings(action, pointer, "action"@, file, workflow, scope)
                    + run_after_findings(action, pointer, file, scope)
                    + nested_findings(action, pointer, false, Some(kind), file, workflow, scope),
            },
            None => if is_unresolved(file, &declared) {
                untyped_common_findings(action, pointer, "action"@, file, workflow, scope)
                    + run_after_findings(action, pointer, file, scope)
                    + nested_findings(action, pointer, true, None, file, workflow, scope)
            } else if is_opaque(file, &declared) || !(declared.kind is String) {
                wrong_type(file, pointer, "type"@, declared.span, "action type must be a string"@)
            } else {
                missing(
                    file,
                    pointer,
                    "type"@,
                    action.span,
                    "action is missing required field 'type'"@,
                )
            },
        },
    }
}

/// What is wrong with the actions below an action.
pub open spec fn nested_findings(
    action: &Node,
    pointer: Seq<char>,
    untyped: bool,
    kind: Option<Seq<char>>,
    file: &Document,
    workflow: &Workflow,
    scope: &ArmScope,
) -> Seq<Finding>
    decreases action, 1nat,
{
    let class = action_kind(kind);
    child_findings(action, pointer, may_have_actions(untyped, kind), kind, file, workflow, scope)
        + (if untyped || class is Switch {
        groups_findings(action, "cases"@, pointer, file, workflow, scope)
    } else {
        Seq::empty()
    }) + (if untyped || class is Switch {
        branch_findings(action, "default"@, pointer, file, workflow, scope)
    } else {
        Seq::empty()
    }) + (if untyped || class is If {
        branch_findings(action, "else"@, pointer, file, workflow, scope)
    } else {
        Seq::empty()
    }) + (if untyped || class is Agent {
        groups_findings(action, "tools"@, pointer, file, workflow, scope)
    } else {
        Seq::empty()
    })
}

/// What is wrong with the `actions` of an action, which may not support any.
pub open spec fn child_findings(
    action: &Node,
    pointer: Seq<char>,
    allowed: bool,
    kind: Option<Seq<char>>,
    file: &Document,
    workflow: &Workflow,
    scope: &ArmScope,
) -> Seq<Finding>
    decreases action, 0nat,
{
    proof {
        lemma_field_smaller(action, "actions"@);
    }
    match field(action, "actions"@) {
        Some(value) => if allowed {
            container_findings(&value, joined(pointer, "actions"@), file, workflow, scope)
        } else if is_skipped(file, &value) {
            Seq::empty()
        } else {
            wrong_context(file, pointer, "actions"@, value.span, childless_message(kind))
        },
        None => Seq::empty(),
    }
}

/// What is wrong with the actions of a branch.
pub open spec fn branch_findings(
    action: &Node,
    key: Seq<char>,
    pointer: Seq<char>,
    file: &Document,
    workflow: &Workflow,
    scope: &ArmScope,
) -> Seq<Finding>
    decreases action, 0nat,
{
    proof {
        lemma_field_smaller(action, key);
    }
    match field(action, key) {
        Some(branch) => {
            proof {
                lemma_field_smaller(&branch, "actions"@);
            }
            match field(&branch, "actions"@) {
                Some(value) => container_findings(
                    &value,
                    joined(joined(pointer, key), "actions"@),
                    file,
                    workflow,
                    scope,
                ),
                None => Seq::empty(),
            }
        },
        None => Seq::empty(),
    }
}

/// What is wrong with the actions of a group of cases or tools.
pub open spec fn groups_findings(
    action: &Node,
    key: Seq<char>,
    pointer: Seq<char>,
    file: &Document,
    workflow: &Workflow,
    scope: &ArmScope,
) -> Seq<Finding>
    decreases action, 0nat,
{
    proof {
        lemma_field_smaller(action, key);
    }
    match field(action, key) {
        Some(group) => match group.kind {
            Json::Object(members) => group_findings(
                members,
                members@.len(),
                joined(pointer, key),
                file,
                workflow,
                scope,
            ),
            _ => Seq::empty(),
        },
        None => Seq::empty(),
    }
}

/// What is wrong with the actions of the first `n` cases or tools.
pub open spec fn group_findings(
    members: Vec<Member>,
    n: nat,
    base: Seq<char>,
    file: &Document,
    workflow: &Workflow,
    scope: &ArmScope,
) -> Seq<Finding>
    decreases members, n,
{
    if n == 0 || n > members@.len() {
        Seq::empty()
    } else {
        proof {
            lemma_field_smaller(&members[n - 1].value, "actions"@);
        }
        group_findings(members, (n - 1) as nat, base, file, workflow, scope)
            + match field(&members[n - 1].value, "actions"@) {
            Some(value) => container_findings(
                &value,
                joined(joined(base, members[n - 1].name@), "actions"@),
                file,
                workflow,
                scope,
            ),
            None => Seq::empty(),
        }
    }
}

/// Walk a container of actions, at the root or nested.
pub fn collect_action_container_shape(
    value: &Node,
    pointer: &str,
    file: &Document,
    workflow: &Workflow,
    scope: &ArmScope,
    diagnostics: &mut Vec<Diagnostic>,
)
    ensures
        findings(final(diagnostics)@) == findings(old(diagnostics)@)
            + container_findings(value, pointer@, file, workflow, scope),
    decreases value, 0nat,
{
    if arm_optional_property_absent(file, value) {
        return;
    }
    if is_opaque_arm_expression(file, value) {
        if let Some(result) = static_json_value_from_spanned(file, value) {
            match as_object(result) {
                Some(members) => {
                    collect_json_action_container_shape(
                        members,
                        pointer,
                        file,
                        workflow,
                        value.span,
                        scope,
                        diagnostics,
                    );
                },
                None => {
                    report(
                        file,
                        "workflow-shape-invalid-type",
                        pointer,
                        Some(value.span),
                        "actions must be an object",
                        diagnostics,
                    );
                },
            }
        }
        return;
    }
    match as_object(value) {
        Some(members) => {
            assert(decreases_to!(value.kind => value.kind->Object_0));
            collect_entries(members, pointer, file, workflow, scope, diagnostics);
        },
        None => {
            report(
                file,
                "workflow-shape-invalid-type",
                pointer,
                Some(value.span),
                "actions must be an object",
                diagnostics,
            );
        },
    }
}

fn collect_entries(
    members: &Vec<Member>,
    pointer: &str,
    file: &Document,
    workflow: &Workflow,
    scope: &ArmScope,
    diagnostics: &mut Vec<Diagnostic>,
)
    ensures
        findings(final(diagnostics)@) == findings(old(diagnostics)@)
            + entry_list_findings(*members, members@.len(), pointer@, file, workflow, scope),
    decreases members, 0nat,
{
    let ghost before = findings(diagnostics@);
    let mut i: usize = 0;
    while i < members.len()
        invariant
            i <= members.len(),
            findings(diagnostics@) == before
                + entry_list_findings(*members, i as nat, pointer@, file, workflow, scope),
        decreases members.len() - i,
    {
        assert(decreases_to!(members => members[i as int]));
        collect_entry(
            &members[i].value,
            members[i].name.as_str(),
            pointer,
            file,
            workflow,
            scope,
            diagnostics,
        );
        i += 1;
    }
}

fn collect_entry(
    action: &Node,
    name: &str,
    container: &str,
    file: &Document,
    workflow: &Workflow,
    scope: &ArmScope,
    diagnostics: &mut Vec<Diagnostic>,
)
    ensures
        findings(final(diagnostics)@) == findings(old(diagnostics)@)
            + entry_findings(action, name@, container@, file, workflow, scope),
    decreases action, 3nat,
{
    if arm_optional_property_absent(file, action) {
        return;
    }
    let pointer_text = pointer_join(container, name);
    let pointer = pointer_text.as_str();
    validate_operation_name_length(name, pointer, "action", file, Some(action.span), diagnostics);
    if is_opaque_arm_expression(file, action) {
        if let Some(result) = static_json_value_from_spanned(file, action) {
            if result.is_object() {
                validate_json_action_shape(
                    result,
                    pointer,
                    container,
                    file,
                    workflow,
                    action.span,
                    scope,
                    diagnostics,
                );
            } else {
                report(
                    file,
                    "workflow-shape-invalid-type",
                    pointer,
                    Some(action.span),
                    "action entries must be objects",
                    diagnostics,
                );
            }
        }
    } else if action.is_object() {
        collect_authored_action(action, pointer, container, file, workflow, scope, diagnostics);
    } else {
        report(
            file,
            "workflow-shape-invalid-type",
            pointer,
            Some(action.span),
            "action entries must be objects",
            diagnostics,
        );
    }
}

fn collect_authored_action(
    action: &Node,
    pointer: &str,
    container: &str,
    file: &Document,
    workflow: &Workflow,
    scope: &ArmScope,
    diagnostics: &mut Vec<Diagnostic>,
)
    ensures
        findings(final(diagnostics)@) == findings(old(diagnostics)@)
            + authored_action_findings(action, pointer@, container@, file, workflow, scope),
    decreases action, 2nat,
{
    match get(action, "type") {
        None => {
            report_missing(
                file,
                pointer,
                "type",
                action.span,
                "action is missing required field 'type'",
                diagnostics,
            );
        },
        Some(declared) => match static_string_from_spanned(file, declared) {
            Some(kind) => match action_spec(kind) {
                None => {
                    let type_pointer = pointer_join(pointer, "type");
                    let message = text3("unknown action type '", kind, "'");
                    report(
                        file,
                        "workflow-shape-unknown-type",
                        type_pointer.as_str(),
                        Some(declared.span),
                        message.as_str(),
                        diagnostics,
                    );
                },
                Some(spec) => {
                    validate_action(
                        spec,
                        action,
                        pointer,
                        container,
                        kind,
                        file,
                        workflow,
                        scope,
                        diagnostics,
                    );
                    validate_common_fields(
                        action,
                        pointer,
                        "action",
                        file,
                        workflow,
                        scope,
                        diagnostics,
                    );
                    validate_run_after(action, pointer, file, scope, diagnostics);
                    collect_nested(
                        action,
                        pointer,
                        false,
                        Some(kind),
                        file,
                        workflow,
                        scope,
                        diagnostics,
                    );
                },
            },
            None => {
                if unresolved_arm_expression_from_spanned(file, declared) {
                    validate_type_independent_common_fields(
                        action,
                        pointer,
                        "action",
                        file,
                        workflow,
                        scope,
                        diagnostics,
                    );
                    validate_run_after(action, pointer, file, scope, diagnostics);
                    collect_nested(action, pointer, true, None, file, workflow, scope, diagnostics);
                } else if is_opaque_arm_expression(file, declared) || !declared.is_string() {
                    report_type(
                        file,
                        pointer,
                        "type",
                        declared.span,
                        "action type must be a string",
                        diagnostics,
                    );
                } else {
                    report_missing(
                        file,
                        pointer,
                        "type",
                        action.span,
                        "action is missing required field 'type'",
                        diagnostics,
                    );
                }
            },
        },
    }
}

fn collect_nested(
    action: &Node,
    pointer: &str,
    untyped: bool,
    kind: Option<&str>,
    file: &Document,
    workflow: &Workflow,
    scope: &ArmScope,
    diagnostics: &mut Vec<Diagnostic>,
)
    ensures
        findings(final(diagnostics)@) == findings(old(diagnostics)@)
            + nested_findings(action, pointer@, untyped, text_in(kind), file, workflow, scope),
    decreases action, 1nat,
{
    let class = ActionKind::from_action_type(kind);
    collect_child_action_container_shape(
        action,
        pointer,
        untyped || class.supports_actions_container(),
        kind,
        file,
        workflow,
        scope,
        diagnostics,
    );
    if untyped || class.supports_cases_container() {
        collect_groups(action, "cases", pointer, file, workflow, scope, diagnostics);
    }
    if untyped || class.supports_default_container() {
        collect_branch(action, "default", pointer, file, workflow, scope, diagnostics);
    }
    if untyped || class.supports_else_container() {
        collect_branch(action, "else", pointer, file, workflow, scope, diagnostics);
    }
    if untyped || class.supports_tools_container() {
        collect_groups(action, "tools", pointer, file, workflow, scope, diagnostics);
    }
}

fn collect_child_action_container_shape(
    action: &Node,
    pointer: &str,
    allowed: bool,
    kind: Option<&str>,
    file: &Document,
    workflow: &Workflow,
    scope: &ArmScope,
    diagnostics: &mut Vec<Diagnostic>,
)
    ensures
        findings(final(diagnostics)@) == findings(old(diagnostics)@)
            + child_findings(action, pointer@, allowed, text_in(kind), file, workflow, scope),
    decreases action, 0nat,
{
    proof {
        lemma_field_smaller(action, "actions"@);
    }
    if let Some(value) = get(action, "actions") {
        if allowed {
            let child_pointer = pointer_join(pointer, "actions");
            collect_action_container_shape(
                value,
                child_pointer.as_str(),
                file,
                workflow,
                scope,
                diagnostics,
            );
        } else if !skipped(file, value) {
            let message = childless_text(kind);
            report_context(file, pointer, "actions", value.span, message.as_str(), diagnostics);
        }
    }
}

fn collect_branch(
    action: &Node,
    key: &str,
    pointer: &str,
    file: &Document,
    workflow: &Workflow,
    scope: &ArmScope,
    diagnostics: &mut Vec<Diagnostic>,
)
    ensures
        findings(final(diagnostics)@) == findings(old(diagnostics)@)
            + branch_findings(action, key@, pointer@, file, workflow, scope),
    decreases action, 0nat,
{
    proof {
        lemma_field_smaller(action, key@);
    }
    if let Some(branch) = get(action, key) {
        proof {
            lemma_field_smaller(branch, "actions"@);
        }
        if let Some(value) = get(branch, "actions") {
            let base = pointer_join(pointer, key);
            let child_pointer = pointer_join(base.as_str(), "actions");
            collect_action_container_shape(
                value,
                child_pointer.as_str(),
                file,
                workflow,
                scope,
                diagnostics,
            );
        }
    }
}

fn collect_groups(
    action: &Node,
    key: &str,
    pointer: &str,
    file: &Document,
    workflow: &Workflow,
    scope: &ArmScope,
    diagnostics: &mut Vec<Diagnostic>,
)
    ensures
        findings(final(diagnostics)@) == findings(old(diagnostics)@)
            + groups_findings(action, key@, pointer@, file, workflow, scope),
    decreases action, 0nat,
{
    proof {
        lemma_field_smaller(action, key@);
    }
    if let Some(group) = get(action, key) {
        if let Some(members) = as_object(group) {
            assert(decreases_to!(group.kind => group.kind->Object_0));
            let base = pointer_join(pointer, key);
            collect_group(members, base.as_str(), file, workflow, scope, diagnostics);
        }
    }
}

fn collect_group(
    members: &Vec<Member>,
    base: &str,
    file: &Document,
    workflow: &Workflow,
    scope: &ArmScope,
    diagnostics: &mut Vec<Diagnostic>,
)
    ensures
        findings(final(diagnostics)@) == findings(old(diagnostics)@)
            + group_findings(*members, members@.len(), base@, file, workflow, scope),
    decreases members, 0nat,
{
    let ghost before = findings(diagnostics@);
    let mut i: usize = 0;
    while i < members.len()
        invariant
            i <= members.len(),
            findings(diagnostics@) == before
                + group_findings(*members, i as nat, base@, file, workflow, scope),
        decreases members.len() - i,
    {
        let entry = &members[i].value;
        proof {
            assert(decreases_to!(members => members[i as int]));
            lemma_field_smaller(entry, "actions"@);
        }
        if let Some(value) = get(entry, "actions") {
            let entry_pointer = pointer_join(base, members[i].name.as_str());
            let child_pointer = pointer_join(entry_pointer.as_str(), "actions");
            collect_action_container_shape(
                value,
                child_pointer.as_str(),
                file,
                workflow,
                scope,
                diagnostics,
            );
        }
        i += 1;
    }
}

/// A trigger type that needs state between runs.
pub open spec fn needs_state(kind: Seq<char>, recurs: bool) -> bool {
    ||| same_ignoring_case(kind, "Recurrence"@)
    ||| same_ignoring_case(kind, "SlidingWindow"@)
    ||| recurs
        && (
            same_ignoring_case(kind, "ApiConnection"@)
                || same_ignoring_case(kind, "ApiManagement"@)
                || same_ignoring_case(kind, "Http"@)
        )
}

fn trigger_needs_state(kind: &str, recurs: bool) -> (holds: bool)
    ensures
        holds == needs_state(kind@, recurs),
{
    eq_ignoring_case(kind, "Recurrence")
        || eq_ignoring_case(kind, "SlidingWindow")
        || (
            recurs
                && (
                    eq_ignoring_case(kind, "ApiConnection")
                        || eq_ignoring_case(kind, "ApiManagement")
                        || eq_ignoring_case(kind, "Http")
                )
        )
}

/// What is wrong with a trigger that needs state, in a Stateless workflow.
pub open spec fn trigger_context_findings(
    kind: Seq<char>,
    pointer: Seq<char>,
    file: &Document,
    workflow: &Workflow,
    span: Option<ByteSpan>,
    recurs: bool,
) -> Seq<Finding> {
    if stateless(workflow) && needs_state(kind, recurs) {
        issue(
            file,
            "workflow-shape-invalid-context"@,
            joined(pointer, "type"@),
            span,
            kind + " trigger is not supported in Stateless workflows"@,
        )
    } else {
        Seq::empty()
    }
}

/// Validate a trigger that needs state, in a Stateless workflow.
fn validate_trigger_workflow_context(
    kind: &str,
    pointer: &str,
    file: &Document,
    workflow: &Workflow,
    span: Option<ByteSpan>,
    recurs: bool,
    diagnostics: &mut Vec<Diagnostic>,
)
    ensures
        findings(final(diagnostics)@) == findings(old(diagnostics)@)
            + trigger_context_findings(kind@, pointer@, file, workflow, span, recurs),
{
    if workflow.is_stateless() && trigger_needs_state(kind, recurs) {
        let type_pointer = pointer_join(pointer, "type");
        let message = text2(kind, " trigger is not supported in Stateless workflows");
        report(
            file,
            "workflow-shape-invalid-context",
            type_pointer.as_str(),
            span,
            message.as_str(),
            diagnostics,
        );
    }
}

/// What is wrong with a trigger that an expression supplied, by its type.
pub open spec fn supplied_typed_trigger_findings(
    trigger: &Node,
    pointer: Seq<char>,
    file: &Document,
    workflow: &Workflow,
    source: ByteSpan,
) -> Seq<Finding> {
    match text_field(trigger, "type"@) {
        Some(kind) => match trigger_spec_of(kind) {
            Some(spec) => {
                let document = alone(trigger, file);
                respanned(
                    typed_trigger_findings(
                        spec,
                        trigger,
                        field(trigger, "inputs"@),
                        field(trigger, "recurrence"@),
                        pointer,
                        &document,
                        workflow,
                    )
                        + common_findings(
                            trigger,
                            pointer,
                            "trigger"@,
                            &document,
                            workflow,
                            file.arm,
                        )
                        + trigger_common_findings(trigger, pointer, &document),
                    Some(source),
                )
            },
            None => Seq::empty(),
        },
        None => Seq::empty(),
    }
}

/// Validate a trigger that an expression supplied, by its type. Findings are
/// reported where the expression was written.
fn validate_materialized_json_trigger(
    trigger: &Node,
    pointer: &str,
    file: &Document,
    workflow: &Workflow,
    source: ByteSpan,
    diagnostics: &mut Vec<Diagnostic>,
)
    ensures
        findings(final(diagnostics)@) == findings(old(diagnostics)@)
            + supplied_typed_trigger_findings(trigger, pointer@, file, workflow, source),
{
    if let Some(kind) = get_string(trigger, "type") {
        if let Some(spec) = trigger_spec(kind) {
            let document = document_of(trigger, file);
            let mut found: Vec<Diagnostic> = Vec::new();
            proof {
                lemma_findings_index(found@);
                assert(findings(found@) =~= Seq::<Finding>::empty());
            }
            validate_typed_trigger(
                spec,
                trigger,
                get(trigger, "inputs"),
                get(trigger, "recurrence"),
                pointer,
                &document,
                workflow,
                &mut found,
            );
            validate_common_fields(
                trigger,
                pointer,
                "trigger",
                &document,
                workflow,
                file.arm,
                &mut found,
            );
            validate_trigger_common_fields(trigger, pointer, &document, &mut found);
            extend_with_span(diagnostics, &found, Some(source));
        }
    }
}

/// What is wrong with a trigger that an expression supplied.
pub open spec fn supplied_trigger_findings(
    trigger: &Node,
    pointer: Seq<char>,
    file: &Document,
    workflow: &Workflow,
    source: ByteSpan,
) -> Seq<Finding> {
    if is_unresolved(file, trigger) {
        Seq::empty()
    } else if !(trigger.kind is Object) {
        issue(
            file,
            "workflow-shape-invalid-type"@,
            pointer,
            Some(source),
            "trigger entries must be objects"@,
        )
    } else {
        match field(trigger, "type"@) {
            None => issue(
                file,
                "workflow-shape-missing-field"@,
                joined(pointer, "type"@),
                Some(source),
                "trigger is missing required field 'type'"@,
            ),
            Some(declared) => match text_of(&declared) {
                None => issue(
                    file,
                    "workflow-shape-invalid-type"@,
                    joined(pointer, "type"@),
                    Some(source),
                    "trigger type must be a string"@,
                ),
                Some(kind) => if is_unresolved(file, &declared) {
                    Seq::empty()
                } else if trigger_spec_of(kind) is None {
                    issue(
                        file,
                        "workflow-shape-unknown-type"@,
                        joined(pointer, "type"@),
                        Some(source),
                        "unknown trigger type '"@ + kind + "'"@,
                    )
                } else {
                    trigger_context_findings(
                        kind,
                        pointer,
                        file,
                        workflow,
                        Some(source),
                        present(file, trigger, "recurrence"@) is Some,
                    )
                        + supplied_typed_trigger_findings(trigger, pointer, file, workflow, source)
                },
            },
        }
    }
}

/// Validate a trigger that an expression supplied.
fn validate_json_trigger_shape(
    trigger: &Node,
    pointer: &str,
    file: &Document,
    workflow: &Workflow,
    source: ByteSpan,
    diagnostics: &mut Vec<Diagnostic>,
)
    ensures
        findings(final(diagnostics)@) == findings(old(diagnostics)@)
            + supplied_trigger_findings(trigger, pointer@, file, workflow, source),
{
    if unresolved_arm_expression_from_spanned(file, trigger) {
        return;
    }
    if !trigger.is_object() {
        report(
            file,
            "workflow-shape-invalid-type",
            pointer,
            Some(source),
            "trigger entries must be objects",
            diagnostics,
        );
        return;
    }
    let type_pointer = pointer_join(pointer, "type");
    match get(trigger, "type") {
        None => {
            report(
                file,
                "workflow-shape-missing-field",
                type_pointer.as_str(),
                Some(source),
                "trigger is missing required field 'type'",
                diagnostics,
            );
        },
        Some(declared) => match as_string(declared) {
            None => {
                report(
                    file,
                    "workflow-shape-invalid-type",
                    type_pointer.as_str(),
                    Some(source),
                    "trigger type must be a string",
                    diagnostics,
                );
            },
            Some(kind) => {
                if unresolved_arm_expression_from_spanned(file, declared) {
                    return;
                }
                if trigger_spec(kind).is_none() {
                    let message = text3("unknown trigger type '", kind, "'");
                    report(
                        file,
                        "workflow-shape-unknown-type",
                        type_pointer.as_str(),
                        Some(source),
                        message.as_str(),
                        diagnostics,
                    );
                    return;
                }
                validate_trigger_workflow_context(
                    kind,
                    pointer,
                    file,
                    workflow,
                    Some(source),
                    get_present(file, trigger, "recurrence").is_some(),
                    diagnostics,
                );
                validate_materialized_json_trigger(
                    trigger,
                    pointer,
                    file,
                    workflow,
                    source,
                    diagnostics,
                );
            },
        },
    }
}

/// What is wrong with the first `n` of the triggers that an expression supplied.
pub open spec fn supplied_trigger_list_findings(
    members: Seq<Member>,
    n: nat,
    pointer: Seq<char>,
    file: &Document,
    workflow: &Workflow,
    source: ByteSpan,
) -> Seq<Finding>
    decreases n,
{
    if n == 0 {
        Seq::empty()
    } else {
        let item = members[n - 1].value;
        let name = members[n - 1].name@;
        supplied_trigger_list_findings(members, (n - 1) as nat, pointer, file, workflow, source)
            + (if is_absent_entry(file, &item) {
            Seq::empty()
        } else {
            name_length_findings(name, joined(pointer, name), "trigger"@, file, Some(source))
                + supplied_trigger_findings(&item, joined(pointer, name), file, workflow, source)
        })
    }
}

fn collect_json_trigger_shape(
    members: &Vec<Member>,
    pointer: &str,
    file: &Document,
    workflow: &Workflow,
    source: ByteSpan,
    diagnostics: &mut Vec<Diagnostic>,
)
    ensures
        findings(final(diagnostics)@) == findings(old(diagnostics)@)
            + supplied_trigger_list_findings(
                members@,
                members@.len(),
                pointer@,
                file,
                workflow,
                source,
            ),
{
    let ghost before = findings(diagnostics@);
    let mut i: usize = 0;
    while i < members.len()
        invariant
            i <= members.len(),
            findings(diagnostics@) == before
                + supplied_trigger_list_findings(
                    members@,
                    i as nat,
                    pointer@,
                    file,
                    workflow,
                    source,
                ),
        decreases members.len() - i,
    {
        let item = &members[i].value;
        let name = members[i].name.as_str();
        if !materialized_arm_entry_absent(file, item) {
            let item_pointer = pointer_join(pointer, name);
            validate_operation_name_length(
                name,
                item_pointer.as_str(),
                "trigger",
                file,
                Some(source),
                diagnostics,
            );
            validate_json_trigger_shape(
                item,
                item_pointer.as_str(),
                file,
                workflow,
                source,
                diagnostics,
            );
        }
        i += 1;
    }
}

/// What a field of a trigger becomes once expressions in scope are resolved.
pub open spec fn scoped_field(
    trigger: &Node,
    key: Seq<char>,
    file: &Document,
    scope: &ArmScope,
) -> Option<Node> {
    match field(trigger, key) {
        Some(value) => scoped_value(file, &value, scope),
        None => None,
    }
}

/// A field of a trigger as it is checked: resolved where that changes it, and
/// gone where it resolves to null.
pub open spec fn effective_field(
    trigger: &Node,
    key: Seq<char>,
    file: &Document,
    scope: &ArmScope,
) -> Option<Node> {
    match scoped_field(trigger, key, file, scope) {
        Some(value) => if value.kind is Null { None } else { Some(value) },
        None => field(trigger, key),
    }
}

/// Where the first field of a trigger that resolves was written.
pub open spec fn scoped_source(
    trigger: &Node,
    file: &Document,
    scope: &ArmScope,
) -> Option<ByteSpan> {
    if scoped_field(trigger, "inputs"@, file, scope) is Some {
        Some(field(trigger, "inputs"@)->Some_0.span)
    } else if scoped_field(trigger, "recurrence"@, file, scope) is Some {
        Some(field(trigger, "recurrence"@)->Some_0.span)
    } else {
        None
    }
}

fn get_scoped_field<'a>(
    trigger: &Node,
    key: &str,
    file: &Document,
    scope: &'a ArmScope,
) -> (found: Option<&'a Node>)
    ensures
        node_in(found) == scoped_field(trigger, key@, file, scope),
{
    match get(trigger, key) {
        Some(value) => materialized_value(file, value, scope),
        None => None,
    }
}

fn get_effective_field<'a>(
    trigger: &'a Node,
    key: &str,
    file: &Document,
    scope: &'a ArmScope,
) -> (found: Option<&'a Node>)
    ensures
        node_in(found) == effective_field(trigger, key@, file, scope),
{
    match get_scoped_field(trigger, key, file, scope) {
        Some(value) => if value.is_null() { None } else { Some(value) },
        None => get(trigger, key),
    }
}

fn get_scoped_source(trigger: &Node, file: &Document, scope: &ArmScope) -> (span: Option<ByteSpan>)
    ensures
        span == scoped_source(trigger, file, scope),
{
    if get_scoped_field(trigger, "inputs", file, scope).is_some() {
        match get(trigger, "inputs") {
            Some(value) => Some(value.span),
            None => None,
        }
    } else if get_scoped_field(trigger, "recurrence", file, scope).is_some() {
        match get(trigger, "recurrence") {
            Some(value) => Some(value.span),
            None => None,
        }
    } else {
        None
    }
}

/// What is wrong with a trigger of a known type. Inputs and recurrences that
/// template expressions supply are checked in their resolved form, and then
/// everything is reported where they were written.
pub open spec fn known_trigger_findings(
    spec: TriggerSpec,
    trigger: &Node,
    pointer: Seq<char>,
    file: &Document,
    workflow: &Workflow,
    scope: &ArmScope,
) -> Seq<Finding> {
    let own = typed_trigger_findings(
        spec,
        trigger,
        effective_field(trigger, "inputs"@, file, scope),
        effective_field(trigger, "recurrence"@, file, scope),
        pointer,
        file,
        workflow,
    )
        + common_findings(trigger, pointer, "trigger"@, file, workflow, scope);
    match scoped_source(trigger, file, scope) {
        Some(span) => respanned(own, Some(span)),
        None => own,
    }
}

/// Validate a trigger of a known type.
fn validate_with_scoped_trigger_fields(
    spec: TriggerSpec,
    trigger: &Node,
    pointer: &str,
    file: &Document,
    workflow: &Workflow,
    scope: &ArmScope,
    diagnostics: &mut Vec<Diagnostic>,
)
    ensures
        findings(final(diagnostics)@) == findings(old(diagnostics)@)
            + known_trigger_findings(spec, trigger, pointer@, file, workflow, scope),
{
    let given = get_effective_field(trigger, "inputs", file, scope);
    let recurrence = get_effective_field(trigger, "recurrence", file, scope);
    match get_scoped_source(trigger, file, scope) {
        Some(span) => {
            let mut found: Vec<Diagnostic> = Vec::new();
            proof {
                lemma_findings_index(found@);
                assert(findings(found@) =~= Seq::<Finding>::empty());
            }
            validate_typed_trigger(
                spec,
                trigger,
                given,
                recurrence,
                pointer,
                file,
                workflow,
                &mut found,
            );
            validate_common_fields(trigger, pointer, "trigger", file, workflow, scope, &mut found);
            extend_with_span(diagnostics, &found, Some(span));
        },
        None => {
            validate_typed_trigger(
                spec,
                trigger,
                given,
                recurrence,
                pointer,
                file,
                workflow,
                diagnostics,
            );
            validate_common_fields(trigger, pointer, "trigger", file, workflow, scope, diagnostics);
        },
    }
}

/// What is wrong with an authored trigger.
pub open spec fn authored_trigger_findings(
    trigger: &Node,
    pointer: Seq<char>,
    file: &Document,
    workflow: &Workflow,
    scope: &ArmScope,
) -> Seq<Finding> {
    match field(trigger, "type"@) {
        None => missing(
            file,
            pointer,
            "type"@,
            trigger.span,
            "trigger is missing required field 'type'"@,
        ),
        Some(declared) => match static_text(file, &declared) {
            Some(kind) => match trigger_spec_of(kind) {
                None => issue(
                    file,
                    "workflow-shape-unknown-type"@,
                    joined(pointer, "type"@),
                    Some(declared.span),
                    "unknown trigger type '"@ + kind + "'"@,
                ),
                Some(spec) => trigger_context_findings(
                    kind,
                    pointer,
                    file,
                    workflow,
                    Some(declared.span),
                    present(file, trigger, "recurrence"@) is Some,
                )
                    + known_trigger_findings(spec, trigger, pointer, file, workflow, scope)
                    + trigger_common_findings(trigger, pointer, file),
            },
            None => if is_unresolved(file, &declared) {
                untyped_common_findings(trigger, pointer, "trigger"@, file, workflow, scope)
                    + trigger_common_findings(trigger, pointer, file)
            } else if is_opaque(file, &declared) || !(declared.kind is String) {
                wrong_type(file, pointer, "type"@, declared.span, "trigger type must be a string"@)
            } else {
                missing(
                    file,
                    pointer,
                    "type"@,
                    trigger.span,
                    "trigger is missing required field 'type'"@,
                )
            },
        },
    }
}

fn collect_authored_trigger(
    trigger: &Node,
    pointer: &str,
    file: &Document,
    workflow: &Workflow,
    scope: &ArmScope,
    diagnostics: &mut Vec<Diagnostic>,
)
    ensures
        findings(final(diagnostics)@) == findings(old(diagnostics)@)
            + authored_trigger_findings(trigger, pointer@, file, workflow, scope),
{
    match get(trigger, "type") {
        None => {
            report_missing(
                file,
                pointer,
                "type",
                trigger.span,
                "trigger is missing required field 'type'",
                diagnostics,
            );
        },
        Some(declared) => match static_string_from_spanned(file, declared) {
            Some(kind) => match trigger_spec(kind) {
                None => {
                    let type_pointer = pointer_join(pointer, "type");
                    let message = text3("unknown trigger type '", kind, "'");
                    report(
                        file,
                        "workflow-shape-unknown-type",
                        type_pointer.as_str(),
                        Some(declared.span),
                        message.as_str(),
                        diagnostics,
                    );
                },
                Some(spec) => {
                    validate_trigger_workflow_context(
                        kind,
                        pointer,
                        file,
                        workflow,
                        Some(declared.span),
                        get_present(file, trigger, "recurrence").is_some(),
                        diagnostics,
                    );
                    validate_with_scoped_trigger_fields(
                        spec,
                        trigger,
                        pointer,
                        file,
                        workflow,
                        scope,
                        diagnostics,
                    );
                    validate_trigger_common_fields(trigger, pointer, file, diagnostics);
                },
            },
            None => {
                if unresolved_arm_expression_from_spanned(file, declared) {
                    validate_type_independent_common_fields(
                        trigger,
                        pointer,
                        "trigger",
                        file,
                        workflow,
                        scope,
                        diagnostics,
                    );
                    validate_trigger_common_fields(trigger, pointer, file, diagnostics);
                } else if is_opaque_arm_expression(file, declared) || !declared.is_string() {
                    report_type(
                        file,
                        pointer,
                        "type",
                        declared.span,
                        "trigger type must be a string",
                        diagnostics,
                    );
                } else {
                    report_missing(
                        file,
                        pointer,
                        "type",
                        trigger.span,
                        "trigger is missing required field 'type'",
                        diagnostics,
                    );
                }
            },
        },
    }
}

/// What is wrong with the first `n` of the triggers of a workflow.
pub open spec fn trigger_list_findings(
    members: Seq<Member>,
    n: nat,
    pointer: Seq<char>,
    file: &Document,
    workflow: &Workflow,
    scope: &ArmScope,
) -> Seq<Finding>
    decreases n,
{
    if n == 0 {
        Seq::empty()
    } else {
        let item = members[n - 1].value;
        let name = members[n - 1].name@;
        trigger_list_findings(members, (n - 1) as nat, pointer, file, workflow, scope)
            + (if is_absent(file, &item) {
            Seq::empty()
        } else {
            name_length_findings(name, joined(pointer, name), "trigger"@, file, Some(item.span))
                + (if is_opaque(file, &item) {
                match resolved(file, &item, file.arm) {
                    Some(result) => if result.kind is Object {
                        supplied_trigger_findings(
                            &result,
                            joined(pointer, name),
                            file,
                            workflow,
                            item.span,
                        )
                    } else {
                        issue(
                            file,
                            "workflow-shape-invalid-type"@,
                            joined(pointer, name),
                            Some(item.span),
                            "trigger entries must be objects"@,
                        )
                    },
                    None => Seq::empty(),
                }
            } else if item.kind is Object {
                authored_trigger_findings(&item, joined(pointer, name), file, workflow, scope)
            } else {
                issue(
                    file,
                    "workflow-shape-invalid-type"@,
                    joined(pointer, name),
                    Some(item.span),
                    "trigger entries must be objects"@,
                )
            })
        })
    }
}

fn collect_trigger_entries(
    members: &Vec<Member>,
    pointer: &str,
    file: &Document,
    workflow: &Workflow,
    scope: &ArmScope,
    diagnostics: &mut Vec<Diagnostic>,
)
    ensures
        findings(final(diagnostics)@) == findings(old(diagnostics)@)
            + trigger_list_findings(members@, members@.len(), pointer@, file, workflow, scope),
{
    let ghost before = findings(diagnostics@);
    let mut i: usize = 0;
    while i < members.len()
        invariant
            i <= members.len(),
            findings(diagnostics@) == before
                + trigger_list_findings(members@, i as nat, pointer@, file, workflow, scope),
        decreases members.len() - i,
    {
        let item = &members[i].value;
        let name = members[i].name.as_str();
        if !arm_optional_property_absent(file, item) {
            let item_pointer = pointer_join(pointer, name);
            validate_operation_name_length(
                name,
                item_pointer.as_str(),
                "trigger",
                file,
                Some(item.span),
                diagnostics,
            );
            if is_opaque_arm_expression(file, item) {
                if let Some(result) = static_json_value_from_spanned(file, item) {
                    if result.is_object() {
                        validate_json_trigger_shape(
                            result,
                            item_pointer.as_str(),
                            file,
                            workflow,
                            item.span,
                            diagnostics,
                        );
                    } else {
                        report(
                            file,
                            "workflow-shape-invalid-type",
                            item_pointer.as_str(),
                            Some(item.span),
                            "trigger entries must be objects",
                            diagnostics,
                        );
                    }
                }
            } else if item.is_object() {
                collect_authored_trigger(
                    item,
                    item_pointer.as_str(),
                    file,
                    workflow,
                    scope,
                    diagnostics,
                );
            } else {
                report(
                    file,
                    "workflow-shape-invalid-type",
                    item_pointer.as_str(),
                    Some(item.span),
                    "trigger entries must be objects",
                    diagnostics,
                );
            }
        }
        i += 1;
    }
}

/// What is wrong with the `triggers` of a workflow.
pub open spec fn triggers_findings(
    value: &Node,
    pointer: Seq<char>,
    file: &Document,
    workflow: &Workflow,
    scope: &ArmScope,
) -> Seq<Finding> {
    if is_absent(file, value) {
        Seq::empty()
    } else {
        if is_opaque(file, value) {
            match resolved(file, value, file.arm) {
                Some(result) => match result.kind {
                    Json::Object(members) => supplied_trigger_list_findings(
                        members@,
                        members@.len(),
                        pointer,
                        file,
                        workflow,
                        value.span,
                    ),
                    _ => issue(
                        file,
                        "workflow-shape-invalid-type"@,
                        pointer,
                        Some(value.span),
                        "triggers must be an object"@,
                    ),
                },
                None => Seq::empty(),
            }
        } else {
            match value.kind {
                Json::Object(members) => trigger_list_findings(
                    members@,
                    members@.len(),
                    pointer,
                    file,
                    workflow,
                    scope,
                ),
                _ => Seq::empty(),
            }
        }
    }
}

/// Validate the `triggers` of a workflow.
pub fn collect_trigger_shape(
    value: &Node,
    pointer: &str,
    file: &Document,
    workflow: &Workflow,
    scope: &ArmScope,
    diagnostics: &mut Vec<Diagnostic>,
)
    ensures
        findings(final(diagnostics)@) == findings(old(diagnostics)@)
            + triggers_findings(value, pointer@, file, workflow, scope),
{
    if !arm_optional_property_absent(file, value) {
        if is_opaque_arm_expression(file, value) {
            if let Some(result) = static_json_value_from_spanned(file, value) {
                match as_object(result) {
                    Some(members) => {
                        collect_json_trigger_shape(
                            members,
                            pointer,
                            file,
                            workflow,
                            value.span,
                            diagnostics,
                        );
                    },
                    None => {
                        report(
                            file,
                            "workflow-shape-invalid-type",
                            pointer,
                            Some(value.span),
                            "triggers must be an object",
                            diagnostics,
                        );
                    },
                }
            }
        } else {
            if let Some(members) = as_object(value) {
                collect_trigger_entries(members, pointer, file, workflow, scope, diagnostics);
            }
        }
    }
}
} // verus!
