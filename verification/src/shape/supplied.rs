//! Actions that template expressions supply.
//!
//! They are checked like authored ones, and every finding is reported where the
//! expression was written.

use vstd::prelude::*;

use crate::arm::ArmScope;
use crate::diagnostic::{findings, ByteSpan, Diagnostic, Finding};
use crate::json::{
    as_object, as_string, field, get, get_string, joined, lemma_field_smaller, pointer_join,
    text_field, text_of, Document, Json, Member, Node,
};
use crate::shape::arm_boundary::{is_unresolved, unresolved_arm_expression_from_spanned};
use crate::shape::common::{common_findings, validate_common_fields};
use crate::shape::limits::{
    is_absent_entry, materialized_arm_entry_absent, name_length_findings,
    validate_operation_name_length,
};
use crate::shape::registry::{action_spec, action_spec_of, action_findings, validate_action};
use crate::shape::report::{issue, report, extend_with_span, respanned};
use crate::shape::run_after::{supplied_run_after_findings, validate_supplied_run_after};
use crate::text::{text2, text3, text_in};
use crate::workflow::{ActionKind, Workflow, action_kind};
use crate::arm::known;
use crate::diagnostic::lemma_findings_index;

verus! {

broadcast use crate::diagnostic::group_findings;

/// What a text says, where an expression may have supplied it.
pub open spec fn supplied_text(file: &Document, value: &Node) -> Option<Seq<char>> {
    match text_of(value) {
        Some(text) => match known(file.arm, text) {
            Some(expression) => match expression.string {
                Some(result) => Some(result@),
                None => None,
            },
            None => Some(text),
        },
        None => None,
    }
}

/// Resolve a text that an expression may have supplied.
pub fn static_string_from_json<'a>(file: &'a Document, value: &'a Node) -> (found: Option<&'a str>)
    ensures
        match found {
            Some(text) => supplied_text(file, value) == Some(text@),
            None => supplied_text(file, value) is None,
        },
{
    match as_string(value) {
        Some(text) => match file.arm.lookup(text) {
            Some(expression) => match &expression.string {
                Some(result) => Some(result.as_str()),
                None => None,
            },
            None => Some(text),
        },
        None => None,
    }
}

/// How a message names an action that supports no child actions.
pub open spec fn childless_message(kind: Option<Seq<char>>) -> Seq<char> {
    match kind {
        Some(text) => text + " action does not support child actions"@,
        None => "action"@ + " action does not support child actions"@,
    }
}

pub fn childless_text(kind: Option<&str>) -> (message: String)
    ensures
        message@ == childless_message(text_in(kind)),
{
    match kind {
        Some(text) => text2(text, " action does not support child actions"),
        None => text2("action", " action does not support child actions"),
    }
}

/// The type of an action is not known, or has an `actions` container.
pub open spec fn may_have_actions(untyped: bool, kind: Option<Seq<char>>) -> bool {
    let class = action_kind(kind);
    untyped || class is Foreach || class is If || class is Scope || class is Until
}

/// The document that an action or trigger is by itself.
pub open spec fn alone<'a>(value: &'a Node, file: &Document<'a>) -> Document<'a> {
    Document { path: file.path, value, arm: file.arm, finite_numbers: file.finite_numbers, clock: file.clock }
}

pub fn document_of<'a>(value: &'a Node, file: &Document<'a>) -> (document: Document<'a>)
    ensures
        document == alone(value, file),
{
    Document { path: file.path, value, arm: file.arm, finite_numbers: file.finite_numbers, clock: file.clock }
}

/// What is wrong with an action that an expression supplied, by its type.
pub open spec fn supplied_typed_findings(
    action: &Node,
    pointer: Seq<char>,
    container: Seq<char>,
    file: &Document,
    workflow: &Workflow,
    source: ByteSpan,
    scope: &ArmScope,
) -> Seq<Finding> {
    match text_field(action, "type"@) {
        Some(kind) => match action_spec_of(kind) {
            Some(spec) => {
                let document = alone(action, file);
                respanned(
                    action_findings(
                        spec,
                        action,
                        pointer,
                        container,
                        kind,
                        &document,
                        workflow,
                        scope,
                    )
                        + common_findings(action, pointer, "action"@, &document, workflow, scope),
                    Some(source),
                )
            },
            None => Seq::empty(),
        },
        None => Seq::empty(),
    }
}

/// Validate an action that an expression supplied, by its type. Findings are
/// reported where the expression was written.
fn validate_materialized_json_action(
    action: &Node,
    pointer: &str,
    container: &str,
    file: &Document,
    workflow: &Workflow,
    source: ByteSpan,
    scope: &ArmScope,
    diagnostics: &mut Vec<Diagnostic>,
)
    ensures
        findings(final(diagnostics)@) == findings(old(diagnostics)@)
            + supplied_typed_findings(action, pointer@, container@, file, workflow, source, scope),
{
    if let Some(kind) = get_string(action, "type") {
        if let Some(spec) = action_spec(kind) {
            let document = document_of(action, file);
            let mut found: Vec<Diagnostic> = Vec::new();
            proof {
                lemma_findings_index(found@);
                assert(findings(found@) =~= Seq::<Finding>::empty());
            }
            validate_action(
                spec,
                action,
                pointer,
                container,
                kind,
                &document,
                workflow,
                scope,
                &mut found,
            );
            validate_common_fields(
                action,
                pointer,
                "action",
                &document,
                workflow,
                scope,
                &mut found,
            );
            extend_with_span(diagnostics, &found, Some(source));
        }
    }
}

/// What is wrong with the `actions` of a container that an expression supplied.
pub open spec fn supplied_children_findings(
    holder: &Node,
    parent: Seq<char>,
    allowed: bool,
    kind: Option<Seq<char>>,
    file: &Document,
    workflow: &Workflow,
    source: ByteSpan,
    scope: &ArmScope,
) -> Seq<Finding>
    decreases holder, 0nat,
{
    proof {
        lemma_field_smaller(holder, "actions"@);
    }
    match field(holder, "actions"@) {
        Some(node) => if allowed {
            match node.kind {
                Json::Object(members) => supplied_list_findings(
                    members,
                    members@.len(),
                    joined(parent, "actions"@),
                    file,
                    workflow,
                    source,
                    scope,
                ),
                _ => Seq::empty(),
            }
        } else if is_absent_entry(file, &node) || is_unresolved(file, &node) {
            Seq::empty()
        } else {
            issue(
                file,
                "workflow-shape-invalid-context"@,
                joined(parent, "actions"@),
                Some(source),
                childless_message(kind),
            )
        },
        None => Seq::empty(),
    }
}

/// What is wrong with the first `n` actions that an expression supplied.
pub open spec fn supplied_list_findings(
    members: Vec<Member>,
    n: nat,
    pointer: Seq<char>,
    file: &Document,
    workflow: &Workflow,
    source: ByteSpan,
    scope: &ArmScope,
) -> Seq<Finding>
    decreases members, n,
{
    if n == 0 || n > members@.len() {
        Seq::empty()
    } else {
        let action = members[n - 1].value;
        let name = members[n - 1].name@;
        supplied_list_findings(members, (n - 1) as nat, pointer, file, workflow, source, scope)
            + (if is_absent_entry(file, &action) {
            Seq::empty()
        } else {
            name_length_findings(name, joined(pointer, name), "action"@, file, Some(source))
                + supplied_action_findings(
                    &members[n - 1].value,
                    joined(pointer, name),
                    pointer,
                    file,
                    workflow,
                    source,
                    scope,
                )
        })
    }
}

/// What is wrong with the actions of each case or tool that an expression supplied.
pub open spec fn supplied_group_findings(
    members: Vec<Member>,
    n: nat,
    base: Seq<char>,
    kind: Option<Seq<char>>,
    file: &Document,
    workflow: &Workflow,
    source: ByteSpan,
    scope: &ArmScope,
) -> Seq<Finding>
    decreases members, n,
{
    if n == 0 || n > members@.len() {
        Seq::empty()
    } else {
        supplied_group_findings(members, (n - 1) as nat, base, kind, file, workflow, source, scope)
            + supplied_children_findings(
                &members[n - 1].value,
                joined(base, members[n - 1].name@),
                true,
                kind,
                file,
                workflow,
                source,
                scope,
            )
    }
}

/// What is wrong with the actions of a case or tool group.
pub open spec fn supplied_groups_findings(
    action: &Node,
    key: Seq<char>,
    pointer: Seq<char>,
    kind: Option<Seq<char>>,
    file: &Document,
    workflow: &Workflow,
    source: ByteSpan,
    scope: &ArmScope,
) -> Seq<Finding>
    decreases action, 0nat,
{
    proof {
        lemma_field_smaller(action, key);
    }
    match field(action, key) {
        Some(group) => match group.kind {
            Json::Object(members) => supplied_group_findings(
                members,
                members@.len(),
                joined(pointer, key),
                kind,
                file,
                workflow,
                source,
                scope,
            ),
            _ => Seq::empty(),
        },
        None => Seq::empty(),
    }
}

/// What is wrong with the actions of a branch that an expression supplied.
pub open spec fn supplied_branch_findings(
    action: &Node,
    key: Seq<char>,
    pointer: Seq<char>,
    kind: Option<Seq<char>>,
    file: &Document,
    workflow: &Workflow,
    source: ByteSpan,
    scope: &ArmScope,
) -> Seq<Finding>
    decreases action, 0nat,
{
    proof {
        lemma_field_smaller(action, key);
    }
    match field(action, key) {
        Some(branch) => {
            supplied_children_findings(
                &branch,
                joined(pointer, key),
                true,
                kind,
                file,
                workflow,
                source,
                scope,
            )
        },
        None => Seq::empty(),
    }
}

/// What is wrong with the actions below an action that an expression supplied.
pub open spec fn supplied_nested_findings(
    action: &Node,
    pointer: Seq<char>,
    untyped: bool,
    kind: Option<Seq<char>>,
    file: &Document,
    workflow: &Workflow,
    source: ByteSpan,
    scope: &ArmScope,
) -> Seq<Finding>
    decreases action, 1nat,
{
    let class = action_kind(kind);
    supplied_children_findings(
        action,
        pointer,
        may_have_actions(untyped, kind),
        kind,
        file,
        workflow,
        source,
        scope,
    )
        + (if untyped || class is Switch {
        supplied_groups_findings(action, "cases"@, pointer, kind, file, workflow, source, scope)
    } else {
        Seq::empty()
    }) + (if untyped || class is Switch {
        supplied_branch_findings(action, "default"@, pointer, kind, file, workflow, source, scope)
    } else {
        Seq::empty()
    }) + (if untyped || class is If {
        supplied_branch_findings(action, "else"@, pointer, kind, file, workflow, source, scope)
    } else {
        Seq::empty()
    }) + (if untyped || class is Agent {
        supplied_groups_findings(action, "tools"@, pointer, kind, file, workflow, source, scope)
    } else {
        Seq::empty()
    })
}

/// What is wrong with an action that an expression supplied.
pub open spec fn supplied_action_findings(
    action: &Node,
    pointer: Seq<char>,
    container: Seq<char>,
    file: &Document,
    workflow: &Workflow,
    source: ByteSpan,
    scope: &ArmScope,
) -> Seq<Finding>
    decreases action, 2nat,
{
    if is_unresolved(file, action) {
        Seq::empty()
    } else if !(action.kind is Object) {
        issue(
            file,
            "workflow-shape-invalid-type"@,
            pointer,
            Some(source),
            "action entries must be objects"@,
        )
    } else {
        match field(action, "type"@) {
            None => issue(
                file,
                "workflow-shape-missing-field"@,
                joined(pointer, "type"@),
                Some(source),
                "action is missing required field 'type'"@,
            ),
            Some(declared) => match supplied_text(file, &declared) {
                Some(kind) => if action_spec_of(kind) is None {
                    issue(
                        file,
                        "workflow-shape-unknown-type"@,
                        joined(pointer, "type"@),
                        Some(source),
                        "unknown action type '"@ + kind + "'"@,
                    )
                } else {
                    supplied_typed_findings(
                        action,
                        pointer,
                        container,
                        file,
                        workflow,
                        source,
                        scope,
                    )
                        + supplied_run_after_findings(action, pointer, file, scope, source)
                        + supplied_nested_findings(
                            action,
                            pointer,
                            false,
                            Some(kind),
                            file,
                            workflow,
                            source,
                            scope,
                        )
                },
                None => if is_unresolved(file, &declared) {
                    supplied_run_after_findings(action, pointer, file, scope, source)
                        + supplied_nested_findings(
                            action,
                            pointer,
                            true,
                            None,
                            file,
                            workflow,
                            source,
                            scope,
                        )
                } else {
                    issue(
                        file,
                        "workflow-shape-invalid-type"@,
                        joined(pointer, "type"@),
                        Some(source),
                        "action type must be a string"@,
                    )
                },
            },
        }
    }
}

/// Validate the `actions` of a container that an expression supplied.
fn collect_child_json_actions(
    holder: &Node,
    parent: &str,
    allowed: bool,
    kind: Option<&str>,
    file: &Document,
    workflow: &Workflow,
    source: ByteSpan,
    scope: &ArmScope,
    diagnostics: &mut Vec<Diagnostic>,
)
    ensures
        findings(final(diagnostics)@) == findings(old(diagnostics)@)
            + supplied_children_findings(
                holder,
                parent@,
                allowed,
                text_in(kind),
                file,
                workflow,
                source,
                scope,
            ),
    decreases holder, 0nat,
{
    proof {
        lemma_field_smaller(holder, "actions"@);
    }
    if let Some(node) = get(holder, "actions") {
        let pointer = pointer_join(parent, "actions");
        if allowed {
            if let Some(members) = as_object(node) {
                assert(decreases_to!(node.kind => node.kind->Object_0));
                collect_json_action_container_shape(
                    members,
                    pointer.as_str(),
                    file,
                    workflow,
                    source,
                    scope,
                    diagnostics,
                );
            }
        } else if !materialized_arm_entry_absent(file, node) && !unresolved_arm_expression_from_spanned(
            file,
            node,
        ) {
            let message = childless_text(kind);
            report(
                file,
                "workflow-shape-invalid-context",
                pointer.as_str(),
                Some(source),
                message.as_str(),
                diagnostics,
            );
        }
    }
}

/// Validate the actions that an expression supplied.
pub fn collect_json_action_container_shape(
    members: &Vec<Member>,
    pointer: &str,
    file: &Document,
    workflow: &Workflow,
    source: ByteSpan,
    scope: &ArmScope,
    diagnostics: &mut Vec<Diagnostic>,
)
    ensures
        findings(final(diagnostics)@) == findings(old(diagnostics)@)
            + supplied_list_findings(
                *members,
                members@.len(),
                pointer@,
                file,
                workflow,
                source,
                scope,
            ),
    decreases members, 0nat,
{
    let ghost before = findings(diagnostics@);
    let mut i: usize = 0;
    while i < members.len()
        invariant
            i <= members.len(),
            findings(diagnostics@) == before
                + supplied_list_findings(
                    *members,
                    i as nat,
                    pointer@,
                    file,
                    workflow,
                    source,
                    scope,
                ),
        decreases members.len() - i,
    {
        let action = &members[i].value;
        assert(decreases_to!(members => members[i as int]));
        if !materialized_arm_entry_absent(file, action) {
            let name = members[i].name.as_str();
            let action_pointer = pointer_join(pointer, name);
            validate_operation_name_length(
                name,
                action_pointer.as_str(),
                "action",
                file,
                Some(source),
                diagnostics,
            );
            validate_json_action_shape(
                action,
                action_pointer.as_str(),
                pointer,
                file,
                workflow,
                source,
                scope,
                diagnostics,
            );
        }
        i += 1;
    }
}

fn collect_json_group(
    members: &Vec<Member>,
    base: &str,
    kind: Option<&str>,
    file: &Document,
    workflow: &Workflow,
    source: ByteSpan,
    scope: &ArmScope,
    diagnostics: &mut Vec<Diagnostic>,
)
    ensures
        findings(final(diagnostics)@) == findings(old(diagnostics)@)
            + supplied_group_findings(
                *members,
                members@.len(),
                base@,
                text_in(kind),
                file,
                workflow,
                source,
                scope,
            ),
    decreases members, 0nat,
{
    let ghost before = findings(diagnostics@);
    let mut i: usize = 0;
    while i < members.len()
        invariant
            i <= members.len(),
            findings(diagnostics@) == before
                + supplied_group_findings(
                    *members,
                    i as nat,
                    base@,
                    text_in(kind),
                    file,
                    workflow,
                    source,
                    scope,
                ),
        decreases members.len() - i,
    {
        let entry = &members[i].value;
        let pointer = pointer_join(base, members[i].name.as_str());
        assert(decreases_to!(members => members[i as int]));
        collect_child_json_actions(
            entry,
            pointer.as_str(),
            true,
            kind,
            file,
            workflow,
            source,
            scope,
            diagnostics,
        );
        i += 1;
    }
}

fn collect_json_groups(
    action: &Node,
    key: &str,
    pointer: &str,
    kind: Option<&str>,
    file: &Document,
    workflow: &Workflow,
    source: ByteSpan,
    scope: &ArmScope,
    diagnostics: &mut Vec<Diagnostic>,
)
    ensures
        findings(final(diagnostics)@) == findings(old(diagnostics)@)
            + supplied_groups_findings(
                action,
                key@,
                pointer@,
                text_in(kind),
                file,
                workflow,
                source,
                scope,
            ),
    decreases action, 0nat,
{
    proof {
        lemma_field_smaller(action, key@);
    }
    if let Some(group) = get(action, key) {
        if let Some(members) = as_object(group) {
            assert(decreases_to!(group.kind => group.kind->Object_0));
            let base = pointer_join(pointer, key);
            collect_json_group(
                members,
                base.as_str(),
                kind,
                file,
                workflow,
                source,
                scope,
                diagnostics,
            );
        }
    }
}

fn collect_json_branch(
    action: &Node,
    key: &str,
    pointer: &str,
    kind: Option<&str>,
    file: &Document,
    workflow: &Workflow,
    source: ByteSpan,
    scope: &ArmScope,
    diagnostics: &mut Vec<Diagnostic>,
)
    ensures
        findings(final(diagnostics)@) == findings(old(diagnostics)@)
            + supplied_branch_findings(
                action,
                key@,
                pointer@,
                text_in(kind),
                file,
                workflow,
                source,
                scope,
            ),
    decreases action, 0nat,
{
    proof {
        lemma_field_smaller(action, key@);
    }
    if let Some(branch) = get(action, key) {
        let base = pointer_join(pointer, key);
        collect_child_json_actions(
            branch,
            base.as_str(),
            true,
            kind,
            file,
            workflow,
            source,
            scope,
            diagnostics,
        );
    }
}

fn collect_json_nested(
    action: &Node,
    pointer: &str,
    untyped: bool,
    kind: Option<&str>,
    file: &Document,
    workflow: &Workflow,
    source: ByteSpan,
    scope: &ArmScope,
    diagnostics: &mut Vec<Diagnostic>,
)
    ensures
        findings(final(diagnostics)@) == findings(old(diagnostics)@)
            + supplied_nested_findings(
                action,
                pointer@,
                untyped,
                text_in(kind),
                file,
                workflow,
                source,
                scope,
            ),
    decreases action, 1nat,
{
    let class = ActionKind::from_action_type(kind);
    collect_child_json_actions(
        action,
        pointer,
        untyped || class.supports_actions_container(),
        kind,
        file,
        workflow,
        source,
        scope,
        diagnostics,
    );
    if untyped || class.supports_cases_container() {
        collect_json_groups(
            action,
            "cases",
            pointer,
            kind,
            file,
            workflow,
            source,
            scope,
            diagnostics,
        );
    }
    if untyped || class.supports_default_container() {
        collect_json_branch(
            action,
            "default",
            pointer,
            kind,
            file,
            workflow,
            source,
            scope,
            diagnostics,
        );
    }
    if untyped || class.supports_else_container() {
        collect_json_branch(
            action,
            "else",
            pointer,
            kind,
            file,
            workflow,
            source,
            scope,
            diagnostics,
        );
    }
    if untyped || class.supports_tools_container() {
        collect_json_groups(
            action,
            "tools",
            pointer,
            kind,
            file,
            workflow,
            source,
            scope,
            diagnostics,
        );
    }
}

/// Validate an action that an expression supplied.
pub fn validate_json_action_shape(
    action: &Node,
    pointer: &str,
    container: &str,
    file: &Document,
    workflow: &Workflow,
    source: ByteSpan,
    scope: &ArmScope,
    diagnostics: &mut Vec<Diagnostic>,
)
    ensures
        findings(final(diagnostics)@) == findings(old(diagnostics)@)
            + supplied_action_findings(action, pointer@, container@, file, workflow, source, scope),
    decreases action, 2nat,
{
    if unresolved_arm_expression_from_spanned(file, action) {
        return;
    }
    if !action.is_object() {
        report(
            file,
            "workflow-shape-invalid-type",
            pointer,
            Some(source),
            "action entries must be objects",
            diagnostics,
        );
        return;
    }
    let type_pointer = pointer_join(pointer, "type");
    match get(action, "type") {
        None => {
            report(
                file,
                "workflow-shape-missing-field",
                type_pointer.as_str(),
                Some(source),
                "action is missing required field 'type'",
                diagnostics,
            );
        },
        Some(declared) => match static_string_from_json(file, declared) {
            Some(kind) => {
                if action_spec(kind).is_none() {
                    let message = text3("unknown action type '", kind, "'");
                    report(
                        file,
                        "workflow-shape-unknown-type",
                        type_pointer.as_str(),
                        Some(source),
                        message.as_str(),
                        diagnostics,
                    );
                    return;
                }
                validate_materialized_json_action(
                    action,
                    pointer,
                    container,
                    file,
                    workflow,
                    source,
                    scope,
                    diagnostics,
                );
                validate_supplied_run_after(action, pointer, file, scope, source, diagnostics);
                collect_json_nested(
                    action,
                    pointer,
                    false,
                    Some(kind),
                    file,
                    workflow,
                    source,
                    scope,
                    diagnostics,
                );
            },
            None => {
                if !unresolved_arm_expression_from_spanned(file, declared) {
                    report(
                        file,
                        "workflow-shape-invalid-type",
                        type_pointer.as_str(),
                        Some(source),
                        "action type must be a string",
                        diagnostics,
                    );
                    return;
                }
                validate_supplied_run_after(action, pointer, file, scope, source, diagnostics);
                collect_json_nested(
                    action,
                    pointer,
                    true,
                    None,
                    file,
                    workflow,
                    source,
                    scope,
                    diagnostics,
                );
            },
        },
    }
}
} // verus!
