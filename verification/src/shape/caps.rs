//! The cap on the parameters of a definition: one for every workflow.

use vstd::prelude::*;

use crate::arm::ArmScope;
use crate::diagnostic::{ByteSpan, Finding};
use crate::json::{escaped, escaped_char, field, joined, Document, Json, Member, Node};
use crate::shape::arm_boundary::{checked, is_opaque, present};
use crate::shape::check::is_checked;
use crate::shape::definition_io::{
    needs_default, outputs_findings, parameter_findings, parameter_list_findings,
};
use crate::shape::errors::{
    all_below, are_errors_below, errors_in_outputs, errors_in_parameter,
    errors_in_static_results_entry_list, is_below, law_operation_findings_stay_below_their_container,
    lemma_below_itself,
};
use crate::shape::limits::{
    depth_findings, entry_count, object_count_findings, total_limit_findings,
};
use crate::shape::operations::{container_findings, triggers_findings};
use crate::shape::report::respanned;
use crate::shape::root::{
    actions_section_findings, authored_metadata_findings, description_findings,
    missing_metadata_findings, operations_findings, outputs_section_findings,
    parameters_section_findings, presence_findings, resolved_definition, section_findings,
    shape_findings, triggers_section_findings, workflow_kind_findings,
    written_definition_findings,
};
use crate::shape::static_results::{entry_list_findings, static_results_findings};
use crate::text::has_prefix;
use crate::workflow::{ActionInfo, Workflow};

verus! {

/// A finding says that the definition at `pointer` has too many parameters.
pub open spec fn tells_of_parameter_cap(finding: Finding, pointer: Seq<char>) -> bool {
    &&& finding.pointer == joined(pointer, "parameters"@)
    &&& finding.code == "workflow-shape-invalid-value"@
    &&& has_prefix(finding.message, "definition.parameters contains "@)
}

/// Some finding says that the definition at `pointer` has too many parameters.
pub open spec fn reports_parameter_cap(list: Seq<Finding>, pointer: Seq<char>) -> bool {
    exists|i: int| 0 <= i < list.len() && tells_of_parameter_cap(#[trigger] list[i], pointer)
}

/// A definition has more than 500 parameters, those left out aside.
pub open spec fn has_too_many_parameters(file: &Document, definition: &Node) -> bool {
    match present(file, definition, "parameters"@) {
        Some(section) => match entry_count(&section, file) {
            Some(count) => count > 500,
            None => false,
        },
        None => false,
    }
}

broadcast proof fn cap_in_sum(left: Seq<Finding>, right: Seq<Finding>, pointer: Seq<char>)
    ensures
        #[trigger] reports_parameter_cap(left + right, pointer) == (reports_parameter_cap(
            left,
            pointer,
        ) || reports_parameter_cap(right, pointer)),
{
    let whole = left + right;
    if reports_parameter_cap(left, pointer) {
        let i = choose|i: int|
            0 <= i < left.len() && tells_of_parameter_cap(#[trigger] left[i], pointer);
        assert(whole[i] == left[i]);
    }
    if reports_parameter_cap(right, pointer) {
        let i = choose|i: int|
            0 <= i < right.len() && tells_of_parameter_cap(#[trigger] right[i], pointer);
        assert(whole[left.len() + i] == right[i]);
    }
    if reports_parameter_cap(whole, pointer) {
        let i = choose|i: int|
            0 <= i < whole.len() && tells_of_parameter_cap(#[trigger] whole[i], pointer);
        if i < left.len() {
            assert(left[i] == whole[i]);
        } else {
            assert(right[i - left.len()] == whole[i]);
        }
    }
}

proof fn lemma_respanned_cap(
    list: Seq<Finding>,
    span: Option<ByteSpan>,
    pointer: Seq<char>,
)
    ensures
        reports_parameter_cap(respanned(list, span), pointer) == reports_parameter_cap(
            list,
            pointer,
        ),
{
    let moved = respanned(list, span);
    if reports_parameter_cap(list, pointer) {
        let i = choose|i: int|
            0 <= i < list.len() && tells_of_parameter_cap(#[trigger] list[i], pointer);
        assert(tells_of_parameter_cap(moved[i], pointer));
    }
    if reports_parameter_cap(moved, pointer) {
        let i = choose|i: int|
            0 <= i < moved.len() && tells_of_parameter_cap(#[trigger] moved[i], pointer);
        assert(tells_of_parameter_cap(list[i], pointer));
    }
}

proof fn lemma_escaped_first(token: Seq<char>)
    requires
        token.len() > 0,
        token[0] != '~',
        token[0] != '/',
    ensures
        escaped(token).len() > 0,
        escaped(token)[0] == token[0],
    decreases token.len(),
{
    if token.len() == 1 {
        reveal_with_fuel(escaped, 2);
        assert(token.drop_last() =~= Seq::empty());
        assert(escaped(token) =~= escaped_char(token[0]));
    } else {
        lemma_escaped_first(token.drop_last());
    }
}

/// What stands at or below another member is not about the parameters.
proof fn lemma_other_member(pointer: Seq<char>, key: Seq<char>)
    requires
        key.len() > 0,
        key[0] != '~',
        key[0] != '/',
        key[0] != 'p',
    ensures
        !is_below(joined(pointer, "parameters"@), joined(pointer, key)),
        joined(pointer, key) != joined(pointer, "parameters"@),
{
    reveal(is_below);
    reveal_strlit("/");
    reveal_strlit("parameters");
    lemma_escaped_first(key);
    lemma_escaped_first("parameters"@);
    let at = pointer.len() + 1;
    let ours = joined(pointer, "parameters"@);
    let root = joined(pointer, key);
    assert(ours[at as int] == 'p');
    assert(root[at as int] == key[0]);
    if has_prefix(ours, root) {
        assert(ours.subrange(0, root.len() as int)[at as int] == root[at as int]);
    }
}

proof fn lemma_other_members(pointer: Seq<char>)
    ensures
        !is_below(joined(pointer, "parameters"@), joined(pointer, "actions"@)),
        !is_below(joined(pointer, "parameters"@), joined(pointer, "triggers"@)),
        !is_below(joined(pointer, "parameters"@), joined(pointer, "outputs"@)),
        !is_below(joined(pointer, "parameters"@), joined(pointer, "staticResults"@)),
        joined(pointer, "actions"@) != joined(pointer, "parameters"@),
        joined(pointer, "triggers"@) != joined(pointer, "parameters"@),
        joined(pointer, "outputs"@) != joined(pointer, "parameters"@),
        joined(pointer, "staticResults"@) != joined(pointer, "parameters"@),
        joined(pointer, "description"@) != joined(pointer, "parameters"@),
        joined(pointer, "$schema"@) != joined(pointer, "parameters"@),
        joined(pointer, "contentVersion"@) != joined(pointer, "parameters"@),
{
    reveal_strlit("actions");
    reveal_strlit("triggers");
    reveal_strlit("outputs");
    reveal_strlit("staticResults");
    reveal_strlit("description");
    reveal_strlit("$schema");
    reveal_strlit("contentVersion");
    lemma_other_member(pointer, "actions"@);
    lemma_other_member(pointer, "triggers"@);
    lemma_other_member(pointer, "outputs"@);
    lemma_other_member(pointer, "staticResults"@);
    lemma_other_member(pointer, "description"@);
    lemma_other_member(pointer, "$schema"@);
    lemma_other_member(pointer, "contentVersion"@);
}

proof fn lemma_none_below(list: Seq<Finding>, root: Seq<char>, pointer: Seq<char>)
    requires
        all_below(list, root),
        !is_below(joined(pointer, "parameters"@), root),
    ensures
        !reports_parameter_cap(list, pointer),
{
}

/// No finding about a single parameter is about their number.
proof fn lemma_parameter_list(
    members: Seq<Member>,
    n: nat,
    file: &Document,
    known_parameters: Seq<Seq<char>>,
    required: bool,
    pointer: Seq<char>,
)
    ensures
        !reports_parameter_cap(
            parameter_list_findings(
                members,
                n,
                joined(pointer, "parameters"@),
                file,
                known_parameters,
                required,
            ),
            pointer,
        ),
    decreases n,
{
    broadcast use cap_in_sum;

    let base = joined(pointer, "parameters"@);
    if n > 0 {
        lemma_parameter_list(members, (n - 1) as nat, file, known_parameters, required, pointer);
        let item = members[n - 1].value;
        let name = members[n - 1].name@;
        let root = base + "/"@;
        reveal_strlit("/");
        assert(is_below(joined(base, name), root) && !is_below(base, root)) by {
            reveal(is_below);
            assert(joined(base, name).subrange(0, root.len() as int) =~= root);
        }
        let needed = needs_default(file, name, known_parameters, required);
        errors_in_parameter(&item, joined(base, name), needed, file, file.path@, root);
        reveal(are_errors_below);
        lemma_none_below(
            parameter_findings(&item, joined(base, name), needed, file),
            root,
            pointer,
        );
        lemma_codes_differ();
    }
}

proof fn lemma_codes_differ()
    ensures
        "workflow-shape-invalid-type"@ != "workflow-shape-invalid-value"@,
        "workflow-shape-missing-field"@ != "workflow-shape-invalid-value"@,
{
    reveal_strlit("workflow-shape-invalid-type");
    reveal_strlit("workflow-shape-invalid-value");
    reveal_strlit("workflow-shape-missing-field");
    assert("workflow-shape-invalid-type"@.len() != "workflow-shape-invalid-value"@.len());
    assert("workflow-shape-missing-field"@[15] != "workflow-shape-invalid-value"@[15]);
}

proof fn lemma_depth(
    actions: Seq<ActionInfo>,
    n: nat,
    file: &Document,
    workflow: &Workflow,
    pointer: Seq<char>,
)
    ensures
        !reports_parameter_cap(depth_findings(actions, n, file, workflow), pointer),
    decreases n,
{
    broadcast use cap_in_sum;

    if n > 0 {
        lemma_depth(actions, (n - 1) as nat, file, workflow, pointer);
        reveal_strlit("action nesting depth is ");
        lemma_other_message("action nesting depth is "@);
    }
}

/// A message that begins otherwise is not about the number of parameters.
proof fn lemma_other_message(start: Seq<char>)
    requires
        start.len() > 0,
        start[0] != 'd',
    ensures
        forall|message: Seq<char>|
            #![trigger has_prefix(message, "definition.parameters contains "@)]
            message.len() > 0 && message[0] == start[0] ==> !has_prefix(
                message,
                "definition.parameters contains "@,
            ),
{
    reveal_strlit("definition.parameters contains ");
    let wanted = "definition.parameters contains "@;
    assert forall|message: Seq<char>|
        #![trigger has_prefix(message, "definition.parameters contains "@)]
        message.len() > 0 && message[0] == start[0] implies !has_prefix(
        message,
        "definition.parameters contains "@,
    ) by {
        if has_prefix(message, wanted) {
            assert(message.subrange(0, wanted.len() as int)[0] == wanted[0]);
        }
    }
}

/// The number of parameters is reported exactly where there are too many.
proof fn lemma_parameters_section(
    definition: &Node,
    pointer: Seq<char>,
    file: &Document,
    known_parameters: Seq<Seq<char>>,
    required: bool,
)
    ensures
        reports_parameter_cap(
            parameters_section_findings(definition, pointer, file, known_parameters, required),
            pointer,
        ) == has_too_many_parameters(file, definition),
{
    broadcast use cap_in_sum;

    lemma_codes_differ();
    if let Some(section) = field(definition, "parameters"@) {
        let base = joined(pointer, "parameters"@);
        if let Json::Object(members) = section.kind {
            lemma_parameter_list(
                members@,
                members@.len(),
                file,
                known_parameters,
                required,
                pointer,
            );
        }
        assert(!reports_parameter_cap(
            section_findings(&section, base, "definition.parameters"@, file),
            pointer,
        ));
        if let Some(count) = entry_count(&section, file) {
            let found = object_count_findings(&section, base, "definition.parameters"@, 500, file);
            if count > 500 {
                reveal_strlit("definition.parameters contains ");
                reveal_strlit("definition.parameters");
                reveal_strlit(" contains ");
                let start = "definition.parameters"@ + " contains "@;
                assert(start =~= "definition.parameters contains "@);
                assert(found[0].message.subrange(0, start.len() as int) =~= start);
                assert(tells_of_parameter_cap(found[0], pointer));
            }
        }
    }
}

/// Nothing that the sections before the parameters are told of is about the
/// number of parameters.
proof fn lemma_leading_sections(
    definition: &Node,
    pointer: Seq<char>,
    file: &Document,
    workflow: &Workflow,
)
    ensures
        !reports_parameter_cap(workflow_kind_findings(pointer, file, workflow), pointer),
        !reports_parameter_cap(presence_findings(definition, pointer, file), pointer),
        !reports_parameter_cap(
            authored_metadata_findings("$schema"@, definition, pointer, file),
            pointer,
        ),
        !reports_parameter_cap(
            authored_metadata_findings("contentVersion"@, definition, pointer, file),
            pointer,
        ),
        !reports_parameter_cap(description_findings(definition, pointer, file), pointer),
        !reports_parameter_cap(
            actions_section_findings(definition, pointer, file, workflow),
            pointer,
        ),
        !reports_parameter_cap(total_limit_findings(pointer, file, workflow), pointer),
        !reports_parameter_cap(
            triggers_section_findings(definition, pointer, file, workflow),
            pointer,
        ),
{
    broadcast use cap_in_sum;

    lemma_other_members(pointer);
    lemma_depth(
        workflow.action_list@,
        workflow.action_list@.len(),
        file,
        workflow,
        pointer,
    );
    reveal_strlit("workflow kind '");
    lemma_other_message("workflow kind '"@);
}

/// Nothing that the sections after the parameters are told of is about the
/// number of parameters.
proof fn lemma_trailing_sections(
    definition: &Node,
    pointer: Seq<char>,
    file: &Document,
    workflow: &Workflow,
    scope: &ArmScope,
)
    ensures
        !reports_parameter_cap(outputs_section_findings(definition, pointer, file), pointer),
        !reports_parameter_cap(
            static_results_findings(definition, pointer, file, workflow),
            pointer,
        ),
        !reports_parameter_cap(
            operations_findings(definition, pointer, file, workflow, scope),
            pointer,
        ),
        !reports_parameter_cap(
            missing_metadata_findings("$schema"@, definition, pointer, file),
            pointer,
        ),
        !reports_parameter_cap(
            missing_metadata_findings("contentVersion"@, definition, pointer, file),
            pointer,
        ),
{
    broadcast use cap_in_sum;

    lemma_other_members(pointer);
    reveal(are_errors_below);
    if let Some(section) = field(definition, "outputs"@) {
        let root = joined(pointer, "outputs"@);
        lemma_below_itself(root);
        errors_in_outputs(&section, root, file, file.path@, root);
        lemma_none_below(outputs_findings(&section, root, file), root, pointer);
    }
    if let Some(results) = checked(file, definition, "staticResults"@) {
        if let Json::Object(members) = results.kind {
            let root = joined(pointer, "staticResults"@);
            let count = members@.len();
            lemma_below_itself(root);
            errors_in_static_results_entry_list(
                members@,
                count,
                root,
                file,
                workflow,
                file.path@,
                root,
            );
            lemma_none_below(
                entry_list_findings(members@, count, root, file, workflow),
                root,
                pointer,
            );
        }
    }
    if let Some(actions) = present(file, definition, "actions"@) {
        let root = joined(pointer, "actions"@);
        law_operation_findings_stay_below_their_container(&actions, root, file, workflow, scope);
        lemma_none_below(
            container_findings(&actions, root, file, workflow, scope),
            root,
            pointer,
        );
    }
    if let Some(triggers) = present(file, definition, "triggers"@) {
        let root = joined(pointer, "triggers"@);
        law_operation_findings_stay_below_their_container(&triggers, root, file, workflow, scope);
        lemma_none_below(
            triggers_findings(&triggers, root, file, workflow, scope),
            root,
            pointer,
        );
    }
}

/// A definition that is written out is told of too many parameters exactly
/// where it has more than 500, whatever its workflow is.
pub proof fn law_parameters_are_capped(
    definition: &Node,
    pointer: Seq<char>,
    file: &Document,
    workflow: &Workflow,
    scope: &ArmScope,
    known_parameters: Seq<Seq<char>>,
    required: bool,
)
    ensures
        reports_parameter_cap(
            written_definition_findings(
                definition,
                pointer,
                file,
                workflow,
                scope,
                known_parameters,
                required,
            ),
            pointer,
        ) == has_too_many_parameters(file, definition),
{
    broadcast use cap_in_sum;

    lemma_codes_differ();
    lemma_leading_sections(definition, pointer, file, workflow);
    lemma_parameters_section(definition, pointer, file, known_parameters, required);
    lemma_trailing_sections(definition, pointer, file, workflow, scope);
}

/// The cap on parameters is the same for Standard and Consumption workflows:
/// of two checks of one definition that differ in the kind of the workflow, or
/// in anything else that its summaries say, one reports too many parameters
/// exactly where the other does.
pub proof fn law_parameter_cap_is_the_same_for_every_kind(
    file: &Document,
    definition: &Node,
    pointer: Seq<char>,
    left: &Workflow,
    right: &Workflow,
    left_resolved: Seq<Workflow>,
    right_resolved: Seq<Workflow>,
    scope: &ArmScope,
    known_parameters: Seq<Seq<char>>,
    required: bool,
)
    requires
        left_resolved.len() == right_resolved.len(),
    ensures
        reports_parameter_cap(
            shape_findings(
                file,
                definition,
                pointer,
                left,
                left_resolved,
                scope,
                known_parameters,
                required,
            ),
            pointer,
        ) == reports_parameter_cap(
            shape_findings(
                file,
                definition,
                pointer,
                right,
                right_resolved,
                scope,
                known_parameters,
                required,
            ),
            pointer,
        ),
    decreases left_resolved.len(),
{
    if is_opaque(file, definition) {
        if let Some(value) = resolved_definition(file, definition) {
            if left_resolved.len() > 0 {
                let span = Some(definition.span);
                let ours = shape_findings(
                    file,
                    &value,
                    pointer,
                    &left_resolved[0],
                    left_resolved.skip(1),
                    scope,
                    known_parameters,
                    required,
                );
                let theirs = shape_findings(
                    file,
                    &value,
                    pointer,
                    &right_resolved[0],
                    right_resolved.skip(1),
                    scope,
                    known_parameters,
                    required,
                );
                law_parameter_cap_is_the_same_for_every_kind(
                    file,
                    &value,
                    pointer,
                    &left_resolved[0],
                    &right_resolved[0],
                    left_resolved.skip(1),
                    right_resolved.skip(1),
                    scope,
                    known_parameters,
                    required,
                );
                lemma_respanned_cap(ours, span, pointer);
                lemma_respanned_cap(theirs, span, pointer);
            }
        }
    } else {
        law_parameters_are_capped(
            definition,
            pointer,
            file,
            left,
            scope,
            known_parameters,
            required,
        );
        law_parameters_are_capped(
            definition,
            pointer,
            file,
            right,
            scope,
            known_parameters,
            required,
        );
    }
}

/// Two checks of one definition under different kinds, each by the summaries
/// that it takes, agree on whether there are too many parameters.
pub proof fn law_checks_cap_parameters_alike(
    left: Seq<Finding>,
    right: Seq<Finding>,
    left_workflow: Workflow,
    right_workflow: Workflow,
    left_resolved: Seq<Workflow>,
    right_resolved: Seq<Workflow>,
    file: &Document,
    definition: &Node,
    pointer: Seq<char>,
    left_kind: Option<Option<Seq<char>>>,
    right_kind: Option<Option<Seq<char>>>,
    scope: &ArmScope,
    known_parameters: Seq<Seq<char>>,
    required: bool,
)
    requires
        is_checked(
            left,
            left_workflow,
            left_resolved,
            file,
            definition,
            pointer,
            left_kind,
            scope,
            known_parameters,
            required,
        ),
        is_checked(
            right,
            right_workflow,
            right_resolved,
            file,
            definition,
            pointer,
            right_kind,
            scope,
            known_parameters,
            required,
        ),
    ensures
        reports_parameter_cap(left, pointer) == reports_parameter_cap(right, pointer),
{
    law_parameter_cap_is_the_same_for_every_kind(
        file,
        definition,
        pointer,
        &left_workflow,
        &right_workflow,
        left_resolved,
        right_resolved,
        scope,
        known_parameters,
        required,
    );
}

} // verus!
