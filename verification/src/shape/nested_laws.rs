//! That whatever an action holds is judged, written out or supplied by an
//! expression.

use vstd::prelude::*;

use crate::arm::{known, ArmScope};
use crate::diagnostic::ByteSpan;
use crate::json::{field, joined, text_field, text_of, Document, Json, Member, Node};
use crate::shape::arm_boundary::allows_expressions;
use crate::shape::common::common_findings;
use crate::shape::control_laws::law_classes_go_by_type;
use crate::shape::operations::{
    container_findings, group_findings, groups_findings, nested_findings,
    supplied_trigger_findings, supplied_typed_trigger_findings,
};
use crate::shape::plain_laws::{is_plain, keeps_state, lemma_plain};
use crate::shape::registry::{
    action_findings, action_spec_of, scoped_input_names, scoped_inputs, trigger_spec_of,
    typed_trigger_findings, ActionSpec, TriggerSpec,
};
use crate::shape::run_after::supplied_run_after_findings;
use crate::shape::supplied::{
    alone, supplied_action_findings, supplied_children_findings, supplied_group_findings,
    supplied_groups_findings, supplied_list_findings, supplied_nested_findings,
    supplied_typed_findings,
};
use crate::shape::trigger_laws::fires_by_time;
use crate::shape::triggers::common::trigger_common_findings;
use crate::text::{one_of, same_ignoring_case};
use crate::workflow::Workflow;

verus! {

/// The `actions` of a holder are clean, if it has any.
pub open spec fn is_clean_below(
    holder: &Node,
    pointer: Seq<char>,
    file: &Document,
    workflow: &Workflow,
    scope: &ArmScope,
) -> bool {
    match field(holder, "actions"@) {
        Some(value) => container_findings(
            &value,
            joined(pointer, "actions"@),
            file,
            workflow,
            scope,
        ).len() == 0,
        None => true,
    }
}

/// The `actions` of the branch `key` are clean, if there is such a branch.
pub open spec fn is_clean_branch(
    action: &Node,
    key: Seq<char>,
    pointer: Seq<char>,
    file: &Document,
    workflow: &Workflow,
    scope: &ArmScope,
) -> bool {
    match field(action, key) {
        Some(branch) => is_clean_below(&branch, joined(pointer, key), file, workflow, scope),
        None => true,
    }
}

/// The `actions` of each member of the group `key` are clean.
pub open spec fn is_clean_group(
    action: &Node,
    key: Seq<char>,
    pointer: Seq<char>,
    file: &Document,
    workflow: &Workflow,
    scope: &ArmScope,
) -> bool {
    match field(action, key) {
        Some(group) => match group.kind {
            Json::Object(members) => forall|i: int|
                0 <= i < members@.len() ==> is_clean_below(
                    &(#[trigger] members@[i]).value,
                    joined(joined(pointer, key), members@[i].name@),
                    file,
                    workflow,
                    scope,
                ),
            _ => true,
        },
        None => true,
    }
}

proof fn lemma_group_is_clean(
    members: Vec<Member>,
    n: nat,
    base: Seq<char>,
    file: &Document,
    workflow: &Workflow,
    scope: &ArmScope,
)
    requires
        n <= members@.len(),
    ensures
        (group_findings(members, n, base, file, workflow, scope).len() == 0) == (forall|i: int|
            0 <= i < n ==> is_clean_below(
                &(#[trigger] members@[i]).value,
                joined(base, members@[i].name@),
                file,
                workflow,
                scope,
            )),
    decreases n,
{
    if n > 0 {
        lemma_group_is_clean(members, (n - 1) as nat, base, file, workflow, scope);
        assert(members@[n - 1] == members[n - 1]);
    }
}

proof fn lemma_groups_are_clean(
    action: &Node,
    key: Seq<char>,
    pointer: Seq<char>,
    file: &Document,
    workflow: &Workflow,
    scope: &ArmScope,
)
    ensures
        (groups_findings(action, key, pointer, file, workflow, scope).len() == 0)
            == is_clean_group(action, key, pointer, file, workflow, scope),
{
    if let Some(group) = field(action, key) {
        if let Json::Object(members) = group.kind {
            lemma_group_is_clean(
                members,
                members@.len(),
                joined(pointer, key),
                file,
                workflow,
                scope,
            );
        }
    }
}

/// What an action of a type holds is clean exactly where the actions in all its
/// places are: `actions`, and of a condition those of `else`, of a switch those
/// of `cases` and `default` instead, and of an agent those of `tools`. Other
/// types hold none.
pub proof fn law_all_that_an_action_holds_is_judged(
    action: &Node,
    kind: Seq<char>,
    pointer: Seq<char>,
    file: &Document,
    workflow: &Workflow,
    scope: &ArmScope,
)
    requires
        is_plain(file, scope),
        field(action, "actions"@) is Some ==> !((field(action, "actions"@)->Some_0).kind is Null),
    ensures
        ({
            let clean = nested_findings(
                action,
                pointer,
                false,
                Some(kind),
                file,
                workflow,
                scope,
            ).len() == 0;
            &&& same_ignoring_case(kind, "Foreach"@) || same_ignoring_case(kind, "Scope"@)
                || same_ignoring_case(kind, "Until"@) ==> clean == is_clean_below(
                action,
                pointer,
                file,
                workflow,
                scope,
            )
            &&& same_ignoring_case(kind, "If"@) ==> clean == (is_clean_below(
                action,
                pointer,
                file,
                workflow,
                scope,
            ) && is_clean_branch(action, "else"@, pointer, file, workflow, scope))
            &&& same_ignoring_case(kind, "Switch"@) ==> clean == (field(
                action,
                "actions"@,
            ) is None && is_clean_group(action, "cases"@, pointer, file, workflow, scope)
                && is_clean_branch(action, "default"@, pointer, file, workflow, scope))
            &&& same_ignoring_case(kind, "Agent"@) ==> clean == (field(action, "actions"@) is None
                && is_clean_group(action, "tools"@, pointer, file, workflow, scope))
            &&& !same_ignoring_case(kind, "foreach"@) && !same_ignoring_case(kind, "if"@)
                && !same_ignoring_case(kind, "scope"@) && !same_ignoring_case(kind, "switch"@)
                && !same_ignoring_case(kind, "until"@) && !same_ignoring_case(kind, "agent"@)
                ==> clean == (field(action, "actions"@) is None)
        }),
{
    lemma_plain(file, scope);
    law_classes_go_by_type(kind);
    lemma_groups_are_clean(action, "cases"@, pointer, file, workflow, scope);
    lemma_groups_are_clean(action, "tools"@, pointer, file, workflow, scope);
}

/// The `actions` of a supplied holder are clean, if it has any.
pub open spec fn is_clean_supply(
    holder: &Node,
    pointer: Seq<char>,
    file: &Document,
    workflow: &Workflow,
    source: ByteSpan,
    scope: &ArmScope,
) -> bool {
    match field(holder, "actions"@) {
        Some(value) => match value.kind {
            Json::Object(members) => supplied_list_findings(
                members,
                members@.len(),
                joined(pointer, "actions"@),
                file,
                workflow,
                source,
                scope,
            ).len() == 0,
            _ => true,
        },
        None => true,
    }
}

/// The `actions` of the supplied branch `key` are clean, if there is such a
/// branch.
pub open spec fn is_clean_supplied_branch(
    action: &Node,
    key: Seq<char>,
    pointer: Seq<char>,
    file: &Document,
    workflow: &Workflow,
    source: ByteSpan,
    scope: &ArmScope,
) -> bool {
    match field(action, key) {
        Some(branch) => is_clean_supply(
            &branch,
            joined(pointer, key),
            file,
            workflow,
            source,
            scope,
        ),
        None => true,
    }
}

/// The `actions` of each member of the supplied group `key` are clean.
pub open spec fn is_clean_supplied_group(
    action: &Node,
    key: Seq<char>,
    pointer: Seq<char>,
    file: &Document,
    workflow: &Workflow,
    source: ByteSpan,
    scope: &ArmScope,
) -> bool {
    match field(action, key) {
        Some(group) => match group.kind {
            Json::Object(members) => forall|i: int|
                0 <= i < members@.len() ==> is_clean_supply(
                    &(#[trigger] members@[i]).value,
                    joined(joined(pointer, key), members@[i].name@),
                    file,
                    workflow,
                    source,
                    scope,
                ),
            _ => true,
        },
        None => true,
    }
}

proof fn lemma_supplied_group(
    members: Vec<Member>,
    n: nat,
    base: Seq<char>,
    kind: Option<Seq<char>>,
    file: &Document,
    workflow: &Workflow,
    source: ByteSpan,
    scope: &ArmScope,
)
    requires
        n <= members@.len(),
    ensures
        (supplied_group_findings(members, n, base, kind, file, workflow, source, scope).len() == 0)
            == (forall|i: int|
            0 <= i < n ==> is_clean_supply(
                &(#[trigger] members@[i]).value,
                joined(base, members@[i].name@),
                file,
                workflow,
                source,
                scope,
            )),
    decreases n,
{
    if n > 0 {
        lemma_supplied_group(
            members,
            (n - 1) as nat,
            base,
            kind,
            file,
            workflow,
            source,
            scope,
        );
        assert(members@[n - 1] == members[n - 1]);
        let last = supplied_children_findings(
            &members[n - 1].value,
            joined(base, members[n - 1].name@),
            true,
            kind,
            file,
            workflow,
            source,
            scope,
        );
        assert((last.len() == 0) == is_clean_supply(
            &members[n - 1].value,
            joined(base, members[n - 1].name@),
            file,
            workflow,
            source,
            scope,
        ));
        assert(supplied_group_findings(members, n, base, kind, file, workflow, source, scope)
            == supplied_group_findings(
            members,
            (n - 1) as nat,
            base,
            kind,
            file,
            workflow,
            source,
            scope,
        ) + last);
    }
}

proof fn lemma_supplied_groups(
    action: &Node,
    key: Seq<char>,
    pointer: Seq<char>,
    kind: Option<Seq<char>>,
    file: &Document,
    workflow: &Workflow,
    source: ByteSpan,
    scope: &ArmScope,
)
    ensures
        (supplied_groups_findings(
            action,
            key,
            pointer,
            kind,
            file,
            workflow,
            source,
            scope,
        ).len() == 0) == is_clean_supplied_group(
            action,
            key,
            pointer,
            file,
            workflow,
            source,
            scope,
        ),
{
    if let Some(group) = field(action, key) {
        if let Json::Object(members) = group.kind {
            lemma_supplied_group(
                members,
                members@.len(),
                joined(pointer, key),
                kind,
                file,
                workflow,
                source,
                scope,
            );
        }
    }
}

/// What a supplied action holds is judged in the same places as what is written
/// out.
pub proof fn law_all_that_is_supplied_is_judged(
    action: &Node,
    kind: Seq<char>,
    pointer: Seq<char>,
    file: &Document,
    workflow: &Workflow,
    source: ByteSpan,
    scope: &ArmScope,
)
    requires
        field(action, "actions"@) is Some ==> (field(action, "actions"@)->Some_0).kind is Object,
    ensures
        ({
            let clean = supplied_nested_findings(
                action,
                pointer,
                false,
                Some(kind),
                file,
                workflow,
                source,
                scope,
            ).len() == 0;
            &&& same_ignoring_case(kind, "Foreach"@) || same_ignoring_case(kind, "Scope"@)
                || same_ignoring_case(kind, "Until"@) ==> clean == is_clean_supply(
                action,
                pointer,
                file,
                workflow,
                source,
                scope,
            )
            &&& same_ignoring_case(kind, "If"@) ==> clean == (is_clean_supply(
                action,
                pointer,
                file,
                workflow,
                source,
                scope,
            ) && is_clean_supplied_branch(
                action,
                "else"@,
                pointer,
                file,
                workflow,
                source,
                scope,
            ))
            &&& same_ignoring_case(kind, "Switch"@) ==> clean == (field(
                action,
                "actions"@,
            ) is None && is_clean_supplied_group(
                action,
                "cases"@,
                pointer,
                file,
                workflow,
                source,
                scope,
            ) && is_clean_supplied_branch(
                action,
                "default"@,
                pointer,
                file,
                workflow,
                source,
                scope,
            ))
            &&& same_ignoring_case(kind, "Agent"@) ==> clean == (field(action, "actions"@) is None
                && is_clean_supplied_group(
                action,
                "tools"@,
                pointer,
                file,
                workflow,
                source,
                scope,
            ))
            &&& !same_ignoring_case(kind, "foreach"@) && !same_ignoring_case(kind, "if"@)
                && !same_ignoring_case(kind, "scope"@) && !same_ignoring_case(kind, "switch"@)
                && !same_ignoring_case(kind, "until"@) && !same_ignoring_case(kind, "agent"@)
                ==> clean == (field(action, "actions"@) is None)
        }),
{
    law_classes_go_by_type(kind);
    let some = Some(kind);
    lemma_supplied_groups(action, "cases"@, pointer, some, file, workflow, source, scope);
    lemma_supplied_groups(action, "tools"@, pointer, some, file, workflow, source, scope);
}

/// A supplied action is clean exactly where its own fields, the fields that
/// actions share, its order and the actions below it are.
pub proof fn law_supplied_actions_are_judged_by_their_parts(
    action: &Node,
    kind: Seq<char>,
    spec: ActionSpec,
    pointer: Seq<char>,
    container: Seq<char>,
    file: &Document,
    workflow: &Workflow,
    source: ByteSpan,
    scope: &ArmScope,
)
    requires
        action.kind is Object,
        text_field(action, "type"@) == Some(kind),
        known(file.arm, kind) is None,
        action_spec_of(kind) == Some(spec),
    ensures
        (supplied_action_findings(
            action,
            pointer,
            container,
            file,
            workflow,
            source,
            scope,
        ).len() == 0) == {
            let document = alone(action, file);
            &&& action_findings(
                spec,
                action,
                pointer,
                container,
                kind,
                &document,
                workflow,
                scope,
            ).len() == 0
            &&& common_findings(action, pointer, "action"@, &document, workflow, scope).len() == 0
            &&& supplied_run_after_findings(action, pointer, file, scope, source).len() == 0
            &&& supplied_nested_findings(
                action,
                pointer,
                false,
                Some(kind),
                file,
                workflow,
                source,
                scope,
            ).len() == 0
        },
{
    let typed = supplied_typed_findings(action, pointer, container, file, workflow, source, scope);
    let document = alone(action, file);
    assert(typed.len() == (action_findings(
        spec,
        action,
        pointer,
        container,
        kind,
        &document,
        workflow,
        scope,
    ) + common_findings(action, pointer, "action"@, &document, workflow, scope)).len());
}

/// A supplied trigger is clean exactly where it may stand in the workflow and its
/// own fields, those that nodes share and those that triggers share are.
pub proof fn law_supplied_triggers_are_judged_by_their_parts(
    trigger: &Node,
    kind: Seq<char>,
    spec: TriggerSpec,
    pointer: Seq<char>,
    file: &Document,
    workflow: &Workflow,
    source: ByteSpan,
)
    requires
        trigger.kind is Object,
        text_field(trigger, "type"@) == Some(kind),
        known(file.arm, kind) is None,
        trigger_spec_of(kind) == Some(spec),
        field(trigger, "recurrence"@) is Some ==> (field(
            trigger,
            "recurrence"@,
        )->Some_0).kind is Object,
    ensures
        (supplied_trigger_findings(trigger, pointer, file, workflow, source).len() == 0) == {
            let document = alone(trigger, file);
            &&& keeps_state(workflow) || !fires_by_time(trigger, kind)
            &&& typed_trigger_findings(
                spec,
                trigger,
                field(trigger, "inputs"@),
                field(trigger, "recurrence"@),
                pointer,
                &document,
                workflow,
            ).len() == 0
            &&& common_findings(
                trigger,
                pointer,
                "trigger"@,
                &document,
                workflow,
                file.arm,
            ).len() == 0
            &&& trigger_common_findings(trigger, pointer, &document).len() == 0
        },
{
    let document = alone(trigger, file);
    let typed = supplied_typed_trigger_findings(trigger, pointer, file, workflow, source);
    let context = crate::shape::operations::trigger_context_findings(
        kind,
        pointer,
        file,
        workflow,
        Some(source),
        field(trigger, "recurrence"@) is Some,
    );
    assert((context.len() == 0) == (keeps_state(workflow) || !fires_by_time(trigger, kind)));
    assert((typed.len() == 0) == (typed_trigger_findings(
        spec,
        trigger,
        field(trigger, "inputs"@),
        field(trigger, "recurrence"@),
        pointer,
        &document,
        workflow,
    ).len() == 0 && common_findings(
        trigger,
        pointer,
        "trigger"@,
        &document,
        workflow,
        file.arm,
    ).len() == 0 && trigger_common_findings(trigger, pointer, &document).len() == 0));
}

proof fn lemma_scoped_input_names(name: Seq<char>)
    ensures
        one_of(name, scoped_input_names()) == (name == "ApiConnection"@ || name == "ApiConnectionWebhook"@ || name == "ApiManagement"@ || name == "Function"@ || name == "Http"@ || name == "HttpWebhook"@ || name == "Join"@ || name == "Response"@ || name == "SendToBatch"@ || name == "AppendToArrayVariable"@ || name == "AppendToStringVariable"@ || name == "DecrementVariable"@ || name == "InitializeVariable"@ || name == "IncrementVariable"@ || name == "SetVariable"@ || name == "Workflow"@),
{
    let list = scoped_input_names();
    if one_of(name, list) {
        let k = choose|k: int| 0 <= k < list.len() && list[k] == name;
        assert(list[k] == name);
    }
    assert(list[0] == "ApiConnection"@);
    assert(list[1] == "ApiConnectionWebhook"@);
    assert(list[2] == "ApiManagement"@);
    assert(list[3] == "Function"@);
    assert(list[4] == "Http"@);
    assert(list[5] == "HttpWebhook"@);
    assert(list[6] == "Join"@);
    assert(list[7] == "Response"@);
    assert(list[8] == "SendToBatch"@);
    assert(list[9] == "AppendToArrayVariable"@);
    assert(list[10] == "AppendToStringVariable"@);
    assert(list[11] == "DecrementVariable"@);
    assert(list[12] == "InitializeVariable"@);
    assert(list[13] == "IncrementVariable"@);
    assert(list[14] == "SetVariable"@);
    assert(list[15] == "Workflow"@);
}

/// The inputs that an expression supplies are looked into for the types whose
/// inputs are an object, and for no others.
pub proof fn law_supplied_inputs_are_looked_into(
    action: &Node,
    inputs: &Node,
    kind: Seq<char>,
    text: Seq<char>,
    file: &Document,
    scope: &ArmScope,
)
    requires
        allows_expressions(file),
        field(action, "inputs"@) == Some(*inputs),
        text_of(inputs) == Some(text),
        known(file.arm, text) is Some,
        known(scope, text) is Some,
        (known(scope, text)->Some_0).value is Some,
    ensures
        (scoped_inputs(action, kind, file, scope) is Some) == (kind == "ApiConnection"@ || kind == "ApiConnectionWebhook"@ || kind == "ApiManagement"@ || kind == "Function"@ || kind == "Http"@ || kind == "HttpWebhook"@ || kind == "Join"@ || kind == "Response"@ || kind == "SendToBatch"@ || kind == "AppendToArrayVariable"@ || kind == "AppendToStringVariable"@ || kind == "DecrementVariable"@ || kind == "InitializeVariable"@ || kind == "IncrementVariable"@ || kind == "SetVariable"@ || kind == "Workflow"@),
{
    lemma_scoped_input_names(kind);
}

/// Where the type of an action is not known before deployment, all the places where
/// any type holds actions are judged.
pub proof fn law_untyped_actions_are_judged_in_all_places(
    action: &Node,
    pointer: Seq<char>,
    file: &Document,
    workflow: &Workflow,
    source: ByteSpan,
    scope: &ArmScope,
)
    ensures
        (nested_findings(action, pointer, true, None, file, workflow, scope).len() == 0) == {
            &&& is_clean_below(action, pointer, file, workflow, scope)
            &&& is_clean_group(action, "cases"@, pointer, file, workflow, scope)
            &&& is_clean_branch(action, "default"@, pointer, file, workflow, scope)
            &&& is_clean_branch(action, "else"@, pointer, file, workflow, scope)
            &&& is_clean_group(action, "tools"@, pointer, file, workflow, scope)
        },
        (supplied_nested_findings(
            action,
            pointer,
            true,
            None,
            file,
            workflow,
            source,
            scope,
        ).len() == 0) == {
            &&& is_clean_supply(action, pointer, file, workflow, source, scope)
            &&& is_clean_supplied_group(
                action,
                "cases"@,
                pointer,
                file,
                workflow,
                source,
                scope,
            )
            &&& is_clean_supplied_branch(
                action,
                "default"@,
                pointer,
                file,
                workflow,
                source,
                scope,
            )
            &&& is_clean_supplied_branch(
                action,
                "else"@,
                pointer,
                file,
                workflow,
                source,
                scope,
            )
            &&& is_clean_supplied_group(
                action,
                "tools"@,
                pointer,
                file,
                workflow,
                source,
                scope,
            )
        },
{
    lemma_groups_are_clean(action, "cases"@, pointer, file, workflow, scope);
    lemma_groups_are_clean(action, "tools"@, pointer, file, workflow, scope);
    lemma_supplied_groups(action, "cases"@, pointer, None, file, workflow, source, scope);
    lemma_supplied_groups(action, "tools"@, pointer, None, file, workflow, source, scope);
}

} // verus!
