//! What is left of the rules of an action or a trigger where nothing is
//! written but what its type asks for.

use vstd::prelude::*;

use crate::arm::{known, rewritten_at, ArmScope};
use crate::diagnostic::Finding;
use crate::json::{field, text_field, text_of, Document, Node};
use crate::shape::common::common_findings;
use crate::shape::operations::{
    authored_action_findings, authored_trigger_findings, nested_findings,
};
use crate::shape::registry::{
    action_spec_of, trigger_spec_of, typed_action_findings, typed_trigger_findings, ActionSpec,
    TriggerSpec,
};
use crate::shape::run_after::run_after_findings;
use crate::shape::triggers::common::trigger_common_findings;
use crate::text::same_ignoring_case;
use crate::workflow::{Workflow, WorkflowKind};

verus! {

/// No template expression plays a part in a check.
pub open spec fn is_plain(file: &Document, scope: &ArmScope) -> bool {
    file.arm.expressions@.len() == 0 && scope.expressions@.len() == 0 && scope.rewritten@.len() == 0
}

/// An object holds members of these names at most.
pub open spec fn holds_only(node: &Node, keys: Seq<Seq<char>>) -> bool {
    forall|key: Seq<char>| #[trigger] field(node, key) is Some ==> keys.contains(key)
}

/// A workflow that is not called stateless.
pub open spec fn keeps_state(workflow: &Workflow) -> bool {
    match workflow.kind {
        Some(WorkflowKind::Named(name)) => !same_ignoring_case(name@, "Stateless"@),
        _ => true,
    }
}

/// Nothing is an expression in a plain check.
pub proof fn lemma_plain(file: &Document, scope: &ArmScope)
    requires
        is_plain(file, scope),
    ensures
        forall|text: Seq<char>| #[trigger] known(file.arm, text) is None,
        forall|text: Seq<char>| #[trigger] known(scope, text) is None,
        forall|span: crate::diagnostic::ByteSpan| #[trigger]
            rewritten_at(scope.rewritten@, span) is None,
{
}

proof fn lemma_no_common_findings(
    value: &Node,
    pointer: Seq<char>,
    label: Seq<char>,
    file: &Document,
    workflow: &Workflow,
    scope: &ArmScope,
)
    requires
        field(value, "description"@) is None,
        field(value, "operationOptions"@) is None,
        field(value, "runtimeConfiguration"@) is None,
        field(value, "limit"@) is None,
        field(value, "trackedProperties"@) is None,
        field(value, "kind"@) is None,
    ensures
        common_findings(value, pointer, label, file, workflow, scope) =~= Seq::<Finding>::empty(),
{
}

/// An action with nothing but what its type asks for is judged by its type.
pub proof fn lemma_action_by_type(
    action: &Node,
    pointer: Seq<char>,
    container: Seq<char>,
    file: &Document,
    workflow: &Workflow,
    scope: &ArmScope,
    declared: &Node,
    kind: Seq<char>,
    spec: ActionSpec,
)
    requires
        is_plain(file, scope),
        field(action, "type"@) == Some(*declared),
        text_of(declared) == Some(kind),
        action_spec_of(kind) == Some(spec),
        field(action, "description"@) is None,
        field(action, "operationOptions"@) is None,
        field(action, "runtimeConfiguration"@) is None,
        field(action, "limit"@) is None,
        field(action, "trackedProperties"@) is None,
        field(action, "kind"@) is None,
        field(action, "runAfter"@) is None,
        field(action, "actions"@) is None,
        field(action, "cases"@) is None,
        field(action, "default"@) is None,
        field(action, "else"@) is None,
        field(action, "tools"@) is None,
    ensures
        authored_action_findings(action, pointer, container, file, workflow, scope)
            == typed_action_findings(spec, action, pointer, container, kind, file, workflow),
{
    lemma_plain(file, scope);
    lemma_no_common_findings(action, pointer, "action"@, file, workflow, scope);
    assert(nested_findings(action, pointer, false, Some(kind), file, workflow, scope)
        =~= Seq::<Finding>::empty());
    assert(authored_action_findings(action, pointer, container, file, workflow, scope)
        =~= typed_action_findings(spec, action, pointer, container, kind, file, workflow));
}

/// An action is clean exactly where its own fields, the fields that actions
/// share, its order and the actions below it are.
pub proof fn lemma_action_parts(
    action: &Node,
    pointer: Seq<char>,
    container: Seq<char>,
    file: &Document,
    workflow: &Workflow,
    scope: &ArmScope,
    kind: Seq<char>,
    spec: ActionSpec,
)
    requires
        is_plain(file, scope),
        text_field(action, "type"@) == Some(kind),
        action_spec_of(kind) == Some(spec),
    ensures
        (authored_action_findings(action, pointer, container, file, workflow, scope).len() == 0)
            == {
            &&& typed_action_findings(
                spec,
                action,
                pointer,
                container,
                kind,
                file,
                workflow,
            ).len() == 0
            &&& common_findings(action, pointer, "action"@, file, workflow, scope).len() == 0
            &&& run_after_findings(action, pointer, file, scope).len() == 0
            &&& nested_findings(
                action,
                pointer,
                false,
                Some(kind),
                file,
                workflow,
                scope,
            ).len() == 0
        },
{
    lemma_plain(file, scope);
}

/// A trigger with nothing but what its type asks for is judged by its type,
/// where the workflow keeps state.
pub proof fn lemma_trigger_by_type(
    trigger: &Node,
    pointer: Seq<char>,
    file: &Document,
    workflow: &Workflow,
    scope: &ArmScope,
    declared: &Node,
    kind: Seq<char>,
    spec: TriggerSpec,
)
    requires
        is_plain(file, scope),
        keeps_state(workflow),
        field(trigger, "type"@) == Some(*declared),
        text_of(declared) == Some(kind),
        trigger_spec_of(kind) == Some(spec),
        field(trigger, "description"@) is None,
        field(trigger, "operationOptions"@) is None,
        field(trigger, "runtimeConfiguration"@) is None,
        field(trigger, "limit"@) is None,
        field(trigger, "trackedProperties"@) is None,
        field(trigger, "kind"@) is None,
        field(trigger, "splitOn"@) is None,
        field(trigger, "conditions"@) is None,
        field(trigger, "correlation"@) is None,
        field(trigger, "splitOnConfiguration"@) is None,
    ensures
        authored_trigger_findings(trigger, pointer, file, workflow, scope)
            == typed_trigger_findings(
            spec,
            trigger,
            field(trigger, "inputs"@),
            field(trigger, "recurrence"@),
            pointer,
            file,
            workflow,
        ),
{
    lemma_plain(file, scope);
    lemma_no_common_findings(trigger, pointer, "trigger"@, file, workflow, scope);
    assert(trigger_common_findings(trigger, pointer, file) =~= Seq::<Finding>::empty());
    assert(authored_trigger_findings(trigger, pointer, file, workflow, scope)
        =~= typed_trigger_findings(
        spec,
        trigger,
        field(trigger, "inputs"@),
        field(trigger, "recurrence"@),
        pointer,
        file,
        workflow,
    ));
}

/// An action with its type and inputs has nothing else.
pub proof fn lemma_action_alone(node: &Node)
    requires
        holds_only(node, seq!["type"@, "inputs"@]),
    ensures
        field(node, "description"@) is None,
        field(node, "operationOptions"@) is None,
        field(node, "runtimeConfiguration"@) is None,
        field(node, "limit"@) is None,
        field(node, "trackedProperties"@) is None,
        field(node, "kind"@) is None,
        field(node, "runAfter"@) is None,
        field(node, "actions"@) is None,
        field(node, "cases"@) is None,
        field(node, "default"@) is None,
        field(node, "else"@) is None,
        field(node, "tools"@) is None,
{
    reveal_strlit("type");
    reveal_strlit("inputs");
    reveal_strlit("description");
    reveal_strlit("operationOptions");
    reveal_strlit("runtimeConfiguration");
    reveal_strlit("limit");
    reveal_strlit("trackedProperties");
    reveal_strlit("kind");
    reveal_strlit("runAfter");
    reveal_strlit("actions");
    reveal_strlit("cases");
    reveal_strlit("default");
    reveal_strlit("else");
    reveal_strlit("tools");
    assert("type"@.len() == 4 && "type"@[0] == 't');
    assert("inputs"@.len() == 6 && "inputs"@[0] == 'i');
    assert("description"@.len() == 11 && "description"@[0] == 'd');
    assert("operationOptions"@.len() == 16 && "operationOptions"@[0] == 'o');
    assert("runtimeConfiguration"@.len() == 20 && "runtimeConfiguration"@[0] == 'r');
    assert("limit"@.len() == 5 && "limit"@[0] == 'l');
    assert("trackedProperties"@.len() == 17 && "trackedProperties"@[0] == 't');
    assert("kind"@.len() == 4 && "kind"@[0] == 'k');
    assert("runAfter"@.len() == 8 && "runAfter"@[0] == 'r');
    assert("actions"@.len() == 7 && "actions"@[0] == 'a');
    assert("cases"@.len() == 5 && "cases"@[0] == 'c');
    assert("default"@.len() == 7 && "default"@[0] == 'd');
    assert("else"@.len() == 4 && "else"@[0] == 'e');
    assert("tools"@.len() == 5 && "tools"@[0] == 't');
    let keys = seq!["type"@, "inputs"@];
    if field(node, "description"@) is Some {
        assert(keys.contains("description"@));
        let i = choose|i: int| 0 <= i < keys.len() && keys[i] == "description"@;
        assert(keys[i] == "description"@);
    }
    if field(node, "operationOptions"@) is Some {
        assert(keys.contains("operationOptions"@));
        let i = choose|i: int| 0 <= i < keys.len() && keys[i] == "operationOptions"@;
        assert(keys[i] == "operationOptions"@);
    }
    if field(node, "runtimeConfiguration"@) is Some {
        assert(keys.contains("runtimeConfiguration"@));
        let i = choose|i: int| 0 <= i < keys.len() && keys[i] == "runtimeConfiguration"@;
        assert(keys[i] == "runtimeConfiguration"@);
    }
    if field(node, "limit"@) is Some {
        assert(keys.contains("limit"@));
        let i = choose|i: int| 0 <= i < keys.len() && keys[i] == "limit"@;
        assert(keys[i] == "limit"@);
    }
    if field(node, "trackedProperties"@) is Some {
        assert(keys.contains("trackedProperties"@));
        let i = choose|i: int| 0 <= i < keys.len() && keys[i] == "trackedProperties"@;
        assert(keys[i] == "trackedProperties"@);
    }
    if field(node, "kind"@) is Some {
        assert(keys.contains("kind"@));
        let i = choose|i: int| 0 <= i < keys.len() && keys[i] == "kind"@;
        assert(keys[i] == "kind"@);
    }
    if field(node, "runAfter"@) is Some {
        assert(keys.contains("runAfter"@));
        let i = choose|i: int| 0 <= i < keys.len() && keys[i] == "runAfter"@;
        assert(keys[i] == "runAfter"@);
    }
    if field(node, "actions"@) is Some {
        assert(keys.contains("actions"@));
        let i = choose|i: int| 0 <= i < keys.len() && keys[i] == "actions"@;
        assert(keys[i] == "actions"@);
    }
    if field(node, "cases"@) is Some {
        assert(keys.contains("cases"@));
        let i = choose|i: int| 0 <= i < keys.len() && keys[i] == "cases"@;
        assert(keys[i] == "cases"@);
    }
    if field(node, "default"@) is Some {
        assert(keys.contains("default"@));
        let i = choose|i: int| 0 <= i < keys.len() && keys[i] == "default"@;
        assert(keys[i] == "default"@);
    }
    if field(node, "else"@) is Some {
        assert(keys.contains("else"@));
        let i = choose|i: int| 0 <= i < keys.len() && keys[i] == "else"@;
        assert(keys[i] == "else"@);
    }
    if field(node, "tools"@) is Some {
        assert(keys.contains("tools"@));
        let i = choose|i: int| 0 <= i < keys.len() && keys[i] == "tools"@;
        assert(keys[i] == "tools"@);
    }
}

/// A trigger with its type, inputs and recurrence has nothing else.
pub proof fn lemma_trigger_alone(node: &Node)
    requires
        holds_only(node, seq!["type"@, "inputs"@, "recurrence"@]),
    ensures
        field(node, "description"@) is None,
        field(node, "operationOptions"@) is None,
        field(node, "runtimeConfiguration"@) is None,
        field(node, "limit"@) is None,
        field(node, "trackedProperties"@) is None,
        field(node, "kind"@) is None,
        field(node, "splitOn"@) is None,
        field(node, "conditions"@) is None,
        field(node, "correlation"@) is None,
        field(node, "splitOnConfiguration"@) is None,
{
    reveal_strlit("type");
    reveal_strlit("inputs");
    reveal_strlit("recurrence");
    reveal_strlit("description");
    reveal_strlit("operationOptions");
    reveal_strlit("runtimeConfiguration");
    reveal_strlit("limit");
    reveal_strlit("trackedProperties");
    reveal_strlit("kind");
    reveal_strlit("splitOn");
    reveal_strlit("conditions");
    reveal_strlit("correlation");
    reveal_strlit("splitOnConfiguration");
    assert("type"@.len() == 4 && "type"@[0] == 't');
    assert("inputs"@.len() == 6 && "inputs"@[0] == 'i');
    assert("recurrence"@.len() == 10 && "recurrence"@[0] == 'r');
    assert("description"@.len() == 11 && "description"@[0] == 'd');
    assert("operationOptions"@.len() == 16 && "operationOptions"@[0] == 'o');
    assert("runtimeConfiguration"@.len() == 20 && "runtimeConfiguration"@[0] == 'r');
    assert("limit"@.len() == 5 && "limit"@[0] == 'l');
    assert("trackedProperties"@.len() == 17 && "trackedProperties"@[0] == 't');
    assert("kind"@.len() == 4 && "kind"@[0] == 'k');
    assert("splitOn"@.len() == 7 && "splitOn"@[0] == 's');
    assert("conditions"@.len() == 10 && "conditions"@[0] == 'c');
    assert("correlation"@.len() == 11 && "correlation"@[0] == 'c');
    assert("splitOnConfiguration"@.len() == 20 && "splitOnConfiguration"@[0] == 's');
    let keys = seq!["type"@, "inputs"@, "recurrence"@];
    if field(node, "description"@) is Some {
        assert(keys.contains("description"@));
        let i = choose|i: int| 0 <= i < keys.len() && keys[i] == "description"@;
        assert(keys[i] == "description"@);
    }
    if field(node, "operationOptions"@) is Some {
        assert(keys.contains("operationOptions"@));
        let i = choose|i: int| 0 <= i < keys.len() && keys[i] == "operationOptions"@;
        assert(keys[i] == "operationOptions"@);
    }
    if field(node, "runtimeConfiguration"@) is Some {
        assert(keys.contains("runtimeConfiguration"@));
        let i = choose|i: int| 0 <= i < keys.len() && keys[i] == "runtimeConfiguration"@;
        assert(keys[i] == "runtimeConfiguration"@);
    }
    if field(node, "limit"@) is Some {
        assert(keys.contains("limit"@));
        let i = choose|i: int| 0 <= i < keys.len() && keys[i] == "limit"@;
        assert(keys[i] == "limit"@);
    }
    if field(node, "trackedProperties"@) is Some {
        assert(keys.contains("trackedProperties"@));
        let i = choose|i: int| 0 <= i < keys.len() && keys[i] == "trackedProperties"@;
        assert(keys[i] == "trackedProperties"@);
    }
    if field(node, "kind"@) is Some {
        assert(keys.contains("kind"@));
        let i = choose|i: int| 0 <= i < keys.len() && keys[i] == "kind"@;
        assert(keys[i] == "kind"@);
    }
    if field(node, "splitOn"@) is Some {
        assert(keys.contains("splitOn"@));
        let i = choose|i: int| 0 <= i < keys.len() && keys[i] == "splitOn"@;
        assert(keys[i] == "splitOn"@);
    }
    if field(node, "conditions"@) is Some {
        assert(keys.contains("conditions"@));
        let i = choose|i: int| 0 <= i < keys.len() && keys[i] == "conditions"@;
        assert(keys[i] == "conditions"@);
    }
    if field(node, "correlation"@) is Some {
        assert(keys.contains("correlation"@));
        let i = choose|i: int| 0 <= i < keys.len() && keys[i] == "correlation"@;
        assert(keys[i] == "correlation"@);
    }
    if field(node, "splitOnConfiguration"@) is Some {
        assert(keys.contains("splitOnConfiguration"@));
        let i = choose|i: int| 0 <= i < keys.len() && keys[i] == "splitOnConfiguration"@;
        assert(keys[i] == "splitOnConfiguration"@);
    }
}

} // verus!
