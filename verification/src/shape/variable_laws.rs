//! What the actions on variables are judged by.

use vstd::prelude::*;

use crate::arm::ArmScope;
use crate::json::{field, joined, text_field, Document, Node};
use crate::shape::actions::variables::{
    declared_types, inserted, is_assignment, is_root_container, is_step, may_be_numeric_type,
    types_among, variable_type_names,
};
use crate::shape::operations::authored_action_findings;
use crate::shape::plain_laws::{
    holds_only, is_plain, lemma_action_alone, lemma_action_by_type, lemma_plain,
};
use crate::shape::registry::ActionSpec;
use crate::shape::type_laws::lemma_action_types;
use crate::text::{folded, has_suffix, occurs_at, one_of_ignoring_case, same_ignoring_case};
use crate::workflow::{ActionInfo, InitializedVariable, Workflow};

verus! {

/// One of the actions in `container` gives the variable `name` a type.
pub open spec fn declares(
    actions: Seq<ActionInfo>,
    container: Seq<char>,
    name: Seq<char>,
    kind: Seq<char>,
) -> bool {
    exists|i: int, j: int|
        #![trigger actions[i].initialized_variables@[j]]
        0 <= i < actions.len() && actions[i].container_pointer@ == container && 0 <= j
            < actions[i].initialized_variables@.len()
            && actions[i].initialized_variables@[j].name@ == name
            && actions[i].initialized_variables@[j].variable_type@ == kind
}

/// Among the first `n` variables one called `name` is of the type.
spec fn is_among(
    variables: Seq<InitializedVariable>,
    n: nat,
    name: Seq<char>,
    kind: Seq<char>,
) -> bool {
    exists|j: int|
        0 <= j < n && (#[trigger] variables[j]).name@ == name && variables[j].variable_type@
            == kind
}

proof fn lemma_inserted(list: Seq<Seq<char>>, item: Seq<char>, other: Seq<char>)
    ensures
        inserted(list, item).contains(other) == (list.contains(other) || other == item),
    decreases list.len(),
{
    if list.len() == 0 {
        assert(inserted(list, item)[0] == item);
    } else if list[0] == item {
        assert(list.contains(item));
    } else {
        let rest = list.skip(1);
        assert(list =~= seq![list[0]] + rest);
        lemma_inserted(rest, item, other);
        lemma_front(list[0], rest, other);
        lemma_front(list[0], inserted(rest, item), other);
        lemma_front(item, list, other);
    }
}

proof fn lemma_front(first: Seq<char>, rest: Seq<Seq<char>>, other: Seq<char>)
    ensures
        (seq![first] + rest).contains(other) == (rest.contains(other) || other == first),
{
    let list = seq![first] + rest;
    assert(list[0] == first);
    if rest.contains(other) {
        let i = choose|i: int| 0 <= i < rest.len() && rest[i] == other;
        assert(list[i + 1] == other);
    }
    if list.contains(other) {
        let i = choose|i: int| 0 <= i < list.len() && list[i] == other;
        if i > 0 {
            assert(rest[i - 1] == other);
        }
    }
}

proof fn lemma_among(
    variables: Seq<InitializedVariable>,
    n: nat,
    name: Seq<char>,
    list: Seq<Seq<char>>,
    kind: Seq<char>,
)
    requires
        n <= variables.len(),
    ensures
        types_among(variables, n, name, list).contains(kind) == (list.contains(kind) || is_among(
            variables,
            n,
            name,
            kind,
        )),
    decreases n,
{
    if n > 0 {
        let m = (n - 1) as nat;
        lemma_among(variables, m, name, list, kind);
        let before = types_among(variables, m, name, list);
        lemma_inserted(before, variables[n - 1].variable_type@, kind);
        assert(is_among(variables, n, name, kind) == (is_among(variables, m, name, kind) || (
        variables[n - 1].name@ == name && variables[n - 1].variable_type@ == kind)));
    }
}

proof fn lemma_declared(
    actions: Seq<ActionInfo>,
    n: nat,
    container: Seq<char>,
    name: Seq<char>,
    kind: Seq<char>,
)
    requires
        n <= actions.len(),
    ensures
        declared_types(actions, n, container, name).contains(kind) == declares(
            actions.take(n as int),
            container,
            name,
            kind,
        ),
    decreases n,
{
    let now = actions.take(n as int);
    if n > 0 {
        let m = (n - 1) as nat;
        let before = actions.take(m as int);
        lemma_declared(actions, m, container, name, kind);
        let action = actions[n - 1];
        let variables = action.initialized_variables@;
        let types = declared_types(actions, m, container, name);
        lemma_among(variables, variables.len(), name, types, kind);
        assert(now[n - 1] == action);
        if declares(before, container, name, kind) {
            let (i, j) = choose|i: int, j: int|
                #![trigger before[i].initialized_variables@[j]]
                0 <= i < before.len() && before[i].container_pointer@ == container && 0 <= j
                    < before[i].initialized_variables@.len()
                    && before[i].initialized_variables@[j].name@ == name
                    && before[i].initialized_variables@[j].variable_type@ == kind;
            assert(now[i] == before[i]);
            assert(now[i].initialized_variables@[j].name@ == name);
        }
        if action.container_pointer@ == container && is_among(
            variables,
            variables.len(),
            name,
            kind,
        ) {
            let j = choose|j: int|
                0 <= j < variables.len() && (#[trigger] variables[j]).name@ == name
                    && variables[j].variable_type@ == kind;
            assert(now[n - 1].initialized_variables@[j].name@ == name);
        }
        if declares(now, container, name, kind) {
            let (i, j) = choose|i: int, j: int|
                #![trigger now[i].initialized_variables@[j]]
                0 <= i < now.len() && now[i].container_pointer@ == container && 0 <= j
                    < now[i].initialized_variables@.len()
                    && now[i].initialized_variables@[j].name@ == name
                    && now[i].initialized_variables@[j].variable_type@ == kind;
            if i < m {
                assert(before[i] == now[i]);
                assert(before[i].initialized_variables@[j].name@ == name);
            } else {
                assert(variables[j].name@ == name);
            }
        }
    }
}

proof fn lemma_variable_type_names(name: Seq<char>)
    ensures
        one_of_ignoring_case(name, variable_type_names()) == (same_ignoring_case(name, "Array"@) || same_ignoring_case(name, "Boolean"@) || same_ignoring_case(name, "Float"@) || same_ignoring_case(name, "Integer"@) || same_ignoring_case(name, "Object"@) || same_ignoring_case(name, "String"@)),
{
    let list = variable_type_names();
    assert(list[0] == "Array"@);
    assert(list[1] == "Boolean"@);
    assert(list[2] == "Float"@);
    assert(list[3] == "Integer"@);
    assert(list[4] == "Object"@);
    assert(list[5] == "String"@);
    if one_of_ignoring_case(name, list) {
        let k = choose|k: int| 0 <= k < list.len() && same_ignoring_case(name, #[trigger] list[k]);
        assert(same_ignoring_case(name, list[k]));
    }
}

/// Inputs with these members have nothing else.
proof fn lemma_inputs_of_variables_are_initialized_at_the_root(node: &Node)
    requires
        holds_only(node, seq!["name"@, "type"@]),
    ensures
        field(node, "variables"@) is None,
{
    reveal_strlit("name");
    reveal_strlit("type");
    reveal_strlit("variables");
    assert("name"@.len() == 4 && "name"@[0] == 'n');
    assert("type"@.len() == 4 && "type"@[0] == 't');
    assert("variables"@.len() == 9 && "variables"@[0] == 'v');
    let keys = seq!["name"@, "type"@];
    if field(node, "variables"@) is Some {
        assert(keys.contains("variables"@));
        let i = choose|i: int| 0 <= i < keys.len() && keys[i] == "variables"@;
        assert(keys[i] == "variables"@);
    }
}

/// An `InitializeVariable` action of one variable is clean exactly where the type
/// of the variable is known and no other action encloses the action.
pub proof fn law_variables_are_initialized_at_the_root(
    action: &Node,
    inputs: &Node,
    kind: Seq<char>,
    variable_type: Seq<char>,
    base: Seq<char>,
    pointer: Seq<char>,
    container: Seq<char>,
    file: &Document,
    workflow: &Workflow,
    scope: &ArmScope,
)
    requires
        is_plain(file, scope),
        holds_only(action, seq!["type"@, "inputs"@]),
        text_field(action, "type"@) == Some(kind),
        same_ignoring_case(kind, "InitializeVariable"@),
        field(action, "inputs"@) == Some(*inputs),
        inputs.kind is Object,
        holds_only(inputs, seq!["name"@, "type"@]),
        text_field(inputs, "name"@) is Some,
        text_field(inputs, "type"@) == Some(variable_type),
        container == base + "/actions"@,
    ensures
        (authored_action_findings(action, pointer, container, file, workflow, scope).len() == 0)
            == ((same_ignoring_case(variable_type, "Array"@) || same_ignoring_case(variable_type, "Boolean"@) || same_ignoring_case(variable_type, "Float"@) || same_ignoring_case(variable_type, "Integer"@) || same_ignoring_case(variable_type, "Object"@) || same_ignoring_case(variable_type, "String"@)) && (forall|at: int|
            0 <= at ==> !(#[trigger] occurs_at(base, "/actions/"@, at)))),
{
    let declared = field(action, "type"@)->Some_0;
    lemma_plain(file, scope);
    lemma_action_alone(action);
    lemma_action_types(kind);
    lemma_action_by_type(
        action,
        pointer,
        container,
        file,
        workflow,
        scope,
        &declared,
        kind,
        ActionSpec::InitializeVariable,
    );
    lemma_inputs_of_variables_are_initialized_at_the_root(inputs);
    lemma_variable_type_names(variable_type);
    assert(container.take(container.len() - "/actions"@.len()) =~= base);
    assert(container.skip(container.len() - "/actions"@.len()) =~= "/actions"@);
    assert(has_suffix(container, "/actions"@));
    assert(is_root_container(container) == (forall|at: int|
        0 <= at ==> !(#[trigger] occurs_at(base, "/actions/"@, at))));
}

/// Inputs with these members have nothing else.
proof fn lemma_inputs_of_increments_target_numbers(node: &Node)
    requires
        holds_only(node, seq!["name"@, "value"@]),
    ensures
        field(node, "type"@) is None,
{
    reveal_strlit("name");
    reveal_strlit("value");
    reveal_strlit("type");
    assert("name"@.len() == 4 && "name"@[0] == 'n');
    assert("value"@.len() == 5 && "value"@[0] == 'v');
    assert("type"@.len() == 4 && "type"@[0] == 't');
    let keys = seq!["name"@, "value"@];
    if field(node, "type"@) is Some {
        assert(keys.contains("type"@));
        let i = choose|i: int| 0 <= i < keys.len() && keys[i] == "type"@;
        assert(keys[i] == "type"@);
    }
}

/// An `IncrementVariable` action is clean exactly where its amount is a number and the
/// variable, if declared at all, is declared as a number.
pub proof fn law_increments_target_numbers(
    action: &Node,
    inputs: &Node,
    kind: Seq<char>,
    name: Seq<char>,
    value: &Node,
    pointer: Seq<char>,
    container: Seq<char>,
    file: &Document,
    workflow: &Workflow,
    scope: &ArmScope,
)
    requires
        is_plain(file, scope),
        holds_only(action, seq!["type"@, "inputs"@]),
        text_field(action, "type"@) == Some(kind),
        same_ignoring_case(kind, "IncrementVariable"@),
        field(action, "inputs"@) == Some(*inputs),
        inputs.kind is Object,
        holds_only(inputs, seq!["name"@, "value"@]),
        text_field(inputs, "name"@) == Some(name),
        field(inputs, "value"@) == Some(*value),
        !(value.kind is String),
        !(value.kind is Null),
    ensures
        (authored_action_findings(action, pointer, container, file, workflow, scope).len() == 0)
            == (value.kind is Number && ((exists|variable_type: Seq<char>|
            #[trigger] declares(
                workflow.action_list@,
                joined(workflow.definition_pointer@, "actions"@),
                name,
                variable_type,
            )) ==> exists|variable_type: Seq<char>| #[trigger] declares(
                workflow.action_list@,
                joined(workflow.definition_pointer@, "actions"@),
                name,
                variable_type,
            ) && (same_ignoring_case(variable_type, "Integer"@) || same_ignoring_case(
                variable_type,
                "Float"@,
            )))),
{
    let declared = field(action, "type"@)->Some_0;
    lemma_plain(file, scope);
    lemma_action_alone(action);
    lemma_action_types(kind);
    lemma_action_by_type(
        action,
        pointer,
        container,
        file,
        workflow,
        scope,
        &declared,
        kind,
        ActionSpec::IncrementVariable,
    );
    lemma_inputs_of_increments_target_numbers(inputs);
    lemma_increments(kind);
    let list = workflow.action_list@;
    let root = joined(workflow.definition_pointer@, "actions"@);
    let types = declared_types(list, list.len(), root, name);
    assert(list.take(list.len() as int) =~= list);
    assert forall|variable_type: Seq<char>| #[trigger] declares(list, root, name, variable_type)
        == types.contains(variable_type) by {
        lemma_declared(list, list.len(), root, name, variable_type);
    }
    if types.len() > 0 {
        assert(types.contains(types[0]));
        assert(declares(list, root, name, types[0]));
    }
    let steps = exists|i: int| 0 <= i < types.len() && may_be_numeric_type(file, #[trigger] types[i]);
    if steps {
        let i = choose|i: int| 0 <= i < types.len() && may_be_numeric_type(file, #[trigger] types[i]);
        assert(types.contains(types[i]));
        assert(declares(list, root, name, types[i]));
    }
    if exists|variable_type: Seq<char>| #[trigger] declares(list, root, name, variable_type) && (
    same_ignoring_case(variable_type, "Integer"@) || same_ignoring_case(variable_type, "Float"@)) {
        let t = choose|variable_type: Seq<char>| #[trigger] declares(
            list,
            root,
            name,
            variable_type,
        ) && (same_ignoring_case(variable_type, "Integer"@) || same_ignoring_case(
            variable_type,
            "Float"@,
        ));
        assert(types.contains(t));
        let i = choose|i: int| 0 <= i < types.len() && types[i] == t;
        assert(may_be_numeric_type(file, types[i]));
    }
    if exists|variable_type: Seq<char>| #[trigger] declares(list, root, name, variable_type) {
        let t = choose|variable_type: Seq<char>| #[trigger] declares(list, root, name, variable_type);
        assert(types.contains(t));
    }
}

/// Inputs with these members have nothing else.
proof fn lemma_inputs_of_decrements_target_numbers(node: &Node)
    requires
        holds_only(node, seq!["name"@, "value"@]),
    ensures
        field(node, "type"@) is None,
{
    reveal_strlit("name");
    reveal_strlit("value");
    reveal_strlit("type");
    assert("name"@.len() == 4 && "name"@[0] == 'n');
    assert("value"@.len() == 5 && "value"@[0] == 'v');
    assert("type"@.len() == 4 && "type"@[0] == 't');
    let keys = seq!["name"@, "value"@];
    if field(node, "type"@) is Some {
        assert(keys.contains("type"@));
        let i = choose|i: int| 0 <= i < keys.len() && keys[i] == "type"@;
        assert(keys[i] == "type"@);
    }
}

/// An `DecrementVariable` action is clean exactly where its amount is a number and the
/// variable, if declared at all, is declared as a number.
pub proof fn law_decrements_target_numbers(
    action: &Node,
    inputs: &Node,
    kind: Seq<char>,
    name: Seq<char>,
    value: &Node,
    pointer: Seq<char>,
    container: Seq<char>,
    file: &Document,
    workflow: &Workflow,
    scope: &ArmScope,
)
    requires
        is_plain(file, scope),
        holds_only(action, seq!["type"@, "inputs"@]),
        text_field(action, "type"@) == Some(kind),
        same_ignoring_case(kind, "DecrementVariable"@),
        field(action, "inputs"@) == Some(*inputs),
        inputs.kind is Object,
        holds_only(inputs, seq!["name"@, "value"@]),
        text_field(inputs, "name"@) == Some(name),
        field(inputs, "value"@) == Some(*value),
        !(value.kind is String),
        !(value.kind is Null),
    ensures
        (authored_action_findings(action, pointer, container, file, workflow, scope).len() == 0)
            == (value.kind is Number && ((exists|variable_type: Seq<char>|
            #[trigger] declares(
                workflow.action_list@,
                joined(workflow.definition_pointer@, "actions"@),
                name,
                variable_type,
            )) ==> exists|variable_type: Seq<char>| #[trigger] declares(
                workflow.action_list@,
                joined(workflow.definition_pointer@, "actions"@),
                name,
                variable_type,
            ) && (same_ignoring_case(variable_type, "Integer"@) || same_ignoring_case(
                variable_type,
                "Float"@,
            )))),
{
    let declared = field(action, "type"@)->Some_0;
    lemma_plain(file, scope);
    lemma_action_alone(action);
    lemma_action_types(kind);
    lemma_action_by_type(
        action,
        pointer,
        container,
        file,
        workflow,
        scope,
        &declared,
        kind,
        ActionSpec::DecrementVariable,
    );
    lemma_inputs_of_decrements_target_numbers(inputs);
    lemma_decrements(kind);
    let list = workflow.action_list@;
    let root = joined(workflow.definition_pointer@, "actions"@);
    let types = declared_types(list, list.len(), root, name);
    assert(list.take(list.len() as int) =~= list);
    assert forall|variable_type: Seq<char>| #[trigger] declares(list, root, name, variable_type)
        == types.contains(variable_type) by {
        lemma_declared(list, list.len(), root, name, variable_type);
    }
    if types.len() > 0 {
        assert(types.contains(types[0]));
        assert(declares(list, root, name, types[0]));
    }
    let steps = exists|i: int| 0 <= i < types.len() && may_be_numeric_type(file, #[trigger] types[i]);
    if steps {
        let i = choose|i: int| 0 <= i < types.len() && may_be_numeric_type(file, #[trigger] types[i]);
        assert(types.contains(types[i]));
        assert(declares(list, root, name, types[i]));
    }
    if exists|variable_type: Seq<char>| #[trigger] declares(list, root, name, variable_type) && (
    same_ignoring_case(variable_type, "Integer"@) || same_ignoring_case(variable_type, "Float"@)) {
        let t = choose|variable_type: Seq<char>| #[trigger] declares(
            list,
            root,
            name,
            variable_type,
        ) && (same_ignoring_case(variable_type, "Integer"@) || same_ignoring_case(
            variable_type,
            "Float"@,
        ));
        assert(types.contains(t));
        let i = choose|i: int| 0 <= i < types.len() && types[i] == t;
        assert(may_be_numeric_type(file, types[i]));
    }
    if exists|variable_type: Seq<char>| #[trigger] declares(list, root, name, variable_type) {
        let t = choose|variable_type: Seq<char>| #[trigger] declares(list, root, name, variable_type);
        assert(types.contains(t));
    }
}

/// Inputs with these members have nothing else.
proof fn lemma_inputs_of_sets_bring_a_value(node: &Node)
    requires
        holds_only(node, seq!["name"@, "value"@]),
    ensures
        field(node, "type"@) is None,
{
    reveal_strlit("name");
    reveal_strlit("value");
    reveal_strlit("type");
    assert("name"@.len() == 4 && "name"@[0] == 'n');
    assert("value"@.len() == 5 && "value"@[0] == 'v');
    assert("type"@.len() == 4 && "type"@[0] == 't');
    let keys = seq!["name"@, "value"@];
    if field(node, "type"@) is Some {
        assert(keys.contains("type"@));
        let i = choose|i: int| 0 <= i < keys.len() && keys[i] == "type"@;
        assert(keys[i] == "type"@);
    }
}

/// A `SetVariable` action on a variable is clean exactly where it brings a value.
pub proof fn law_sets_bring_a_value(
    action: &Node,
    inputs: &Node,
    kind: Seq<char>,
    pointer: Seq<char>,
    container: Seq<char>,
    file: &Document,
    workflow: &Workflow,
    scope: &ArmScope,
)
    requires
        is_plain(file, scope),
        holds_only(action, seq!["type"@, "inputs"@]),
        text_field(action, "type"@) == Some(kind),
        same_ignoring_case(kind, "SetVariable"@),
        field(action, "inputs"@) == Some(*inputs),
        inputs.kind is Object,
        holds_only(inputs, seq!["name"@, "value"@]),
        text_field(inputs, "name"@) is Some,
    ensures
        (authored_action_findings(action, pointer, container, file, workflow, scope).len() == 0)
            == (field(inputs, "value"@) is Some),
{
    let declared = field(action, "type"@)->Some_0;
    lemma_plain(file, scope);
    lemma_action_alone(action);
    lemma_action_types(kind);
    lemma_action_by_type(
        action,
        pointer,
        container,
        file,
        workflow,
        scope,
        &declared,
        kind,
        ActionSpec::SetVariable,
    );
    lemma_inputs_of_sets_bring_a_value(inputs);
    lemma_sets(kind);
}

/// Inputs with these members have nothing else.
proof fn lemma_inputs_of_array_appends_bring_a_value(node: &Node)
    requires
        holds_only(node, seq!["name"@, "value"@]),
    ensures
        field(node, "type"@) is None,
{
    reveal_strlit("name");
    reveal_strlit("value");
    reveal_strlit("type");
    assert("name"@.len() == 4 && "name"@[0] == 'n');
    assert("value"@.len() == 5 && "value"@[0] == 'v');
    assert("type"@.len() == 4 && "type"@[0] == 't');
    let keys = seq!["name"@, "value"@];
    if field(node, "type"@) is Some {
        assert(keys.contains("type"@));
        let i = choose|i: int| 0 <= i < keys.len() && keys[i] == "type"@;
        assert(keys[i] == "type"@);
    }
}

/// An `AppendToArrayVariable` action on a variable is clean exactly where it brings a value.
pub proof fn law_array_appends_bring_a_value(
    action: &Node,
    inputs: &Node,
    kind: Seq<char>,
    pointer: Seq<char>,
    container: Seq<char>,
    file: &Document,
    workflow: &Workflow,
    scope: &ArmScope,
)
    requires
        is_plain(file, scope),
        holds_only(action, seq!["type"@, "inputs"@]),
        text_field(action, "type"@) == Some(kind),
        same_ignoring_case(kind, "AppendToArrayVariable"@),
        field(action, "inputs"@) == Some(*inputs),
        inputs.kind is Object,
        holds_only(inputs, seq!["name"@, "value"@]),
        text_field(inputs, "name"@) is Some,
    ensures
        (authored_action_findings(action, pointer, container, file, workflow, scope).len() == 0)
            == (field(inputs, "value"@) is Some),
{
    let declared = field(action, "type"@)->Some_0;
    lemma_plain(file, scope);
    lemma_action_alone(action);
    lemma_action_types(kind);
    lemma_action_by_type(
        action,
        pointer,
        container,
        file,
        workflow,
        scope,
        &declared,
        kind,
        ActionSpec::AppendToArrayVariable,
    );
    lemma_inputs_of_array_appends_bring_a_value(inputs);
    lemma_array_appends(kind);
}

/// Inputs with these members have nothing else.
proof fn lemma_inputs_of_string_appends_bring_a_value(node: &Node)
    requires
        holds_only(node, seq!["name"@, "value"@]),
    ensures
        field(node, "type"@) is None,
{
    reveal_strlit("name");
    reveal_strlit("value");
    reveal_strlit("type");
    assert("name"@.len() == 4 && "name"@[0] == 'n');
    assert("value"@.len() == 5 && "value"@[0] == 'v');
    assert("type"@.len() == 4 && "type"@[0] == 't');
    let keys = seq!["name"@, "value"@];
    if field(node, "type"@) is Some {
        assert(keys.contains("type"@));
        let i = choose|i: int| 0 <= i < keys.len() && keys[i] == "type"@;
        assert(keys[i] == "type"@);
    }
}

/// An `AppendToStringVariable` action on a variable is clean exactly where it brings a value.
pub proof fn law_string_appends_bring_a_value(
    action: &Node,
    inputs: &Node,
    kind: Seq<char>,
    pointer: Seq<char>,
    container: Seq<char>,
    file: &Document,
    workflow: &Workflow,
    scope: &ArmScope,
)
    requires
        is_plain(file, scope),
        holds_only(action, seq!["type"@, "inputs"@]),
        text_field(action, "type"@) == Some(kind),
        same_ignoring_case(kind, "AppendToStringVariable"@),
        field(action, "inputs"@) == Some(*inputs),
        inputs.kind is Object,
        holds_only(inputs, seq!["name"@, "value"@]),
        text_field(inputs, "name"@) is Some,
    ensures
        (authored_action_findings(action, pointer, container, file, workflow, scope).len() == 0)
            == (field(inputs, "value"@) is Some),
{
    let declared = field(action, "type"@)->Some_0;
    lemma_plain(file, scope);
    lemma_action_alone(action);
    lemma_action_types(kind);
    lemma_action_by_type(
        action,
        pointer,
        container,
        file,
        workflow,
        scope,
        &declared,
        kind,
        ActionSpec::AppendToStringVariable,
    );
    lemma_inputs_of_string_appends_bring_a_value(inputs);
    lemma_string_appends(kind);
}

proof fn lemma_sets(kind: Seq<char>)
    requires
        same_ignoring_case(kind, "SetVariable"@),
    ensures
        is_assignment(kind),
        !is_step(kind),
{
    reveal_strlit("SetVariable");
    reveal_strlit("AppendToArrayVariable");
    reveal_strlit("AppendToStringVariable");
    reveal_strlit("IncrementVariable");
    reveal_strlit("DecrementVariable");
    assert("AppendToArrayVariable"@.len() == 21 && "SetVariable"@.len() == 11);
    assert("AppendToStringVariable"@.len() == 22 && "SetVariable"@.len() == 11);
    assert("IncrementVariable"@.len() == 17 && "SetVariable"@.len() == 11);
    assert("DecrementVariable"@.len() == 17 && "SetVariable"@.len() == 11);
}

proof fn lemma_array_appends(kind: Seq<char>)
    requires
        same_ignoring_case(kind, "AppendToArrayVariable"@),
    ensures
        is_assignment(kind),
        !is_step(kind),
{
    reveal_strlit("SetVariable");
    reveal_strlit("AppendToArrayVariable");
    reveal_strlit("AppendToStringVariable");
    reveal_strlit("IncrementVariable");
    reveal_strlit("DecrementVariable");
    assert("SetVariable"@.len() == 11 && "AppendToArrayVariable"@.len() == 21);
    assert("AppendToStringVariable"@.len() == 22 && "AppendToArrayVariable"@.len() == 21);
    assert("IncrementVariable"@.len() == 17 && "AppendToArrayVariable"@.len() == 21);
    assert("DecrementVariable"@.len() == 17 && "AppendToArrayVariable"@.len() == 21);
}

proof fn lemma_string_appends(kind: Seq<char>)
    requires
        same_ignoring_case(kind, "AppendToStringVariable"@),
    ensures
        is_assignment(kind),
        !is_step(kind),
{
    reveal_strlit("SetVariable");
    reveal_strlit("AppendToArrayVariable");
    reveal_strlit("AppendToStringVariable");
    reveal_strlit("IncrementVariable");
    reveal_strlit("DecrementVariable");
    assert("SetVariable"@.len() == 11 && "AppendToStringVariable"@.len() == 22);
    assert("AppendToArrayVariable"@.len() == 21 && "AppendToStringVariable"@.len() == 22);
    assert("IncrementVariable"@.len() == 17 && "AppendToStringVariable"@.len() == 22);
    assert("DecrementVariable"@.len() == 17 && "AppendToStringVariable"@.len() == 22);
}

proof fn lemma_increments(kind: Seq<char>)
    requires
        same_ignoring_case(kind, "IncrementVariable"@),
    ensures
        !is_assignment(kind),
        is_step(kind),
{
    reveal_strlit("SetVariable");
    reveal_strlit("AppendToArrayVariable");
    reveal_strlit("AppendToStringVariable");
    reveal_strlit("IncrementVariable");
    reveal_strlit("DecrementVariable");
    assert("SetVariable"@.len() == 11 && "IncrementVariable"@.len() == 17);
    assert("AppendToArrayVariable"@.len() == 21 && "IncrementVariable"@.len() == 17);
    assert("AppendToStringVariable"@.len() == 22 && "IncrementVariable"@.len() == 17);
    assert(folded(kind[0]) == 'i' && folded("DecrementVariable"@[0]) == 'd');
}

proof fn lemma_decrements(kind: Seq<char>)
    requires
        same_ignoring_case(kind, "DecrementVariable"@),
    ensures
        !is_assignment(kind),
        is_step(kind),
{
    reveal_strlit("SetVariable");
    reveal_strlit("AppendToArrayVariable");
    reveal_strlit("AppendToStringVariable");
    reveal_strlit("IncrementVariable");
    reveal_strlit("DecrementVariable");
    assert("SetVariable"@.len() == 11 && "DecrementVariable"@.len() == 17);
    assert("AppendToArrayVariable"@.len() == 21 && "DecrementVariable"@.len() == 17);
    assert("AppendToStringVariable"@.len() == 22 && "DecrementVariable"@.len() == 17);
    assert(folded(kind[0]) == 'd' && folded("IncrementVariable"@[0]) == 'i');
}

} // verus!
