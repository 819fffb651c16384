//! What a definition as a whole is judged by.

use vstd::prelude::*;

use crate::arm::ArmScope;
use crate::json::{field, joined, text_field, text_of, Document, Json, Member, Node};
use crate::shape::arm_boundary::allows_expressions;
use crate::shape::control_laws::lemma_all_count;
use crate::shape::definition_io::{
    output_findings, outputs_findings, parameter_findings, parameter_list_findings, parameter_type_names,
    parameters_findings,
};
use crate::shape::recurrence_laws::{is_unmarked, lemma_unmarked_is_literal};
use crate::shape::limits::{depth_findings, total_limit_findings};
use crate::shape::operations::{
    authored_action_findings, authored_trigger_findings, container_findings, entry_findings,
    entry_list_findings, trigger_list_findings,
};
use crate::shape::plain_laws::{holds_only, is_plain, lemma_plain};
use crate::shape::root::{
    actions_section_findings, authored_metadata_findings, description_findings, dotted_numbers,
    missing_metadata_findings, operations_findings, outputs_section_findings,
    parameters_section_findings, presence_findings, shape_findings, triggers_section_findings,
    workflow_kind_findings,
};
use crate::shape::static_results::static_results_findings;
use crate::text::{one_of, same_ignoring_case};
use crate::workflow::{ActionInfo, Workflow, WorkflowKind};

verus! {

/// Decimal digits, one at least.
pub open spec fn is_number_text(text: Seq<char>) -> bool {
    text.len() > 0 && forall|i: int| 0 <= i < text.len() ==> '0' <= #[trigger] text[i] <= '9'
}

/// Four numbers with dots between them.
pub open spec fn is_version(text: Seq<char>) -> bool {
    exists|a: Seq<char>, b: Seq<char>, c: Seq<char>, d: Seq<char>|
        #![trigger is_number_text(a), is_number_text(b), is_number_text(c), is_number_text(d)]
        is_number_text(a) && is_number_text(b) && is_number_text(c) && is_number_text(d) && text
            == a + seq!['.'] + b + seq!['.'] + c + seq!['.'] + d
}

/// A member is left out, or is an object without null members.
pub open spec fn may_hold_entries(node: &Node, key: Seq<char>) -> bool {
    match field(node, key) {
        Some(value) => match value.kind {
            Json::Object(members) => forall|i: int|
                0 <= i < members@.len() ==> !((#[trigger] members@[i]).value.kind is Null),
            _ => false,
        },
        None => true,
    }
}

/// The entries of an object member, none where it is left out.
pub open spec fn entries_of(node: &Node, key: Seq<char>) -> Seq<Member> {
    match field(node, key) {
        Some(value) => match value.kind {
            Json::Object(members) => members@,
            _ => Seq::empty(),
        },
        None => Seq::empty(),
    }
}

/// A member is left out, or is a text.
pub open spec fn may_be_text(node: &Node, key: Seq<char>) -> bool {
    field(node, key) is Some ==> text_field(node, key) is Some
}

/// Each entry is an action under a name of at most 80 characters, and clean.
pub open spec fn are_clean_actions(
    members: Seq<Member>,
    n: int,
    pointer: Seq<char>,
    file: &Document,
    workflow: &Workflow,
    scope: &ArmScope,
) -> bool {
    forall|i: int|
        0 <= i < n ==> {
            let entry = #[trigger] members[i];
            &&& entry.name@.len() <= 80
            &&& entry.value.kind is Object
            &&& authored_action_findings(
                &entry.value,
                joined(pointer, entry.name@),
                pointer,
                file,
                workflow,
                scope,
            ).len() == 0
        }
}

/// An entry is a trigger under a name of at most 80 characters, and clean.
#[verifier::opaque]
pub open spec fn is_clean_trigger(
    entry: Member,
    pointer: Seq<char>,
    file: &Document,
    workflow: &Workflow,
    scope: &ArmScope,
) -> bool {
    &&& entry.name@.len() <= 80
    &&& entry.value.kind is Object
    &&& authored_trigger_findings(
        &entry.value,
        joined(pointer, entry.name@),
        file,
        workflow,
        scope,
    ).len() == 0
}

/// Each entry is a trigger under a name of at most 80 characters, and clean.
pub open spec fn are_clean_triggers(
    members: Seq<Member>,
    n: int,
    pointer: Seq<char>,
    file: &Document,
    workflow: &Workflow,
    scope: &ArmScope,
) -> bool {
    forall|i: int|
        0 <= i < n ==> is_clean_trigger(#[trigger] members[i], pointer, file, workflow, scope)
}

proof fn lemma_three(text: Seq<char>, at: int, n: nat)
    requires
        0 < at < text.len(),
        text[at] == '.',
        is_number_text(text.take(at)),
        dotted_numbers(text.skip(at + 1), n),
        n > 0,
    ensures
        dotted_numbers(text, n + 1),
{
}

/// Where a text of several numbers has its first dot.
proof fn lemma_split(text: Seq<char>, n: nat) -> (at: int)
    requires
        n > 1,
        dotted_numbers(text, n),
    ensures
        0 < at < text.len(),
        text == text.take(at) + seq!['.'] + text.skip(at + 1),
        is_number_text(text.take(at)),
        dotted_numbers(text.skip(at + 1), (n - 1) as nat),
{
    let at = choose|at: int|
        0 < at < text.len() && #[trigger] text[at] == '.' && crate::text::all_digits(text.take(at))
            && dotted_numbers(text.skip(at + 1), (n - 1) as nat);
    assert(text =~= text.take(at) + seq!['.'] + text.skip(at + 1));
    assert forall|i: int| 0 <= i < text.take(at).len() implies '0' <= #[trigger] text.take(at)[i]
        <= '9' by {}
    at
}

/// A content version is four numbers with dots between them.
pub proof fn law_versions_are_four_numbers(text: Seq<char>)
    ensures
        dotted_numbers(text, 4) == is_version(text),
{
    if dotted_numbers(text, 4) {
        let i = lemma_split(text, 4);
        let one = text.skip(i + 1);
        let j = lemma_split(one, 3);
        let two = one.skip(j + 1);
        let k = lemma_split(two, 2);
        let a = text.take(i);
        let b = one.take(j);
        let c = two.take(k);
        let d = two.skip(k + 1);
        assert(is_number_text(d)) by {
            assert forall|i: int| 0 <= i < d.len() implies '0' <= #[trigger] d[i] <= '9' by {}
        }
        assert(text =~= a + seq!['.'] + b + seq!['.'] + c + seq!['.'] + d);
        assert(is_number_text(a) && is_number_text(b) && is_number_text(c) && is_number_text(d));
    }
    if is_version(text) {
        let (a, b, c, d) = choose|a: Seq<char>, b: Seq<char>, c: Seq<char>, d: Seq<char>|
            #![trigger is_number_text(a), is_number_text(b), is_number_text(c), is_number_text(d)]
            is_number_text(a) && is_number_text(b) && is_number_text(c) && is_number_text(d)
                && text == a + seq!['.'] + b + seq!['.'] + c + seq!['.'] + d;
        let three = c + seq!['.'] + d;
        let two = b + seq!['.'] + three;
        assert(dotted_numbers(d, 1));
        assert(three.take(c.len() as int) =~= c && three.skip(c.len() as int + 1) =~= d);
        assert(three[c.len() as int] == '.');
        lemma_three(three, c.len() as int, 1);
        assert(two.take(b.len() as int) =~= b && two.skip(b.len() as int + 1) =~= three);
        assert(two[b.len() as int] == '.');
        lemma_three(two, b.len() as int, 2);
        assert(text =~= a + seq!['.'] + two);
        assert(text.take(a.len() as int) =~= a && text.skip(a.len() as int + 1) =~= two);
        assert(text[a.len() as int] == '.');
        lemma_three(text, a.len() as int, 3);
    }
}

proof fn lemma_actions(
    members: Vec<Member>,
    n: nat,
    pointer: Seq<char>,
    file: &Document,
    workflow: &Workflow,
    scope: &ArmScope,
)
    requires
        is_plain(file, scope),
        n <= members@.len(),
        forall|i: int| 0 <= i < members@.len() ==> !((#[trigger] members@[i]).value.kind is Null),
    ensures
        (entry_list_findings(members, n, pointer, file, workflow, scope).len() == 0)
            == are_clean_actions(members@, n as int, pointer, file, workflow, scope),
    decreases n,
{
    if n > 0 {
        let m = (n - 1) as nat;
        lemma_actions(members, m, pointer, file, workflow, scope);
        lemma_plain(file, scope);
        let entry = members@[n - 1];
        assert(members[n - 1] == entry);
        assert(!(entry.value.kind is Null));
        let found = entry_findings(&entry.value, entry.name@, pointer, file, workflow, scope);
        assert((found.len() == 0) == (entry.name@.len() <= 80 && entry.value.kind is Object
            && authored_action_findings(
            &entry.value,
            joined(pointer, entry.name@),
            pointer,
            file,
            workflow,
            scope,
        ).len() == 0));
    }
}

/// The first `n` triggers are clean.
#[verifier::opaque]
spec fn is_clean_list(
    members: Seq<Member>,
    n: nat,
    pointer: Seq<char>,
    file: &Document,
    workflow: &Workflow,
    scope: &ArmScope,
) -> bool {
    trigger_list_findings(members, n, pointer, file, workflow, scope).len() == 0
}

proof fn lemma_no_trigger(
    members: Seq<Member>,
    pointer: Seq<char>,
    file: &Document,
    workflow: &Workflow,
    scope: &ArmScope,
)
    ensures
        is_clean_list(members, 0, pointer, file, workflow, scope),
{
    reveal(is_clean_list);
}

proof fn lemma_trigger_entry(
    members: Seq<Member>,
    n: nat,
    pointer: Seq<char>,
    file: &Document,
    workflow: &Workflow,
    scope: &ArmScope,
)
    requires
        is_plain(file, scope),
        0 < n <= members.len(),
        !(members[n - 1].value.kind is Null),
    ensures
        is_clean_list(members, n, pointer, file, workflow, scope) == (is_clean_list(
            members,
            (n - 1) as nat,
            pointer,
            file,
            workflow,
            scope,
        ) && is_clean_trigger(members[n - 1], pointer, file, workflow, scope)),
{
    lemma_plain(file, scope);
    reveal(is_clean_trigger);
    reveal(is_clean_list);
}

proof fn lemma_triggers(
    members: Seq<Member>,
    n: nat,
    pointer: Seq<char>,
    file: &Document,
    workflow: &Workflow,
    scope: &ArmScope,
)
    requires
        is_plain(file, scope),
        n <= members.len(),
        forall|i: int| 0 <= i < members.len() ==> !((#[trigger] members[i]).value.kind is Null),
    ensures
        is_clean_list(members, n, pointer, file, workflow, scope) == are_clean_triggers(members, n as int, pointer, file, workflow, scope),
    decreases n,
{
    if n > 0 {
        let m = (n - 1) as nat;
        lemma_triggers(members, m, pointer, file, workflow, scope);
        assert(!(members[n - 1].value.kind is Null));
        lemma_trigger_entry(members, n, pointer, file, workflow, scope);
    } else {
        lemma_no_trigger(members, pointer, file, workflow, scope);
    }
}

proof fn lemma_depth(actions: Seq<ActionInfo>, n: nat, file: &Document, workflow: &Workflow)
    requires
        n <= actions.len(),
    ensures
        (depth_findings(actions, n, file, workflow).len() == 0) == (forall|i: int|
            0 <= i < n ==> (#[trigger] actions[i]).depth != 9),
    decreases n,
{
    if n > 0 {
        lemma_depth(actions, (n - 1) as nat, file, workflow);
    }
}

/// The actions of a container are clean exactly where each of them is, under a
/// name of at most 80 characters.
pub proof fn law_containers_are_judged_by_their_actions(
    value: &Node,
    members: Vec<Member>,
    pointer: Seq<char>,
    file: &Document,
    workflow: &Workflow,
    scope: &ArmScope,
)
    requires
        is_plain(file, scope),
        value.kind == Json::Object(members),
        forall|i: int| 0 <= i < members@.len() ==> !((#[trigger] members@[i]).value.kind is Null),
    ensures
        (container_findings(value, pointer, file, workflow, scope).len() == 0)
            == are_clean_actions(
            members@,
            members@.len() as int,
            pointer,
            file,
            workflow,
            scope,
        ),
{
    lemma_plain(file, scope);
    lemma_actions(members, members@.len(), pointer, file, workflow, scope);
}

/// A definition with these members has nothing else.
proof fn lemma_definition_alone(node: &Node)
    requires
        holds_only(node, seq!["$schema"@, "contentVersion"@, "description"@, "triggers"@, "actions"@, "parameters"@, "outputs"@]),
    ensures
        field(node, "staticResults"@) is None,
{
    reveal_strlit("$schema");
    reveal_strlit("contentVersion");
    reveal_strlit("description");
    reveal_strlit("triggers");
    reveal_strlit("actions");
    reveal_strlit("parameters");
    reveal_strlit("outputs");
    reveal_strlit("staticResults");
    assert("$schema"@.len() == 7 && "$schema"@[0] == '$');
    assert("contentVersion"@.len() == 14 && "contentVersion"@[0] == 'c');
    assert("description"@.len() == 11 && "description"@[0] == 'd');
    assert("triggers"@.len() == 8 && "triggers"@[0] == 't');
    assert("actions"@.len() == 7 && "actions"@[0] == 'a');
    assert("parameters"@.len() == 10 && "parameters"@[0] == 'p');
    assert("outputs"@.len() == 7 && "outputs"@[0] == 'o');
    assert("staticResults"@.len() == 13 && "staticResults"@[0] == 's');
    let keys = seq!["$schema"@, "contentVersion"@, "description"@, "triggers"@, "actions"@, "parameters"@, "outputs"@];
    if field(node, "staticResults"@) is Some {
        assert(keys.contains("staticResults"@));
        let i = choose|i: int| 0 <= i < keys.len() && keys[i] == "staticResults"@;
        assert(keys[i] == "staticResults"@);
    }
}

proof fn lemma_parameter_type_names(name: Seq<char>)
    ensures
        one_of(name, parameter_type_names()) == (name == "Array"@ || name == "Bool"@ || name == "Float"@ || name == "Int"@ || name == "Object"@ || name == "SecureObject"@ || name == "SecureString"@ || name == "String"@),
{
    let list = parameter_type_names();
    if one_of(name, list) {
        let k = choose|k: int| 0 <= k < list.len() && list[k] == name;
        assert(list[k] == name);
    }
    assert(list[0] == "Array"@);
    assert(list[1] == "Bool"@);
    assert(list[2] == "Float"@);
    assert(list[3] == "Int"@);
    assert(list[4] == "Object"@);
    assert(list[5] == "SecureObject"@);
    assert(list[6] == "SecureString"@);
    assert(list[7] == "String"@);
}

/// A value is of a type that a definition declares.
pub open spec fn is_of_type(value: &Node, kind: Seq<char>) -> bool {
    ||| kind == "Array"@ && value.kind is Array
    ||| kind == "Bool"@ && value.kind is Bool
    ||| kind == "Float"@ && value.kind is Number
    ||| kind == "Int"@ && value.kind is Number && !(value.kind->Number_0 is Float)
    ||| (kind == "Object"@ || kind == "SecureObject"@) && value.kind is Object
    ||| (kind == "String"@ || kind == "SecureString"@) && value.kind is String
}

/// A declaration with these members has nothing else.
proof fn lemma_parameter_alone(node: &Node)
    requires
        holds_only(node, seq!["type"@, "defaultValue"@]),
    ensures
        field(node, "allowedValues"@) is None,
        field(node, "description"@) is None,
{
    reveal_strlit("type");
    reveal_strlit("defaultValue");
    reveal_strlit("allowedValues");
    reveal_strlit("description");
    assert("type"@.len() == 4 && "type"@[0] == 't');
    assert("defaultValue"@.len() == 12 && "defaultValue"@[0] == 'd');
    assert("allowedValues"@.len() == 13 && "allowedValues"@[0] == 'a');
    assert("description"@.len() == 11 && "description"@[0] == 'd');
    let keys = seq!["type"@, "defaultValue"@];
    if field(node, "allowedValues"@) is Some {
        assert(keys.contains("allowedValues"@));
        let i = choose|i: int| 0 <= i < keys.len() && keys[i] == "allowedValues"@;
        assert(keys[i] == "allowedValues"@);
    }
    if field(node, "description"@) is Some {
        assert(keys.contains("description"@));
        let i = choose|i: int| 0 <= i < keys.len() && keys[i] == "description"@;
        assert(keys[i] == "description"@);
    }
}

/// A parameter with a default value is clean exactly where its type is known and
/// the value is of that type.
pub proof fn law_parameters_are_of_their_type(
    declaration: &Node,
    value: &Node,
    kind: Seq<char>,
    pointer: Seq<char>,
    required: bool,
    file: &Document,
    scope: &ArmScope,
)
    requires
        is_plain(file, scope),
        holds_only(declaration, seq!["type"@, "defaultValue"@]),
        text_field(declaration, "type"@) == Some(kind),
        field(declaration, "defaultValue"@) == Some(*value),
        !(value.kind is Null),
        text_of(value) is Some ==> is_unmarked(text_of(value)->Some_0),
    ensures
        (parameter_findings(declaration, pointer, required, file).len() == 0) == is_of_type(value, kind),
{
    lemma_plain(file, scope);
    lemma_parameter_alone(declaration);
    lemma_parameter_type_names(kind);
    if let Some(text) = text_of(value) {
        lemma_unmarked_is_literal(text);
    }
    reveal_strlit("Array");
    reveal_strlit("Bool");
    reveal_strlit("Float");
    reveal_strlit("Int");
    reveal_strlit("Object");
    reveal_strlit("SecureObject");
    reveal_strlit("SecureString");
    reveal_strlit("String");
    assert("Array"@.len() == 5 && "Array"@[0] == 'A');
    assert("Bool"@.len() == 4 && "Bool"@[0] == 'B');
    assert("Float"@.len() == 5 && "Float"@[0] == 'F');
    assert("Int"@.len() == 3 && "Int"@[0] == 'I');
    assert("Object"@.len() == 6 && "Object"@[0] == 'O');
    assert("SecureObject"@.len() == 12 && "SecureObject"@[0] == 'S' && "SecureObject"@[6] == 'O');
    assert("SecureString"@.len() == 12 && "SecureString"@[0] == 'S' && "SecureString"@[6] == 'S');
    assert("String"@.len() == 6 && "String"@[0] == 'S');
}

/// A declaration with these members has nothing else.
proof fn lemma_output_alone(node: &Node)
    requires
        holds_only(node, seq!["type"@, "value"@]),
    ensures
        field(node, "allowedValues"@) is None,
        field(node, "description"@) is None,
{
    reveal_strlit("type");
    reveal_strlit("value");
    reveal_strlit("allowedValues");
    reveal_strlit("description");
    assert("type"@.len() == 4 && "type"@[0] == 't');
    assert("value"@.len() == 5 && "value"@[0] == 'v');
    assert("allowedValues"@.len() == 13 && "allowedValues"@[0] == 'a');
    assert("description"@.len() == 11 && "description"@[0] == 'd');
    let keys = seq!["type"@, "value"@];
    if field(node, "allowedValues"@) is Some {
        assert(keys.contains("allowedValues"@));
        let i = choose|i: int| 0 <= i < keys.len() && keys[i] == "allowedValues"@;
        assert(keys[i] == "allowedValues"@);
    }
    if field(node, "description"@) is Some {
        assert(keys.contains("description"@));
        let i = choose|i: int| 0 <= i < keys.len() && keys[i] == "description"@;
        assert(keys[i] == "description"@);
    }
}

/// An output is clean exactly where its type is known and its value is of that
/// type.
pub proof fn law_outputs_are_of_their_type(
    declaration: &Node,
    value: &Node,
    kind: Seq<char>,
    pointer: Seq<char>,
    file: &Document,
    scope: &ArmScope,
)
    requires
        is_plain(file, scope),
        holds_only(declaration, seq!["type"@, "value"@]),
        text_field(declaration, "type"@) == Some(kind),
        field(declaration, "value"@) == Some(*value),
        !(value.kind is Null),
        text_of(value) is Some ==> is_unmarked(text_of(value)->Some_0),
    ensures
        (output_findings(declaration, pointer, file).len() == 0) == is_of_type(value, kind),
{
    lemma_plain(file, scope);
    lemma_output_alone(declaration);
    lemma_parameter_type_names(kind);
    if let Some(text) = text_of(value) {
        lemma_unmarked_is_literal(text);
    }
    reveal_strlit("Array");
    reveal_strlit("Bool");
    reveal_strlit("Float");
    reveal_strlit("Int");
    reveal_strlit("Object");
    reveal_strlit("SecureObject");
    reveal_strlit("SecureString");
    reveal_strlit("String");
    assert("Array"@.len() == 5 && "Array"@[0] == 'A');
    assert("Bool"@.len() == 4 && "Bool"@[0] == 'B');
    assert("Float"@.len() == 5 && "Float"@[0] == 'F');
    assert("Int"@.len() == 3 && "Int"@[0] == 'I');
    assert("Object"@.len() == 6 && "Object"@[0] == 'O');
    assert("SecureObject"@.len() == 12 && "SecureObject"@[0] == 'S' && "SecureObject"@[6] == 'O');
    assert("SecureString"@.len() == 12 && "SecureString"@[0] == 'S' && "SecureString"@[6] == 'S');
    assert("String"@.len() == 6 && "String"@[0] == 'S');
}

/// A parameter without a default value is let pass exactly where nothing asks
/// for one.
pub proof fn law_defaults_are_asked_for(
    declaration: &Node,
    kind: Seq<char>,
    pointer: Seq<char>,
    required: bool,
    file: &Document,
    scope: &ArmScope,
)
    requires
        is_plain(file, scope),
        holds_only(declaration, seq!["type"@, "defaultValue"@]),
        text_field(declaration, "type"@) == Some(kind),
        field(declaration, "defaultValue"@) is None,
    ensures
        (parameter_findings(declaration, pointer, required, file).len() == 0) == (!required && (kind
            == "Array"@ || kind == "Bool"@ || kind == "Float"@ || kind == "Int"@ || kind
            == "Object"@ || kind == "SecureObject"@ || kind == "SecureString"@ || kind
            == "String"@)),
{
    lemma_plain(file, scope);
    lemma_parameter_alone(declaration);
    lemma_parameter_type_names(kind);
}

/// A definition is clean exactly where its kind, schema, version and description
/// are what a definition has, each section is within its limit, and each
/// parameter, output, action and trigger is clean.
#[verifier::rlimit(60)]
pub proof fn law_definitions_are_judged_by_their_parts(
    definition: &Node,
    pointer: Seq<char>,
    file: &Document,
    workflow: &Workflow,
    resolved_workflows: Seq<Workflow>,
    scope: &ArmScope,
    known_parameters: Seq<Seq<char>>,
    required: bool,
)
    requires
        is_plain(file, scope),
        definition.kind is Object,
        holds_only(
            definition,
            seq!["$schema"@, "contentVersion"@, "description"@, "triggers"@, "actions"@, "parameters"@, "outputs"@],
        ),
        may_be_text(definition, "$schema"@),
        may_be_text(definition, "contentVersion"@),
        may_be_text(definition, "description"@),
        may_hold_entries(definition, "triggers"@),
        may_hold_entries(definition, "actions"@),
        may_hold_entries(definition, "parameters"@),
        may_hold_entries(definition, "outputs"@),
    ensures
        (shape_findings(
            file,
            definition,
            pointer,
            workflow,
            resolved_workflows,
            scope,
            known_parameters,
            required,
        ).len() == 0) == {
            let root = pointer.len() == 0 || pointer == "/definition"@;
            let triggers = entries_of(definition, "triggers"@);
            let actions = entries_of(definition, "actions"@);
            &&& match workflow.kind {
                Some(WorkflowKind::Named(kind)) => same_ignoring_case(kind@, "Stateful"@)
                    || same_ignoring_case(kind@, "Stateless"@),
                _ => true,
            }
            &&& root ==> field(definition, "$schema"@) is Some && field(
                definition,
                "contentVersion"@,
            ) is Some
            &&& match text_field(definition, "$schema"@) {
                Some(text) => text
                    == "https://schema.management.azure.com/providers/Microsoft.Logic/schemas/2016-06-01/workflowdefinition.json#"@,
                None => true,
            }
            &&& match text_field(definition, "contentVersion"@) {
                Some(text) => is_version(text),
                None => true,
            }
            &&& match text_field(definition, "description"@) {
                Some(text) => text.len() <= 256,
                None => true,
            }
            &&& 1 <= triggers.len() <= 10
            &&& workflow.kind is Some ==> triggers.len() == 1
            &&& actions.len() <= 500
            &&& workflow.action_list@.len() <= 500
            &&& forall|i: int|
                0 <= i < workflow.action_list@.len() ==> (
                #[trigger] workflow.action_list@[i]).depth != 9
            &&& entries_of(definition, "parameters"@).len() <= 500
            &&& entries_of(definition, "outputs"@).len() <= 10
            &&& field(definition, "parameters"@) is Some ==> parameters_findings(
                &(field(definition, "parameters"@)->Some_0),
                joined(pointer, "parameters"@),
                file,
                known_parameters,
                required,
            ).len() == 0
            &&& field(definition, "outputs"@) is Some ==> outputs_findings(
                &(field(definition, "outputs"@)->Some_0),
                joined(pointer, "outputs"@),
                file,
            ).len() == 0
            &&& are_clean_actions(
                actions,
                actions.len() as int,
                joined(pointer, "actions"@),
                file,
                workflow,
                scope,
            )
            &&& are_clean_triggers(
                triggers,
                triggers.len() as int,
                joined(pointer, "triggers"@),
                file,
                workflow,
                scope,
            )
        },
{
    lemma_plain(file, scope);
    lemma_definition_alone(definition);
    if let Some(value) = field(definition, "triggers"@) {
        let members = value.kind->Object_0;
        lemma_all_count(members@, members@.len(), file, scope);
        lemma_triggers(
            members@,
            members@.len(),
            joined(pointer, "triggers"@),
            file,
            workflow,
            scope,
        );
    }
    if let Some(value) = field(definition, "actions"@) {
        let members = value.kind->Object_0;
        lemma_all_count(members@, members@.len(), file, scope);
        lemma_actions(
            members,
            members@.len(),
            joined(pointer, "actions"@),
            file,
            workflow,
            scope,
        );
    }
    if let Some(value) = field(definition, "parameters"@) {
        let members = value.kind->Object_0;
        lemma_all_count(members@, members@.len(), file, scope);
    }
    if let Some(value) = field(definition, "outputs"@) {
        let members = value.kind->Object_0;
        lemma_all_count(members@, members@.len(), file, scope);
    }
    reveal(is_clean_list);
    let list = workflow.action_list@;
    lemma_depth(list, list.len(), file, workflow);
    if let Some(text) = text_field(definition, "contentVersion"@) {
        law_versions_are_four_numbers(text);
    }
    reveal_strlit("$schema");
    reveal_strlit("contentVersion");
    assert("$schema"@.len() == 7 && "contentVersion"@.len() == 14);
    let kind_found = workflow_kind_findings(pointer, file, workflow);
    let presence = presence_findings(definition, pointer, file);
    let schema = authored_metadata_findings("$schema"@, definition, pointer, file);
    let version = authored_metadata_findings("contentVersion"@, definition, pointer, file);
    let description = description_findings(definition, pointer, file);
    let actions_found = actions_section_findings(definition, pointer, file, workflow);
    let total = total_limit_findings(pointer, file, workflow);
    let triggers_found = triggers_section_findings(definition, pointer, file, workflow);
    let parameters_found = parameters_section_findings(
        definition,
        pointer,
        file,
        known_parameters,
        required,
    );
    let outputs_found = outputs_section_findings(definition, pointer, file);
    let operations = operations_findings(definition, pointer, file, workflow, scope);
    let no_schema = missing_metadata_findings("$schema"@, definition, pointer, file);
    let no_version = missing_metadata_findings("contentVersion"@, definition, pointer, file);
    assert(static_results_findings(definition, pointer, file, workflow).len() == 0);
    assert((presence.len() == 0) == (field(definition, "triggers"@) is Some));
    assert((total.len() == 0) == (list.len() <= 500 && forall|i: int|
        0 <= i < list.len() ==> (#[trigger] list[i]).depth != 9));
    assert((actions_found.len() == 0) == (entries_of(definition, "actions"@).len() <= 500));
    let triggers = entries_of(definition, "triggers"@);
    assert((triggers_found.len() == 0 && presence.len() == 0) == (1 <= triggers.len() <= 10 && (
    workflow.kind is Some ==> triggers.len() == 1)));
    assert((operations.len() == 0) == (are_clean_actions(
        entries_of(definition, "actions"@),
        entries_of(definition, "actions"@).len() as int,
        joined(pointer, "actions"@),
        file,
        workflow,
        scope,
    ) && are_clean_triggers(
        triggers,
        triggers.len() as int,
        joined(pointer, "triggers"@),
        file,
        workflow,
        scope,
    )));
    let whole = shape_findings(
        file,
        definition,
        pointer,
        workflow,
        resolved_workflows,
        scope,
        known_parameters,
        required,
    );
    assert((whole.len() == 0) == (kind_found.len() == 0 && presence.len() == 0 && schema.len() == 0
        && version.len() == 0 && description.len() == 0 && actions_found.len() == 0 && total.len()
        == 0 && triggers_found.len() == 0 && parameters_found.len() == 0 && outputs_found.len() == 0
        && operations.len() == 0 && no_schema.len() == 0 && no_version.len() == 0));
}

/// A parameter of a workflow needs a default value exactly where values are asked
/// for, the runtime does not bring it, and nothing else declares it.
pub proof fn law_parameters_need_a_default_unless_supplied(
    parameters: &Node,
    members: Vec<Member>,
    pointer: Seq<char>,
    file: &Document,
    known_parameters: Seq<Seq<char>>,
    required: bool,
    scope: &ArmScope,
)
    requires
        is_plain(file, scope),
        !allows_expressions(file),
        parameters.kind == Json::Object(members),
        members@.len() == 1,
        members@[0].value.kind is Object,
        holds_only(&members@[0].value, seq!["type"@, "defaultValue"@]),
        text_field(&members@[0].value, "type"@) == Some("Bool"@),
        field(&members@[0].value, "defaultValue"@) is None,
    ensures
        (parameters_findings(parameters, pointer, file, known_parameters, required).len() == 0)
            == (!required || members@[0].name@ == "$connections"@ || known_parameters.contains(
            members@[0].name@,
        )),
{
    lemma_plain(file, scope);
    let item = members@[0].value;
    let name = members@[0].name@;
    let needed = required && name != "$connections"@ && !known_parameters.contains(name);
    law_defaults_are_asked_for(&item, "Bool"@, joined(pointer, name), needed, file, scope);
    let none = parameter_list_findings(members@, 0, pointer, file, known_parameters, required);
    assert(none.len() == 0);
    let one = parameter_list_findings(members@, 1, pointer, file, known_parameters, required);
    assert(one.len() == parameter_findings(&item, joined(pointer, name), needed, file).len());
}

} // verus!
