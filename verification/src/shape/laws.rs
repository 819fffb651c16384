//! What holds of the shape rules as a whole.
//!
//! What a template expression decides at deployment is passed over, what it
//! supplies beforehand is reported where it was written, and credentials are
//! never pointed at.

use vstd::prelude::*;

use crate::arm::ArmScope;
use crate::cli::has_error;
use crate::diagnostic::{ByteSpan, Finding};
use crate::json::{field, joined, text_of, Document, Member, Node};
use crate::shape::actions::control::case_findings;
use crate::shape::actions::variables::initializer_list_findings;
use crate::shape::arm_boundary::{is_absent, is_opaque, is_skipped, is_unresolved};
use crate::shape::field_validators::{
    bool_findings, caseless_enum_findings, enum_findings, integer_findings, object_findings,
    object_or_string_findings, positive_integer_findings, range_findings, required_enum_findings,
    resource_findings, string_findings,
};
use crate::shape::http::authentication_findings;
use crate::shape::limits::name_length_findings;
use crate::shape::operations::{
    container_findings, entry_findings, supplied_trigger_findings, triggers_findings,
};
use crate::shape::report::respanned;
use crate::shape::required_fields::{
    field_findings, object_field_findings, typed_field_findings, Shape,
};
use crate::shape::root::shape_findings;
use crate::shape::run_after::status_findings;
use crate::shape::static_results::error_entry_findings;
use crate::strictness::{
    is_registry_gap, law_relaxing_goes_one_by_one, law_status_variants_are_tolerated, relaxed_list,
    status_literals,
};
use crate::shape::supplied::supplied_action_findings;
use crate::text::one_of_ignoring_case;
use crate::workflow::Workflow;

verus! {

/// Every finding has the given place.
pub open spec fn all_at(list: Seq<Finding>, span: Option<ByteSpan>) -> bool {
    forall|i: int| 0 <= i < list.len() ==> (#[trigger] list[i]).span == span
}

/// Findings whose place is replaced all have the new place, and say the same
/// otherwise.
pub proof fn law_respanned_findings_differ_in_place_only(
    list: Seq<Finding>,
    span: Option<ByteSpan>,
)
    ensures
        all_at(respanned(list, span), span),
        respanned(list, span).len() == list.len(),
        forall|i: int|
            0 <= i < list.len() ==> {
                let moved = #[trigger] respanned(list, span)[i];
                &&& moved.code == list[i].code
                &&& moved.severity == list[i].severity
                &&& moved.path == list[i].path
                &&& moved.pointer == list[i].pointer
                &&& moved.message == list[i].message
            },
{
}

/// A definition that a template expression supplies, and that cannot be known
/// before deployment, is not reported on.
pub proof fn law_unresolved_definition_is_passed_over(
    file: &Document,
    definition: &Node,
    definition_pointer: Seq<char>,
    workflow: &Workflow,
    resolved_workflows: Seq<Workflow>,
    scope: &ArmScope,
    known_parameters: Seq<Seq<char>>,
    required: bool,
)
    requires
        is_unresolved(file, definition),
    ensures
        shape_findings(
            file,
            definition,
            definition_pointer,
            workflow,
            resolved_workflows,
            scope,
            known_parameters,
            required,
        ).len() == 0,
{
}

/// Whatever is wrong with a definition that a template expression supplies is
/// reported where the expression was written.
pub proof fn law_supplied_definition_is_reported_at_its_expression(
    file: &Document,
    definition: &Node,
    definition_pointer: Seq<char>,
    workflow: &Workflow,
    resolved_workflows: Seq<Workflow>,
    scope: &ArmScope,
    known_parameters: Seq<Seq<char>>,
    required: bool,
)
    requires
        is_opaque(file, definition),
    ensures
        all_at(
            shape_findings(
                file,
                definition,
                definition_pointer,
                workflow,
                resolved_workflows,
                scope,
                known_parameters,
                required,
            ),
            Some(definition.span),
        ),
{
}

/// A container of actions or triggers that cannot be known before deployment
/// is not reported on, and neither is one that is absent.
pub proof fn law_unknown_containers_are_passed_over(
    value: &Node,
    pointer: Seq<char>,
    file: &Document,
    workflow: &Workflow,
    scope: &ArmScope,
)
    requires
        is_unresolved(file, value) || is_absent(file, value),
    ensures
        container_findings(value, pointer, file, workflow, scope).len() == 0,
        triggers_findings(value, pointer, file, workflow, scope).len() == 0,
{
}

/// An action that is absent is not reported on, not even for its name.
pub proof fn law_absent_actions_are_passed_over(
    action: &Node,
    name: Seq<char>,
    container: Seq<char>,
    file: &Document,
    workflow: &Workflow,
    scope: &ArmScope,
)
    requires
        is_absent(file, action),
    ensures
        entry_findings(action, name, container, file, workflow, scope).len() == 0,
{
}

/// An optional field that a template leaves out, or that an expression stands
/// for, passes every check of its type and its value.
pub proof fn law_skipped_fields_are_passed_over(
    object: &Node,
    base: Seq<char>,
    key: Seq<char>,
    label: Seq<char>,
    allowed: Seq<Seq<char>>,
    low: int,
    high: int,
    file: &Document,
)
    requires
        field(object, key) is Some,
        is_skipped(file, &field(object, key)->Some_0),
    ensures
        enum_findings(object, base, key, label, allowed, file).len() == 0,
        caseless_enum_findings(object, base, key, label, allowed, file).len() == 0,
        string_findings(object, base, key, label, file).len() == 0,
        integer_findings(object, base, key, label, file).len() == 0,
        positive_integer_findings(object, base, key, label, file).len() == 0,
        range_findings(object, base, key, label, low, high, file).len() == 0,
        bool_findings(object, base, key, label, file).len() == 0,
        object_findings(object, base, key, label, file).len() == 0,
        object_or_string_findings(object, base, key, label, file).len() == 0,
        resource_findings(object, base, key, label, file).len() == 0,
{
}

/// A required field that cannot be known before deployment is there, and
/// passes every check of its type and its value.
pub proof fn law_unresolved_required_fields_are_passed_over(
    object: &Node,
    base: Seq<char>,
    key: Seq<char>,
    label: Seq<char>,
    allowed: Seq<Seq<char>>,
    shape: Shape,
    file: &Document,
)
    requires
        field(object, key) is Some,
        is_unresolved(file, &field(object, key)->Some_0),
    ensures
        required_enum_findings(object, base, key, label, allowed, file).len() == 0,
        field_findings(object, base, key, file).len() == 0,
        object_field_findings(object, base, key, file).len() == 0,
        typed_field_findings(object, base, key, label, shape, file).len() == 0,
{
}

/// An entry that cannot be known before deployment is not reported on: an
/// action or a trigger but for its name, a case of a `Switch`, a variable to
/// initialize, a status to wait for, an error of a static result.
pub proof fn law_unresolved_entries_are_passed_over(
    value: &Node,
    members: Seq<Member>,
    seen: Seq<int>,
    base: Seq<char>,
    name: Seq<char>,
    file: &Document,
    workflow: &Workflow,
    source: ByteSpan,
    scope: &ArmScope,
)
    requires
        is_unresolved(file, value),
    ensures
        entry_findings(value, name, base, file, workflow, scope) == name_length_findings(
            name,
            joined(base, name),
            "action"@,
            file,
            Some(value.span),
        ),
        supplied_action_findings(value, name, base, file, workflow, source, scope).len() == 0,
        supplied_trigger_findings(value, base, file, workflow, source).len() == 0,
        case_findings(members, seen, value, base, name, file).len() == 0,
        initializer_list_findings(seq![*value], 1, base, file).len() == 0,
        status_findings(seq![*value], 1, base, None, file).len() == 0,
        status_findings(seq![*value], 1, base, Some(source), file).len() == 0,
        error_entry_findings(seq![*value], 1, base, file).len() == 0,
{
    assert(status_findings(seq![*value], 0, base, None, file).len() == 0);
    assert(status_findings(seq![*value], 0, base, Some(source), file).len() == 0);
    assert(initializer_list_findings(seq![*value], 0, base, file).len() == 0);
    assert(error_entry_findings(seq![*value], 0, base, file).len() == 0);
}

/// No finding about authentication points at the source, so that no credential
/// is ever shown.
pub proof fn law_credentials_are_never_pointed_at(
    inputs: &Node,
    base: Seq<char>,
    label: Seq<char>,
    file: &Document,
)
    ensures
        all_at(authentication_findings(inputs, base, label, file), None),
{
}

/// Registry gaps alone never fail a lenient run.
pub proof fn law_registry_gaps_do_not_fail_a_lenient_run(list: Seq<Finding>)
    requires
        forall|i: int| 0 <= i < list.len() ==> is_registry_gap(#[trigger] list[i]),
    ensures
        !has_error(relaxed_list(list)),
    decreases list.len(),
{
    if list.len() > 0 {
        let front = list.drop_last();
        assert forall|i: int| 0 <= i < front.len() implies is_registry_gap(#[trigger] front[i]) by {
            assert(front[i] == list[i]);
        }
        law_registry_gaps_do_not_fail_a_lenient_run(front);
        assert(is_registry_gap(list[list.len() - 1]));
    }
}

/// Statuses of `runAfter` that differ from the schema's in case only leave
/// nothing to see for a lenient caller.
pub proof fn law_lenient_run_accepts_status_variants(
    items: Seq<Node>,
    n: nat,
    base: Seq<char>,
    source: Option<ByteSpan>,
    file: &Document,
)
    requires
        n <= items.len(),
        forall|i: int|
            0 <= i < n ==> text_of(&#[trigger] items[i]) is Some && one_of_ignoring_case(
                text_of(&items[i])->Some_0,
                status_literals(),
            ),
    ensures
        relaxed_list(status_findings(items, n, base, source, file)).len() == 0,
    decreases n,
{
    if n > 0 {
        let before = status_findings(items, (n - 1) as nat, base, source, file);
        law_lenient_run_accepts_status_variants(items, (n - 1) as nat, base, source, file);
        let item = items[n - 1];
        let text = text_of(&item)->Some_0;
        let whole = status_findings(items, n, base, source, file);
        let own = whole.skip(before.len() as int);
        assert(whole =~= before + own);
        law_relaxing_goes_one_by_one(before, own);
        if own.len() > 0 {
            assert(own.len() == 1);
            assert(own.drop_last() =~= Seq::empty());
            law_status_variants_are_tolerated(own[0], text);
            assert(relaxed_list(own.drop_last()) =~= Seq::empty());
            assert(relaxed_list(own) =~= Seq::empty());
        } else {
            assert(relaxed_list(own) =~= Seq::empty());
        }
    }
}

} // verus!
