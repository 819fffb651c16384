//! What template expressions leave open in the summary of a workflow.
//!
//! A summary knows the actions, their order and the triggers as far as they
//! are written out. Rules that would report something missing ask here first
//! whether an expression may supply it.

use vstd::prelude::*;

use crate::json::{as_object, field, get, Document, Json, Member, Node};
use crate::shape::arm_boundary::{is_opaque, is_opaque_arm_expression};
use crate::text::text_eq;
use crate::workflow::{node_of, ActionInfo, Workflow};

verus! {

/// A template expression stands for the member named `key`.
pub open spec fn is_open_field(file: &Document, object: &Node, key: Seq<char>) -> bool {
    match field(object, key) {
        Some(value) => is_opaque(file, &value),
        None => false,
    }
}

/// A template expression stands for the member named `key` of a summarized action.
pub open spec fn is_open_in(
    workflow: &Workflow,
    file: &Document,
    action: &ActionInfo,
    key: Seq<char>,
) -> bool {
    match node_of(workflow, action.pointer@) {
        Some(node) => is_open_field(file, &node, key),
        None => false,
    }
}

/// What an action runs after cannot be known before deployment.
pub open spec fn has_open_order(workflow: &Workflow, file: &Document, action: &ActionInfo) -> bool {
    action.has_opaque_run_after || is_open_in(workflow, file, action, "runAfter"@)
}

/// The order of the actions in a container cannot be known before deployment.
pub open spec fn is_order_open_beside(
    workflow: &Workflow,
    file: &Document,
    pointer: Seq<char>,
) -> bool {
    exists|i: int, j: int|
        0 <= i < workflow.action_list@.len() && 0 <= j < workflow.action_list@.len()
            && (#[trigger] workflow.action_list@[i]).pointer@ == pointer
            && (#[trigger] workflow.action_list@[j]).container_pointer@
            == workflow.action_list@[i].container_pointer@ && has_open_order(
            workflow,
            file,
            &workflow.action_list@[j],
        )
}

/// The order of the actions cannot be known before deployment.
pub open spec fn is_order_open(workflow: &Workflow, file: &Document) -> bool {
    exists|i: int|
        0 <= i < workflow.action_list@.len() && has_open_order(
            workflow,
            file,
            #[trigger] &workflow.action_list@[i],
        )
}

/// Which actions there are cannot be known before deployment.
pub open spec fn are_actions_open(workflow: &Workflow, file: &Document) -> bool {
    ||| is_open_field(file, workflow.definition, "actions"@)
    ||| exists|i: int|
        0 <= i < workflow.action_list@.len() && is_open_in(
            workflow,
            file,
            #[trigger] &workflow.action_list@[i],
            "actions"@,
        )
}

/// Which triggers there are, or of what types, cannot be known before deployment.
pub open spec fn are_triggers_open(workflow: &Workflow, file: &Document) -> bool {
    ||| workflow.triggers_with_opaque_type@.len() > 0
    ||| match field(workflow.definition, "triggers"@) {
        Some(triggers) => is_opaque(file, &triggers) || match triggers.kind {
            Json::Object(members) => exists|i: int|
                0 <= i < members@.len() && is_open_trigger(
                    file,
                    &(#[trigger] members@[i]).value,
                ),
            _ => false,
        },
        None => false,
    }
}

/// A template expression stands for a trigger or for its type.
pub open spec fn is_open_trigger(file: &Document, trigger: &Node) -> bool {
    is_opaque(file, trigger) || is_open_field(file, trigger, "type"@)
}

/// A template expression stands for the member named `key`.
pub fn field_is_open(file: &Document, object: &Node, key: &str) -> (holds: bool)
    ensures
        holds == is_open_field(file, object, key@),
{
    match get(object, key) {
        Some(value) => is_opaque_arm_expression(file, value),
        None => false,
    }
}

fn open_in(workflow: &Workflow, file: &Document, action: &ActionInfo, key: &str) -> (holds: bool)
    ensures
        holds == is_open_in(workflow, file, action, key@),
{
    match workflow.node_at(action.pointer.as_str()) {
        Some(node) => field_is_open(file, node, key),
        None => false,
    }
}

fn order_is_open_of(workflow: &Workflow, file: &Document, action: &ActionInfo) -> (holds: bool)
    ensures
        holds == has_open_order(workflow, file, action),
{
    action.has_opaque_run_after || open_in(workflow, file, action, "runAfter")
}

fn order_is_open_in(workflow: &Workflow, file: &Document, container: &str) -> (holds: bool)
    ensures
        holds == exists|j: int|
            0 <= j < workflow.action_list@.len()
                && (#[trigger] workflow.action_list@[j]).container_pointer@ == container@
                && has_open_order(workflow, file, &workflow.action_list@[j]),
{
    let list = &workflow.action_list;
    let mut i: usize = 0;
    while i < list.len()
        invariant
            i <= list@.len(),
            list == &workflow.action_list,
            forall|j: int|
                0 <= j < i ==> !((#[trigger] list@[j]).container_pointer@ == container@
                    && has_open_order(workflow, file, &list@[j])),
        decreases list@.len() - i,
    {
        if text_eq(list[i].container_pointer.as_str(), container)
            && order_is_open_of(workflow, file, &list[i]) {
            assert(workflow.action_list@[i as int].container_pointer@ == container@);
            return true;
        }
        i += 1;
    }
    false
}

/// The order of the actions beside the one at `pointer` is open.
pub fn order_is_open_beside(workflow: &Workflow, file: &Document, pointer: &str) -> (holds: bool)
    ensures
        holds == is_order_open_beside(workflow, file, pointer@),
{
    let list = &workflow.action_list;
    let mut i: usize = 0;
    while i < list.len()
        invariant
            i <= list@.len(),
            list == &workflow.action_list,
            forall|k: int, j: int|
                0 <= k < i && 0 <= j < list@.len() ==> !((#[trigger] list@[k]).pointer@ == pointer@
                    && (#[trigger] list@[j]).container_pointer@ == list@[k].container_pointer@
                    && has_open_order(workflow, file, &list@[j])),
        decreases list@.len() - i,
    {
        if text_eq(list[i].pointer.as_str(), pointer) && order_is_open_in(
            workflow,
            file,
            list[i].container_pointer.as_str(),
        ) {
            proof {
                let j = choose|j: int|
                    0 <= j < workflow.action_list@.len()
                        && (#[trigger] workflow.action_list@[j]).container_pointer@
                        == list@[i as int].container_pointer@ && has_open_order(
                        workflow,
                        file,
                        &workflow.action_list@[j],
                    );
                assert(workflow.action_list@[i as int].pointer@ == pointer@);
                assert(workflow.action_list@[j].container_pointer@
                    == workflow.action_list@[i as int].container_pointer@);
            }
            return true;
        }
        i += 1;
    }
    false
}

/// The order of the actions is open.
pub fn order_is_open(workflow: &Workflow, file: &Document) -> (holds: bool)
    ensures
        holds == is_order_open(workflow, file),
{
    let list = &workflow.action_list;
    let mut i: usize = 0;
    while i < list.len()
        invariant
            i <= list@.len(),
            list == &workflow.action_list,
            forall|j: int| 0 <= j < i ==> !has_open_order(workflow, file, #[trigger] &list@[j]),
        decreases list@.len() - i,
    {
        if order_is_open_of(workflow, file, &list[i]) {
            assert(has_open_order(workflow, file, &workflow.action_list@[i as int]));
            return true;
        }
        i += 1;
    }
    false
}

/// Which actions there are is open.
pub fn actions_are_open(workflow: &Workflow, file: &Document) -> (holds: bool)
    ensures
        holds == are_actions_open(workflow, file),
{
    if field_is_open(file, workflow.definition, "actions") {
        return true;
    }
    let list = &workflow.action_list;
    let mut i: usize = 0;
    while i < list.len()
        invariant
            i <= list@.len(),
            list == &workflow.action_list,
            !is_open_field(file, workflow.definition, "actions"@),
            forall|j: int|
                0 <= j < i ==> !is_open_in(workflow, file, #[trigger] &list@[j], "actions"@),
        decreases list@.len() - i,
    {
        if open_in(workflow, file, &list[i], "actions") {
            assert(is_open_in(workflow, file, &workflow.action_list@[i as int], "actions"@));
            return true;
        }
        i += 1;
    }
    false
}

fn some_trigger_is_open(members: &Vec<Member>, file: &Document) -> (holds: bool)
    ensures
        holds == exists|i: int|
            0 <= i < members@.len() && is_open_trigger(file, &(#[trigger] members@[i]).value),
{
    let mut i: usize = 0;
    while i < members.len()
        invariant
            i <= members@.len(),
            forall|j: int|
                0 <= j < i ==> !is_open_trigger(file, &(#[trigger] members@[j]).value),
        decreases members@.len() - i,
    {
        let trigger = &members[i].value;
        if is_opaque_arm_expression(file, trigger) || field_is_open(file, trigger, "type") {
            assert(is_open_trigger(file, &members@[i as int].value));
            return true;
        }
        i += 1;
    }
    false
}

/// Which triggers there are is open, or of what types.
pub fn triggers_are_open(workflow: &Workflow, file: &Document) -> (holds: bool)
    ensures
        holds == are_triggers_open(workflow, file),
{
    workflow.triggers_with_opaque_type.len() > 0 || match get(workflow.definition, "triggers") {
        Some(triggers) => is_opaque_arm_expression(file, triggers) || match as_object(triggers) {
            Some(members) => some_trigger_is_open(members, file),
            None => false,
        },
        None => false,
    }
}

} // verus!
