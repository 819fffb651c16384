//! What the actions that steer a run are judged by.

use vstd::prelude::*;

use crate::arm::ArmScope;
use crate::json::{field, joined, text_field, Document, Json, Member, Node, Number};

use crate::shape::actions::control::{
    case_findings, case_list_findings, distinct_cases, first_same, is_request, run_error_findings,
    run_status_names, same_case, static_case, terminate_action_findings,
};
use crate::shape::common::common_findings;
use crate::shape::field_validators::enum_findings;
use crate::shape::limits::present_count;
use crate::shape::graph::{encloses, in_loop, parallel_dependency, successor_of};
use crate::shape::operations::{authored_action_findings, group_findings, nested_findings};
use crate::shape::plain_laws::{
    holds_only, is_plain, keeps_state, lemma_action_alone, lemma_action_by_type,
    lemma_action_parts, lemma_plain,
};
use crate::shape::recurrence_laws::{is_unmarked, lemma_unmarked_is_literal};
use crate::shape::registry::{typed_action_findings, ActionSpec};
use crate::shape::time::time_unit_names;
use crate::shape::type_laws::lemma_action_types;
use crate::text::{folded, one_of, same_ignoring_case};
use crate::workflow::{action_kind, Workflow};

verus! {

/// An object without members.
pub open spec fn is_empty_object(node: &Node) -> bool {
    match node.kind {
        Json::Object(members) => members@.len() == 0,
        _ => false,
    }
}

/// No two cases compare with the same text.
pub open spec fn cases_differ(members: Seq<Member>) -> bool {
    forall|i: int, j: int|
        0 <= i < j < members.len() ==> text_field(&(#[trigger] members[i]).value, "case"@)
            != text_field(&(#[trigger] members[j]).value, "case"@)
}

/// Each case is an object with a plain text to compare with, and nothing else.
pub open spec fn are_text_cases(members: Seq<Member>) -> bool {
    forall|i: int|
        0 <= i < members.len() ==> {
            let case = (#[trigger] members[i]).value;
            &&& case.kind is Object
            &&& text_field(&case, "case"@) is Some
            &&& is_unmarked(text_field(&case, "case"@)->Some_0)
            &&& field(&case, "actions"@) is None
        }
}

proof fn lemma_class_foreach(kind: Seq<char>)
    requires
        same_ignoring_case(kind, "Foreach"@),
    ensures
        action_kind(Some(kind)) is Foreach,
        same_ignoring_case(kind, "foreach"@),
{
    reveal_strlit("Foreach");
    reveal_strlit("foreach");
    reveal_strlit("if");
    reveal_strlit("scope");
    reveal_strlit("switch");
    reveal_strlit("until");
    reveal_strlit("agent");
    reveal_strlit("query");
    reveal_strlit("select");
    reveal_strlit("table");
    assert(folded("Foreach"@[0]) == 'f' && folded("foreach"@[0]) == 'f');
    assert(folded("Foreach"@[1]) == 'o' && folded("foreach"@[1]) == 'o');
    assert(folded("Foreach"@[2]) == 'r' && folded("foreach"@[2]) == 'r');
    assert(folded("Foreach"@[3]) == 'e' && folded("foreach"@[3]) == 'e');
    assert(folded("Foreach"@[4]) == 'a' && folded("foreach"@[4]) == 'a');
    assert(folded("Foreach"@[5]) == 'c' && folded("foreach"@[5]) == 'c');
    assert(folded("Foreach"@[6]) == 'h' && folded("foreach"@[6]) == 'h');
    assert("Foreach"@.len() == 7 && "foreach"@.len() == 7);
    assert forall|i: int| 0 <= i < kind.len() implies #[trigger] folded(kind[i]) == folded("foreach"@[i]) by {
        assert(folded(kind[i]) == folded("Foreach"@[i]));
    }
    assert("if"@.len() == 2);
    assert("scope"@.len() == 5);
    assert("switch"@.len() == 6);
    assert("until"@.len() == 5);
    assert("agent"@.len() == 5);
    assert("query"@.len() == 5);
    assert("select"@.len() == 6);
    assert("table"@.len() == 5);
}

proof fn lemma_class_if(kind: Seq<char>)
    requires
        same_ignoring_case(kind, "If"@),
    ensures
        action_kind(Some(kind)) is If,
        same_ignoring_case(kind, "if"@),
{
    reveal_strlit("If");
    reveal_strlit("foreach");
    reveal_strlit("if");
    reveal_strlit("scope");
    reveal_strlit("switch");
    reveal_strlit("until");
    reveal_strlit("agent");
    reveal_strlit("query");
    reveal_strlit("select");
    reveal_strlit("table");
    assert(folded("If"@[0]) == 'i' && folded("if"@[0]) == 'i');
    assert(folded("If"@[1]) == 'f' && folded("if"@[1]) == 'f');
    assert("If"@.len() == 2 && "if"@.len() == 2);
    assert forall|i: int| 0 <= i < kind.len() implies #[trigger] folded(kind[i]) == folded("if"@[i]) by {
        assert(folded(kind[i]) == folded("If"@[i]));
    }
    assert("foreach"@.len() == 7);
    assert("scope"@.len() == 5);
    assert("switch"@.len() == 6);
    assert("until"@.len() == 5);
    assert("agent"@.len() == 5);
    assert("query"@.len() == 5);
    assert("select"@.len() == 6);
    assert("table"@.len() == 5);
}

proof fn lemma_class_scope(kind: Seq<char>)
    requires
        same_ignoring_case(kind, "Scope"@),
    ensures
        action_kind(Some(kind)) is Scope,
        same_ignoring_case(kind, "scope"@),
{
    reveal_strlit("Scope");
    reveal_strlit("foreach");
    reveal_strlit("if");
    reveal_strlit("scope");
    reveal_strlit("switch");
    reveal_strlit("until");
    reveal_strlit("agent");
    reveal_strlit("query");
    reveal_strlit("select");
    reveal_strlit("table");
    assert(folded("Scope"@[0]) == 's' && folded("scope"@[0]) == 's');
    assert(folded("Scope"@[1]) == 'c' && folded("scope"@[1]) == 'c');
    assert(folded("Scope"@[2]) == 'o' && folded("scope"@[2]) == 'o');
    assert(folded("Scope"@[3]) == 'p' && folded("scope"@[3]) == 'p');
    assert(folded("Scope"@[4]) == 'e' && folded("scope"@[4]) == 'e');
    assert("Scope"@.len() == 5 && "scope"@.len() == 5);
    assert forall|i: int| 0 <= i < kind.len() implies #[trigger] folded(kind[i]) == folded("scope"@[i]) by {
        assert(folded(kind[i]) == folded("Scope"@[i]));
    }
    assert("foreach"@.len() == 7);
    assert("if"@.len() == 2);
    assert("switch"@.len() == 6);
    assert(folded(kind[0]) == 's' && folded("until"@[0]) == 'u');
    assert(!same_ignoring_case(kind, "until"@));
    assert(folded(kind[0]) == 's' && folded("agent"@[0]) == 'a');
    assert(!same_ignoring_case(kind, "agent"@));
    assert(folded(kind[0]) == 's' && folded("query"@[0]) == 'q');
    assert(!same_ignoring_case(kind, "query"@));
    assert("select"@.len() == 6);
    assert(folded(kind[0]) == 's' && folded("table"@[0]) == 't');
    assert(!same_ignoring_case(kind, "table"@));
}

proof fn lemma_class_switch(kind: Seq<char>)
    requires
        same_ignoring_case(kind, "Switch"@),
    ensures
        action_kind(Some(kind)) is Switch,
        same_ignoring_case(kind, "switch"@),
{
    reveal_strlit("Switch");
    reveal_strlit("foreach");
    reveal_strlit("if");
    reveal_strlit("scope");
    reveal_strlit("switch");
    reveal_strlit("until");
    reveal_strlit("agent");
    reveal_strlit("query");
    reveal_strlit("select");
    reveal_strlit("table");
    assert(folded("Switch"@[0]) == 's' && folded("switch"@[0]) == 's');
    assert(folded("Switch"@[1]) == 'w' && folded("switch"@[1]) == 'w');
    assert(folded("Switch"@[2]) == 'i' && folded("switch"@[2]) == 'i');
    assert(folded("Switch"@[3]) == 't' && folded("switch"@[3]) == 't');
    assert(folded("Switch"@[4]) == 'c' && folded("switch"@[4]) == 'c');
    assert(folded("Switch"@[5]) == 'h' && folded("switch"@[5]) == 'h');
    assert("Switch"@.len() == 6 && "switch"@.len() == 6);
    assert forall|i: int| 0 <= i < kind.len() implies #[trigger] folded(kind[i]) == folded("switch"@[i]) by {
        assert(folded(kind[i]) == folded("Switch"@[i]));
    }
    assert("foreach"@.len() == 7);
    assert("if"@.len() == 2);
    assert("scope"@.len() == 5);
    assert("until"@.len() == 5);
    assert("agent"@.len() == 5);
    assert("query"@.len() == 5);
    assert(folded(kind[1]) == 'w' && folded("select"@[1]) == 'e');
    assert(!same_ignoring_case(kind, "select"@));
    assert("table"@.len() == 5);
}

proof fn lemma_class_until(kind: Seq<char>)
    requires
        same_ignoring_case(kind, "Until"@),
    ensures
        action_kind(Some(kind)) is Until,
        same_ignoring_case(kind, "until"@),
{
    reveal_strlit("Until");
    reveal_strlit("foreach");
    reveal_strlit("if");
    reveal_strlit("scope");
    reveal_strlit("switch");
    reveal_strlit("until");
    reveal_strlit("agent");
    reveal_strlit("query");
    reveal_strlit("select");
    reveal_strlit("table");
    assert(folded("Until"@[0]) == 'u' && folded("until"@[0]) == 'u');
    assert(folded("Until"@[1]) == 'n' && folded("until"@[1]) == 'n');
    assert(folded("Until"@[2]) == 't' && folded("until"@[2]) == 't');
    assert(folded("Until"@[3]) == 'i' && folded("until"@[3]) == 'i');
    assert(folded("Until"@[4]) == 'l' && folded("until"@[4]) == 'l');
    assert("Until"@.len() == 5 && "until"@.len() == 5);
    assert forall|i: int| 0 <= i < kind.len() implies #[trigger] folded(kind[i]) == folded("until"@[i]) by {
        assert(folded(kind[i]) == folded("Until"@[i]));
    }
    assert("foreach"@.len() == 7);
    assert("if"@.len() == 2);
    assert(folded(kind[0]) == 'u' && folded("scope"@[0]) == 's');
    assert(!same_ignoring_case(kind, "scope"@));
    assert("switch"@.len() == 6);
    assert(folded(kind[0]) == 'u' && folded("agent"@[0]) == 'a');
    assert(!same_ignoring_case(kind, "agent"@));
    assert(folded(kind[0]) == 'u' && folded("query"@[0]) == 'q');
    assert(!same_ignoring_case(kind, "query"@));
    assert("select"@.len() == 6);
    assert(folded(kind[0]) == 'u' && folded("table"@[0]) == 't');
    assert(!same_ignoring_case(kind, "table"@));
}

proof fn lemma_class_agent(kind: Seq<char>)
    requires
        same_ignoring_case(kind, "Agent"@),
    ensures
        action_kind(Some(kind)) is Agent,
        same_ignoring_case(kind, "agent"@),
{
    reveal_strlit("Agent");
    reveal_strlit("foreach");
    reveal_strlit("if");
    reveal_strlit("scope");
    reveal_strlit("switch");
    reveal_strlit("until");
    reveal_strlit("agent");
    reveal_strlit("query");
    reveal_strlit("select");
    reveal_strlit("table");
    assert(folded("Agent"@[0]) == 'a' && folded("agent"@[0]) == 'a');
    assert(folded("Agent"@[1]) == 'g' && folded("agent"@[1]) == 'g');
    assert(folded("Agent"@[2]) == 'e' && folded("agent"@[2]) == 'e');
    assert(folded("Agent"@[3]) == 'n' && folded("agent"@[3]) == 'n');
    assert(folded("Agent"@[4]) == 't' && folded("agent"@[4]) == 't');
    assert("Agent"@.len() == 5 && "agent"@.len() == 5);
    assert forall|i: int| 0 <= i < kind.len() implies #[trigger] folded(kind[i]) == folded("agent"@[i]) by {
        assert(folded(kind[i]) == folded("Agent"@[i]));
    }
    assert("foreach"@.len() == 7);
    assert("if"@.len() == 2);
    assert(folded(kind[0]) == 'a' && folded("scope"@[0]) == 's');
    assert(!same_ignoring_case(kind, "scope"@));
    assert("switch"@.len() == 6);
    assert(folded(kind[0]) == 'a' && folded("until"@[0]) == 'u');
    assert(!same_ignoring_case(kind, "until"@));
    assert(folded(kind[0]) == 'a' && folded("query"@[0]) == 'q');
    assert(!same_ignoring_case(kind, "query"@));
    assert("select"@.len() == 6);
    assert(folded(kind[0]) == 'a' && folded("table"@[0]) == 't');
    assert(!same_ignoring_case(kind, "table"@));
}

proof fn lemma_class_query(kind: Seq<char>)
    requires
        same_ignoring_case(kind, "Query"@),
    ensures
        action_kind(Some(kind)) is DataOperation,
        same_ignoring_case(kind, "query"@),
{
    reveal_strlit("Query");
    reveal_strlit("foreach");
    reveal_strlit("if");
    reveal_strlit("scope");
    reveal_strlit("switch");
    reveal_strlit("until");
    reveal_strlit("agent");
    reveal_strlit("query");
    reveal_strlit("select");
    reveal_strlit("table");
    assert(folded("Query"@[0]) == 'q' && folded("query"@[0]) == 'q');
    assert(folded("Query"@[1]) == 'u' && folded("query"@[1]) == 'u');
    assert(folded("Query"@[2]) == 'e' && folded("query"@[2]) == 'e');
    assert(folded("Query"@[3]) == 'r' && folded("query"@[3]) == 'r');
    assert(folded("Query"@[4]) == 'y' && folded("query"@[4]) == 'y');
    assert("Query"@.len() == 5 && "query"@.len() == 5);
    assert forall|i: int| 0 <= i < kind.len() implies #[trigger] folded(kind[i]) == folded("query"@[i]) by {
        assert(folded(kind[i]) == folded("Query"@[i]));
    }
    assert("foreach"@.len() == 7);
    assert("if"@.len() == 2);
    assert(folded(kind[0]) == 'q' && folded("scope"@[0]) == 's');
    assert(!same_ignoring_case(kind, "scope"@));
    assert("switch"@.len() == 6);
    assert(folded(kind[0]) == 'q' && folded("until"@[0]) == 'u');
    assert(!same_ignoring_case(kind, "until"@));
    assert(folded(kind[0]) == 'q' && folded("agent"@[0]) == 'a');
    assert(!same_ignoring_case(kind, "agent"@));
    assert("select"@.len() == 6);
    assert(folded(kind[0]) == 'q' && folded("table"@[0]) == 't');
    assert(!same_ignoring_case(kind, "table"@));
}

proof fn lemma_class_select(kind: Seq<char>)
    requires
        same_ignoring_case(kind, "Select"@),
    ensures
        action_kind(Some(kind)) is DataOperation,
        same_ignoring_case(kind, "select"@),
{
    reveal_strlit("Select");
    reveal_strlit("foreach");
    reveal_strlit("if");
    reveal_strlit("scope");
    reveal_strlit("switch");
    reveal_strlit("until");
    reveal_strlit("agent");
    reveal_strlit("query");
    reveal_strlit("select");
    reveal_strlit("table");
    assert(folded("Select"@[0]) == 's' && folded("select"@[0]) == 's');
    assert(folded("Select"@[1]) == 'e' && folded("select"@[1]) == 'e');
    assert(folded("Select"@[2]) == 'l' && folded("select"@[2]) == 'l');
    assert(folded("Select"@[3]) == 'e' && folded("select"@[3]) == 'e');
    assert(folded("Select"@[4]) == 'c' && folded("select"@[4]) == 'c');
    assert(folded("Select"@[5]) == 't' && folded("select"@[5]) == 't');
    assert("Select"@.len() == 6 && "select"@.len() == 6);
    assert forall|i: int| 0 <= i < kind.len() implies #[trigger] folded(kind[i]) == folded("select"@[i]) by {
        assert(folded(kind[i]) == folded("Select"@[i]));
    }
    assert("foreach"@.len() == 7);
    assert("if"@.len() == 2);
    assert("scope"@.len() == 5);
    assert(folded(kind[1]) == 'e' && folded("switch"@[1]) == 'w');
    assert(!same_ignoring_case(kind, "switch"@));
    assert("until"@.len() == 5);
    assert("agent"@.len() == 5);
    assert("query"@.len() == 5);
    assert("table"@.len() == 5);
}

proof fn lemma_class_table(kind: Seq<char>)
    requires
        same_ignoring_case(kind, "Table"@),
    ensures
        action_kind(Some(kind)) is DataOperation,
        same_ignoring_case(kind, "table"@),
{
    reveal_strlit("Table");
    reveal_strlit("foreach");
    reveal_strlit("if");
    reveal_strlit("scope");
    reveal_strlit("switch");
    reveal_strlit("until");
    reveal_strlit("agent");
    reveal_strlit("query");
    reveal_strlit("select");
    reveal_strlit("table");
    assert(folded("Table"@[0]) == 't' && folded("table"@[0]) == 't');
    assert(folded("Table"@[1]) == 'a' && folded("table"@[1]) == 'a');
    assert(folded("Table"@[2]) == 'b' && folded("table"@[2]) == 'b');
    assert(folded("Table"@[3]) == 'l' && folded("table"@[3]) == 'l');
    assert(folded("Table"@[4]) == 'e' && folded("table"@[4]) == 'e');
    assert("Table"@.len() == 5 && "table"@.len() == 5);
    assert forall|i: int| 0 <= i < kind.len() implies #[trigger] folded(kind[i]) == folded("table"@[i]) by {
        assert(folded(kind[i]) == folded("Table"@[i]));
    }
    assert("foreach"@.len() == 7);
    assert("if"@.len() == 2);
    assert(folded(kind[0]) == 't' && folded("scope"@[0]) == 's');
    assert(!same_ignoring_case(kind, "scope"@));
    assert("switch"@.len() == 6);
    assert(folded(kind[0]) == 't' && folded("until"@[0]) == 'u');
    assert(!same_ignoring_case(kind, "until"@));
    assert(folded(kind[0]) == 't' && folded("agent"@[0]) == 'a');
    assert(!same_ignoring_case(kind, "agent"@));
    assert(folded(kind[0]) == 't' && folded("query"@[0]) == 'q');
    assert(!same_ignoring_case(kind, "query"@));
    assert("select"@.len() == 6);
}

/// What an action contains goes by its type, whatever the case of its letters.
pub proof fn law_classes_go_by_type(kind: Seq<char>)
    ensures
        same_ignoring_case(kind, "Foreach"@) ==> action_kind(Some(kind)) is Foreach,
        same_ignoring_case(kind, "If"@) ==> action_kind(Some(kind)) is If,
        same_ignoring_case(kind, "Scope"@) ==> action_kind(Some(kind)) is Scope,
        same_ignoring_case(kind, "Switch"@) ==> action_kind(Some(kind)) is Switch,
        same_ignoring_case(kind, "Until"@) ==> action_kind(Some(kind)) is Until,
        same_ignoring_case(kind, "Agent"@) ==> action_kind(Some(kind)) is Agent,
        same_ignoring_case(kind, "Query"@) ==> action_kind(Some(kind)) is DataOperation,
        same_ignoring_case(kind, "Select"@) ==> action_kind(Some(kind)) is DataOperation,
        same_ignoring_case(kind, "Table"@) ==> action_kind(Some(kind)) is DataOperation,
{
    if same_ignoring_case(kind, "Foreach"@) {
        lemma_class_foreach(kind);
    }
    if same_ignoring_case(kind, "If"@) {
        lemma_class_if(kind);
    }
    if same_ignoring_case(kind, "Scope"@) {
        lemma_class_scope(kind);
    }
    if same_ignoring_case(kind, "Switch"@) {
        lemma_class_switch(kind);
    }
    if same_ignoring_case(kind, "Until"@) {
        lemma_class_until(kind);
    }
    if same_ignoring_case(kind, "Agent"@) {
        lemma_class_agent(kind);
    }
    if same_ignoring_case(kind, "Query"@) {
        lemma_class_query(kind);
    }
    if same_ignoring_case(kind, "Select"@) {
        lemma_class_select(kind);
    }
    if same_ignoring_case(kind, "Table"@) {
        lemma_class_table(kind);
    }
}

/// A limit with a count has nothing else.
proof fn lemma_limit_alone(node: &Node)
    requires
        holds_only(node, seq!["count"@]),
    ensures
        field(node, "timeout"@) is None,
{
    reveal_strlit("count");
    reveal_strlit("timeout");
    assert("count"@.len() == 5 && "count"@[0] == 'c');
    assert("timeout"@.len() == 7 && "timeout"@[0] == 't');
    let keys = seq!["count"@];
    if field(node, "timeout"@) is Some {
        assert(keys.contains("timeout"@));
        let i = choose|i: int| 0 <= i < keys.len() && keys[i] == "timeout"@;
        assert(keys[i] == "timeout"@);
    }
}

/// An action with these members has nothing else.
proof fn lemma_keys_of_loops_end_within_their_limit(node: &Node)
    requires
        holds_only(node, seq!["type"@, "expression"@, "actions"@, "limit"@]),
    ensures
        field(node, "description"@) is None,
        field(node, "operationOptions"@) is None,
        field(node, "runtimeConfiguration"@) is None,
        field(node, "trackedProperties"@) is None,
        field(node, "kind"@) is None,
        field(node, "runAfter"@) is None,
        field(node, "cases"@) is None,
        field(node, "default"@) is None,
        field(node, "else"@) is None,
        field(node, "tools"@) is None,
{
    reveal_strlit("type");
    reveal_strlit("expression");
    reveal_strlit("actions");
    reveal_strlit("limit");
    reveal_strlit("description");
    reveal_strlit("operationOptions");
    reveal_strlit("runtimeConfiguration");
    reveal_strlit("trackedProperties");
    reveal_strlit("kind");
    reveal_strlit("runAfter");
    reveal_strlit("cases");
    reveal_strlit("default");
    reveal_strlit("else");
    reveal_strlit("tools");
    assert("type"@.len() == 4 && "type"@[0] == 't');
    assert("expression"@.len() == 10 && "expression"@[0] == 'e');
    assert("actions"@.len() == 7 && "actions"@[0] == 'a');
    assert("limit"@.len() == 5 && "limit"@[0] == 'l');
    assert("description"@.len() == 11 && "description"@[0] == 'd');
    assert("operationOptions"@.len() == 16 && "operationOptions"@[0] == 'o');
    assert("runtimeConfiguration"@.len() == 20 && "runtimeConfiguration"@[0] == 'r');
    assert("trackedProperties"@.len() == 17 && "trackedProperties"@[0] == 't');
    assert("kind"@.len() == 4 && "kind"@[0] == 'k');
    assert("runAfter"@.len() == 8 && "runAfter"@[0] == 'r');
    assert("cases"@.len() == 5 && "cases"@[0] == 'c');
    assert("default"@.len() == 7 && "default"@[0] == 'd');
    assert("else"@.len() == 4 && "else"@[0] == 'e');
    assert("tools"@.len() == 5 && "tools"@[0] == 't');
    let keys = seq!["type"@, "expression"@, "actions"@, "limit"@];
    if field(node, "description"@) is Some {
        assert(keys.contains("description"@));
        let i = choose|i: int| 0 <= i < keys.len() && keys[i] == "description"@;
        assert(keys[i] == "description"@);
    }
    if field(node, "operationOptions"@) is Some {
        assert(keys.contains("operationOptions"@));
        let i = choose|i: int| 0 <= i < keys.len() && keys[i] == "operationOptions"@;
        assert(keys[i] == "operationOptions"@);
    }
    if field(node, "runtimeConfiguration"@) is Some {
        assert(keys.contains("runtimeConfiguration"@));
        let i = choose|i: int| 0 <= i < keys.len() && keys[i] == "runtimeConfiguration"@;
        assert(keys[i] == "runtimeConfiguration"@);
    }
    if field(node, "trackedProperties"@) is Some {
        assert(keys.contains("trackedProperties"@));
        let i = choose|i: int| 0 <= i < keys.len() && keys[i] == "trackedProperties"@;
        assert(keys[i] == "trackedProperties"@);
    }
    if field(node, "kind"@) is Some {
        assert(keys.contains("kind"@));
        let i = choose|i: int| 0 <= i < keys.len() && keys[i] == "kind"@;
        assert(keys[i] == "kind"@);
    }
    if field(node, "runAfter"@) is Some {
        assert(keys.contains("runAfter"@));
        let i = choose|i: int| 0 <= i < keys.len() && keys[i] == "runAfter"@;
        assert(keys[i] == "runAfter"@);
    }
    if field(node, "cases"@) is Some {
        assert(keys.contains("cases"@));
        let i = choose|i: int| 0 <= i < keys.len() && keys[i] == "cases"@;
        assert(keys[i] == "cases"@);
    }
    if field(node, "default"@) is Some {
        assert(keys.contains("default"@));
        let i = choose|i: int| 0 <= i < keys.len() && keys[i] == "default"@;
        assert(keys[i] == "default"@);
    }
    if field(node, "else"@) is Some {
        assert(keys.contains("else"@));
        let i = choose|i: int| 0 <= i < keys.len() && keys[i] == "else"@;
        assert(keys[i] == "else"@);
    }
    if field(node, "tools"@) is Some {
        assert(keys.contains("tools"@));
        let i = choose|i: int| 0 <= i < keys.len() && keys[i] == "tools"@;
        assert(keys[i] == "tools"@);
    }
}

/// An `Until` action over a condition and no actions is clean exactly where it
/// stops after 1 to 5000 rounds, or 1 to 100 in a Stateless workflow.
pub proof fn law_loops_end_within_their_limit(
    action: &Node,
    kind: Seq<char>,
    limit: &Node,
    count: &Node,
    rounds: u64,
    pointer: Seq<char>,
    container: Seq<char>,
    file: &Document,
    workflow: &Workflow,
    scope: &ArmScope,
)
    requires
        is_plain(file, scope),
        holds_only(action, seq!["type"@, "expression"@, "actions"@, "limit"@]),
        text_field(action, "type"@) == Some(kind),
        same_ignoring_case(kind, "Until"@),
        field(action, "expression"@) is Some,
        (field(action, "expression"@)->Some_0).kind is String,
        field(action, "actions"@) is Some,
        is_empty_object(&(field(action, "actions"@)->Some_0)),
        field(action, "limit"@) == Some(*limit),
        limit.kind is Object,
        holds_only(limit, seq!["count"@]),
        field(limit, "count"@) == Some(*count),
        count.kind == Json::Number(Number::PosInt(rounds)),
        rounds <= i64::MAX,
    ensures
        (authored_action_findings(action, pointer, container, file, workflow, scope).len() == 0)
            == (if keeps_state(workflow) {
            1 <= rounds <= 5000
        } else {
            1 <= rounds <= 100
        }),
{
    lemma_plain(file, scope);
    lemma_keys_of_loops_end_within_their_limit(action);
    lemma_action_types(kind);
    lemma_action_parts(action, pointer, container, file, workflow, scope, kind, ActionSpec::Until);
    let typed = typed_action_findings(
        ActionSpec::Until,
        action,
        pointer,
        container,
        kind,
        file,
        workflow,
    );
    let shared = common_findings(action, pointer, "action"@, file, workflow, scope);
    let below = nested_findings(action, pointer, false, Some(kind), file, workflow, scope);
    lemma_limit_alone(limit);
    law_classes_go_by_type(kind);
    assert(shared.len() == 0);
    assert(below.len() == 0);
}

proof fn lemma_run_status_names(name: Seq<char>)
    ensures
        one_of(name, run_status_names()) == (name == "Cancelled"@ || name == "Failed"@ || name == "Succeeded"@),
{
    let list = run_status_names();
    if one_of(name, list) {
        let k = choose|k: int| 0 <= k < list.len() && list[k] == name;
        assert(list[k] == name);
    }
    assert(list[0] == "Cancelled"@);
    assert(list[1] == "Failed"@);
    assert(list[2] == "Succeeded"@);
}

proof fn lemma_time_unit_names(name: Seq<char>)
    ensures
        one_of(name, time_unit_names()) == (name == "Day"@ || name == "Hour"@ || name == "Minute"@ || name == "Month"@ || name == "Second"@ || name == "Week"@ || name == "Year"@),
{
    let list = time_unit_names();
    if one_of(name, list) {
        let k = choose|k: int| 0 <= k < list.len() && list[k] == name;
        assert(list[k] == name);
    }
    assert(list[0] == "Day"@);
    assert(list[1] == "Hour"@);
    assert(list[2] == "Minute"@);
    assert(list[3] == "Month"@);
    assert(list[4] == "Second"@);
    assert(list[5] == "Week"@);
    assert(list[6] == "Year"@);
}

/// A `Terminate` action with a status is clean exactly where the status is one
/// of the three that end a run, an error comes with a failure only, and no loop
/// encloses the action.
pub proof fn law_runs_end_with_a_status(
    action: &Node,
    inputs: &Node,
    kind: Seq<char>,
    status: Seq<char>,
    pointer: Seq<char>,
    container: Seq<char>,
    file: &Document,
    workflow: &Workflow,
    scope: &ArmScope,
)
    requires
        is_plain(file, scope),
        holds_only(action, seq!["type"@, "inputs"@]),
        text_field(action, "type"@) == Some(kind),
        same_ignoring_case(kind, "Terminate"@),
        field(action, "inputs"@) == Some(*inputs),
        inputs.kind is Object,
        holds_only(inputs, seq!["runStatus"@, "runError"@]),
        text_field(inputs, "runStatus"@) == Some(status),
        is_unmarked(status),
        field(inputs, "runError"@) is Some ==> ({
            let error = field(inputs, "runError"@)->Some_0;
            &&& error.kind is Object
            &&& text_field(&error, "code"@) is Some
            &&& text_field(&error, "message"@) is Some
        }),
    ensures
        (authored_action_findings(action, pointer, container, file, workflow, scope).len() == 0)
            == ({
            &&& status == "Cancelled"@ || status == "Failed"@ || status == "Succeeded"@
            &&& field(inputs, "runError"@) is Some ==> status == "Failed"@
            &&& forall|i: int|
                0 <= i < workflow.action_list@.len() && ((#[trigger] workflow.action_list@[i]).kind
                    is Foreach || workflow.action_list@[i].kind is Until) ==> !encloses(
                    workflow.action_list@[i].pointer@,
                    pointer,
                )
        }),
{
    let declared = field(action, "type"@)->Some_0;
    lemma_plain(file, scope);
    lemma_action_alone(action);
    lemma_action_types(kind);
    lemma_action_by_type(
        action,
        pointer,
        container,
        file,
        workflow,
        scope,
        &declared,
        kind,
        ActionSpec::Terminate,
    );
    lemma_unmarked_is_literal(status);
    lemma_run_status_names(status);
    let list = workflow.action_list@;
    assert(in_loop(list, pointer) == !(forall|i: int|
        0 <= i < list.len() && ((#[trigger] list[i]).kind is Foreach || list[i].kind is Until)
            ==> !encloses(list[i].pointer@, pointer)));
    let at = joined(pointer, "inputs"@);
    let error = run_error_findings(inputs, at, file);
    assert((error.len() == 0) == (field(inputs, "runError"@) is Some ==> status == "Failed"@));
    let named = enum_findings(
        inputs,
        at,
        "runStatus"@,
        "Terminate inputs.runStatus"@,
        run_status_names(),
        file,
    );
    assert((named.len() == 0) == (status == "Cancelled"@ || status == "Failed"@ || status
        == "Succeeded"@));
    let typed = terminate_action_findings(action, pointer, file, workflow);
    assert((typed.len() == 0) == (!in_loop(list, pointer) && named.len() == 0 && error.len() == 0));
}

/// Inputs with these members have nothing else.
proof fn lemma_inputs_of_waits_count_units_of_time(node: &Node)
    requires
        holds_only(node, seq!["interval"@]),
    ensures
        field(node, "until"@) is None,
{
    reveal_strlit("interval");
    reveal_strlit("until");
    assert("interval"@.len() == 8 && "interval"@[0] == 'i');
    assert("until"@.len() == 5 && "until"@[0] == 'u');
    let keys = seq!["interval"@];
    if field(node, "until"@) is Some {
        assert(keys.contains("until"@));
        let i = choose|i: int| 0 <= i < keys.len() && keys[i] == "until"@;
        assert(keys[i] == "until"@);
    }
}

/// A `Wait` action with an interval is clean exactly where the unit is one of
/// the seven units of time.
pub proof fn law_waits_count_units_of_time(
    action: &Node,
    inputs: &Node,
    kind: Seq<char>,
    interval: &Node,
    unit: Seq<char>,
    pointer: Seq<char>,
    container: Seq<char>,
    file: &Document,
    workflow: &Workflow,
    scope: &ArmScope,
)
    requires
        is_plain(file, scope),
        holds_only(action, seq!["type"@, "inputs"@]),
        text_field(action, "type"@) == Some(kind),
        same_ignoring_case(kind, "Wait"@),
        field(action, "inputs"@) == Some(*inputs),
        inputs.kind is Object,
        holds_only(inputs, seq!["interval"@]),
        field(inputs, "interval"@) == Some(*interval),
        inputs.kind->Object_0@.len() == 1,
        interval.kind is Object,
        text_field(interval, "unit"@) == Some(unit),
        is_unmarked(unit),
        field(interval, "count"@) is Some,
        (field(interval, "count"@)->Some_0).kind->Number_0 is PosInt,
        (field(interval, "count"@)->Some_0).kind is Number,
    ensures
        (authored_action_findings(action, pointer, container, file, workflow, scope).len() == 0)
            == (unit == "Day"@ || unit == "Hour"@ || unit == "Minute"@ || unit == "Month"@ || unit
            == "Second"@ || unit == "Week"@ || unit == "Year"@),
{
    let declared = field(action, "type"@)->Some_0;
    lemma_plain(file, scope);
    lemma_action_alone(action);
    lemma_action_types(kind);
    lemma_action_by_type(
        action,
        pointer,
        container,
        file,
        workflow,
        scope,
        &declared,
        kind,
        ActionSpec::Wait,
    );
    lemma_inputs_of_waits_count_units_of_time(inputs);
    lemma_unmarked_is_literal(unit);
    lemma_time_unit_names(unit);
}

/// Inputs with these members have nothing else.
proof fn lemma_inputs_of_responses_carry_a_status_code(node: &Node)
    requires
        holds_only(node, seq!["statusCode"@]),
    ensures
        field(node, "headers"@) is None,
{
    reveal_strlit("statusCode");
    reveal_strlit("headers");
    assert("statusCode"@.len() == 10 && "statusCode"@[0] == 's');
    assert("headers"@.len() == 7 && "headers"@[0] == 'h');
    let keys = seq!["statusCode"@];
    if field(node, "headers"@) is Some {
        assert(keys.contains("headers"@));
        let i = choose|i: int| 0 <= i < keys.len() && keys[i] == "headers"@;
        assert(keys[i] == "headers"@);
    }
}

/// A `Response` action to a `Request` trigger is clean exactly where its status
/// code is one of a success, of a refusal or of a failure.
pub proof fn law_responses_carry_a_status_code(
    action: &Node,
    inputs: &Node,
    kind: Seq<char>,
    code: u64,
    pointer: Seq<char>,
    container: Seq<char>,
    file: &Document,
    workflow: &Workflow,
    scope: &ArmScope,
)
    requires
        is_plain(file, scope),
        holds_only(action, seq!["type"@, "inputs"@]),
        text_field(action, "type"@) == Some(kind),
        same_ignoring_case(kind, "Response"@),
        field(action, "inputs"@) == Some(*inputs),
        inputs.kind is Object,
        holds_only(inputs, seq!["statusCode"@]),
        workflow.action_list@.len() == 0,
        exists|i: int|
            0 <= i < workflow.trigger_types@.len() && same_ignoring_case(
                (#[trigger] workflow.trigger_types@[i]).1@,
                "Request"@,
            ),
        field(inputs, "statusCode"@) is Some,
        (field(inputs, "statusCode"@)->Some_0).kind == Json::Number(Number::PosInt(code)),
        code <= i64::MAX,
    ensures
        (authored_action_findings(action, pointer, container, file, workflow, scope).len() == 0)
            == (200 <= code <= 299 || 400 <= code <= 599),
{
    let declared = field(action, "type"@)->Some_0;
    lemma_plain(file, scope);
    lemma_action_alone(action);
    lemma_action_types(kind);
    lemma_action_by_type(
        action,
        pointer,
        container,
        file,
        workflow,
        scope,
        &declared,
        kind,
        ActionSpec::Response,
    );
    lemma_inputs_of_responses_carry_a_status_code(inputs);
    let i = choose|i: int|
        0 <= i < workflow.trigger_types@.len() && same_ignoring_case(
            (#[trigger] workflow.trigger_types@[i]).1@,
            "Request"@,
        );
    assert(is_request(&workflow.trigger_types@[i].1));
    assert(parallel_dependency(workflow.action_list@, pointer) is None);
    assert(successor_of(workflow.action_list@, pointer) is None);
}

proof fn lemma_first_same(
    members: Seq<Member>,
    seen: Seq<int>,
    value: &Node,
    file: &Document,
    from: int,
)
    requires
        0 <= from,
    ensures
        (first_same(members, seen, value, file, from) is Some) == exists|k: int|
            from <= k < seen.len() && static_case(
                &members[#[trigger] seen[k]].value,
                file,
            ) is Some && same_case(
                &static_case(&members[seen[k]].value, file)->Some_0,
                value,
                file,
            ),
    decreases seen.len() - from,
{
    if from < seen.len() {
        lemma_first_same(members, seen, value, file, from + 1);
        let hit = static_case(&members[seen[from]].value, file) is Some && same_case(
            &static_case(&members[seen[from]].value, file)->Some_0,
            value,
            file,
        );
        if exists|k: int|
            from <= k < seen.len() && static_case(
                &members[#[trigger] seen[k]].value,
                file,
            ) is Some && same_case(
                &static_case(&members[seen[k]].value, file)->Some_0,
                value,
                file,
            ) {
            let k = choose|k: int|
                from <= k < seen.len() && static_case(
                    &members[#[trigger] seen[k]].value,
                    file,
                ) is Some && same_case(
                    &static_case(&members[seen[k]].value, file)->Some_0,
                    value,
                    file,
                );
            if k > from {
                assert(first_same(members, seen, value, file, from + 1) is Some);
            }
        }
    }
}

proof fn lemma_text_case(members: Seq<Member>, i: int, file: &Document, scope: &ArmScope)
    requires
        is_plain(file, scope),
        are_text_cases(members),
        0 <= i < members.len(),
    ensures
        static_case(&members[i].value, file) == field(&members[i].value, "case"@),
        static_case(&members[i].value, file) is Some,
{
    lemma_plain(file, scope);
    let case = members[i].value;
    lemma_unmarked_is_literal(text_field(&case, "case"@)->Some_0);
}

proof fn lemma_same_text(members: Seq<Member>, i: int, j: int, file: &Document, scope: &ArmScope)
    requires
        is_plain(file, scope),
        are_text_cases(members),
        0 <= i < members.len(),
        0 <= j < members.len(),
    ensures
        same_case(
            &static_case(&members[i].value, file)->Some_0,
            &static_case(&members[j].value, file)->Some_0,
            file,
        ) == (text_field(&members[i].value, "case"@) == text_field(&members[j].value, "case"@)),
{
    lemma_plain(file, scope);
    lemma_text_case(members, i, file, scope);
    lemma_text_case(members, j, file, scope);
}

proof fn lemma_cases(
    members: Seq<Member>,
    n: nat,
    base: Seq<char>,
    file: &Document,
    scope: &ArmScope,
)
    requires
        is_plain(file, scope),
        are_text_cases(members),
        n <= members.len(),
    ensures
        (case_list_findings(members, n, base, file).len() == 0) == cases_differ(members.take(n as int)),
        forall|k: int|
            0 <= k < distinct_cases(members, n, file).len() ==> 0 <= #[trigger] distinct_cases(
                members,
                n,
                file,
            )[k] < n,
        cases_differ(members.take(n as int)) ==> distinct_cases(members, n, file) == Seq::new(
            n,
            |k: int| k,
        ),
    decreases n,
{
    if n == 0 {
        assert(distinct_cases(members, n, file) =~= Seq::new(n, |k: int| k));
    } else {
        let m = (n - 1) as nat;
        lemma_cases(members, m, base, file, scope);
        let seen = distinct_cases(members, m, file);
        let before = members.take(m as int);
        let now = members.take(n as int);
        lemma_text_case(members, n - 1, file, scope);
        lemma_plain(file, scope);
        let value = static_case(&members[n - 1].value, file)->Some_0;
        lemma_first_same(members, seen, &value, file, 0);
        assert forall|i: int| 0 <= i < m implies before[i] == now[i] by {}
        if cases_differ(now) {
            assert forall|i: int, j: int| 0 <= i < j < before.len() implies text_field(
                &(#[trigger] before[i]).value,
                "case"@,
            ) != text_field(&(#[trigger] before[j]).value, "case"@) by {
                assert(before[i] == now[i] && before[j] == now[j]);
            }
            assert(cases_differ(before));
        }
        if cases_differ(before) {
            assert forall|k: int| 0 <= k < m implies #[trigger] seen[k] == k by {}
            if first_same(members, seen, &value, file, 0) is Some {
                let k = choose|k: int|
                    0 <= k < seen.len() && static_case(
                        &members[#[trigger] seen[k]].value,
                        file,
                    ) is Some && same_case(
                        &static_case(&members[seen[k]].value, file)->Some_0,
                        &value,
                        file,
                    );
                lemma_same_text(members, k, n - 1, file, scope);
                assert(now[k] == members[k] && now[n - 1] == members[n - 1]);
                assert(!cases_differ(now));
            } else {
                assert forall|i: int, j: int| 0 <= i < j < now.len() implies text_field(
                    &(#[trigger] now[i]).value,
                    "case"@,
                ) != text_field(&(#[trigger] now[j]).value, "case"@) by {
                    if j == n - 1 {
                        lemma_text_case(members, i, file, scope);
                        lemma_same_text(members, i, n - 1, file, scope);
                        assert(seen[i] == i);
                    } else {
                        assert(before[i] == now[i] && before[j] == now[j]);
                    }
                }
                assert(cases_differ(now));
            }
            if cases_differ(now) {
                assert(distinct_cases(members, n, file) =~= Seq::new(n, |k: int| k));
            }
        }
        let found = case_findings(
            members,
            seen,
            &members[n - 1].value,
            base,
            members[n - 1].name@,
            file,
        );
        assert((found.len() == 0) == (first_same(members, seen, &value, file, 0) is None));
    }
}

/// Members that are no expressions all count.
pub proof fn lemma_all_count(members: Seq<Member>, n: nat, file: &Document, scope: &ArmScope)
    requires
        is_plain(file, scope),
        n <= members.len(),
        forall|i: int| 0 <= i < n ==> !((#[trigger] members[i]).value.kind is Null),
    ensures
        present_count(members, n, file) == n,
    decreases n,
{
    lemma_plain(file, scope);
    if n > 0 {
        lemma_all_count(members, (n - 1) as nat, file, scope);
        assert(!(members[n - 1].value.kind is Null));
    }
}

proof fn lemma_no_groups(
    members: Vec<Member>,
    n: nat,
    base: Seq<char>,
    file: &Document,
    workflow: &Workflow,
    scope: &ArmScope,
)
    requires
        are_text_cases(members@),
        n <= members@.len(),
    ensures
        group_findings(members, n, base, file, workflow, scope).len() == 0,
    decreases n,
{
    if n > 0 {
        lemma_no_groups(members, (n - 1) as nat, base, file, workflow, scope);
        assert(members@[n - 1] == members[n - 1]);
    }
}

/// An action with these members has nothing else.
proof fn lemma_keys_of_switches_tell_their_cases_apart(node: &Node)
    requires
        holds_only(node, seq!["type"@, "expression"@, "cases"@]),
    ensures
        field(node, "description"@) is None,
        field(node, "operationOptions"@) is None,
        field(node, "runtimeConfiguration"@) is None,
        field(node, "limit"@) is None,
        field(node, "trackedProperties"@) is None,
        field(node, "kind"@) is None,
        field(node, "runAfter"@) is None,
        field(node, "actions"@) is None,
        field(node, "default"@) is None,
        field(node, "else"@) is None,
        field(node, "tools"@) is None,
{
    reveal_strlit("type");
    reveal_strlit("expression");
    reveal_strlit("cases");
    reveal_strlit("description");
    reveal_strlit("operationOptions");
    reveal_strlit("runtimeConfiguration");
    reveal_strlit("limit");
    reveal_strlit("trackedProperties");
    reveal_strlit("kind");
    reveal_strlit("runAfter");
    reveal_strlit("actions");
    reveal_strlit("default");
    reveal_strlit("else");
    reveal_strlit("tools");
    assert("type"@.len() == 4 && "type"@[0] == 't');
    assert("expression"@.len() == 10 && "expression"@[0] == 'e');
    assert("cases"@.len() == 5 && "cases"@[0] == 'c');
    assert("description"@.len() == 11 && "description"@[0] == 'd');
    assert("operationOptions"@.len() == 16 && "operationOptions"@[0] == 'o');
    assert("runtimeConfiguration"@.len() == 20 && "runtimeConfiguration"@[0] == 'r');
    assert("limit"@.len() == 5 && "limit"@[0] == 'l');
    assert("trackedProperties"@.len() == 17 && "trackedProperties"@[0] == 't');
    assert("kind"@.len() == 4 && "kind"@[0] == 'k');
    assert("runAfter"@.len() == 8 && "runAfter"@[0] == 'r');
    assert("actions"@.len() == 7 && "actions"@[0] == 'a');
    assert("default"@.len() == 7 && "default"@[0] == 'd');
    assert("else"@.len() == 4 && "else"@[0] == 'e');
    assert("tools"@.len() == 5 && "tools"@[0] == 't');
    let keys = seq!["type"@, "expression"@, "cases"@];
    if field(node, "description"@) is Some {
        assert(keys.contains("description"@));
        let i = choose|i: int| 0 <= i < keys.len() && keys[i] == "description"@;
        assert(keys[i] == "description"@);
    }
    if field(node, "operationOptions"@) is Some {
        assert(keys.contains("operationOptions"@));
        let i = choose|i: int| 0 <= i < keys.len() && keys[i] == "operationOptions"@;
        assert(keys[i] == "operationOptions"@);
    }
    if field(node, "runtimeConfiguration"@) is Some {
        assert(keys.contains("runtimeConfiguration"@));
        let i = choose|i: int| 0 <= i < keys.len() && keys[i] == "runtimeConfiguration"@;
        assert(keys[i] == "runtimeConfiguration"@);
    }
    if field(node, "limit"@) is Some {
        assert(keys.contains("limit"@));
        let i = choose|i: int| 0 <= i < keys.len() && keys[i] == "limit"@;
        assert(keys[i] == "limit"@);
    }
    if field(node, "trackedProperties"@) is Some {
        assert(keys.contains("trackedProperties"@));
        let i = choose|i: int| 0 <= i < keys.len() && keys[i] == "trackedProperties"@;
        assert(keys[i] == "trackedProperties"@);
    }
    if field(node, "kind"@) is Some {
        assert(keys.contains("kind"@));
        let i = choose|i: int| 0 <= i < keys.len() && keys[i] == "kind"@;
        assert(keys[i] == "kind"@);
    }
    if field(node, "runAfter"@) is Some {
        assert(keys.contains("runAfter"@));
        let i = choose|i: int| 0 <= i < keys.len() && keys[i] == "runAfter"@;
        assert(keys[i] == "runAfter"@);
    }
    if field(node, "actions"@) is Some {
        assert(keys.contains("actions"@));
        let i = choose|i: int| 0 <= i < keys.len() && keys[i] == "actions"@;
        assert(keys[i] == "actions"@);
    }
    if field(node, "default"@) is Some {
        assert(keys.contains("default"@));
        let i = choose|i: int| 0 <= i < keys.len() && keys[i] == "default"@;
        assert(keys[i] == "default"@);
    }
    if field(node, "else"@) is Some {
        assert(keys.contains("else"@));
        let i = choose|i: int| 0 <= i < keys.len() && keys[i] == "else"@;
        assert(keys[i] == "else"@);
    }
    if field(node, "tools"@) is Some {
        assert(keys.contains("tools"@));
        let i = choose|i: int| 0 <= i < keys.len() && keys[i] == "tools"@;
        assert(keys[i] == "tools"@);
    }
}

/// A `Switch` action over plain texts is clean exactly where it has at most 25
/// cases and no two of them compare with the same text.
pub proof fn law_switches_tell_their_cases_apart(
    action: &Node,
    kind: Seq<char>,
    cases: &Node,
    members: Vec<Member>,
    pointer: Seq<char>,
    container: Seq<char>,
    file: &Document,
    workflow: &Workflow,
    scope: &ArmScope,
)
    requires
        is_plain(file, scope),
        holds_only(action, seq!["type"@, "expression"@, "cases"@]),
        text_field(action, "type"@) == Some(kind),
        same_ignoring_case(kind, "Switch"@),
        field(action, "expression"@) is Some,
        (field(action, "expression"@)->Some_0).kind is String,
        field(action, "cases"@) == Some(*cases),
        cases.kind == Json::Object(members),
        are_text_cases(members@),
    ensures
        (authored_action_findings(action, pointer, container, file, workflow, scope).len() == 0)
            == (members@.len() <= 25 && cases_differ(members@)),
{
    lemma_plain(file, scope);
    lemma_keys_of_switches_tell_their_cases_apart(action);
    lemma_action_types(kind);
    lemma_action_parts(action, pointer, container, file, workflow, scope, kind, ActionSpec::Switch);
    let typed = typed_action_findings(
        ActionSpec::Switch,
        action,
        pointer,
        container,
        kind,
        file,
        workflow,
    );
    let shared = common_findings(action, pointer, "action"@, file, workflow, scope);
    let below = nested_findings(action, pointer, false, Some(kind), file, workflow, scope);
    law_classes_go_by_type(kind);
    let base = joined(pointer, "cases"@);
    lemma_cases(members@, members@.len(), base, file, scope);
    lemma_all_count(members@, members@.len(), file, scope);
    assert(members@.take(members@.len() as int) =~= members@);
    lemma_no_groups(members, members@.len(), base, file, workflow, scope);
    assert(shared.len() == 0);
    assert(below.len() == 0);
}

/// An action with these members has nothing else.
proof fn lemma_keys_of_loops_run_over_texts_and_lists(node: &Node)
    requires
        holds_only(node, seq!["type"@, "foreach"@, "actions"@]),
    ensures
        field(node, "description"@) is None,
        field(node, "operationOptions"@) is None,
        field(node, "runtimeConfiguration"@) is None,
        field(node, "limit"@) is None,
        field(node, "trackedProperties"@) is None,
        field(node, "kind"@) is None,
        field(node, "runAfter"@) is None,
        field(node, "cases"@) is None,
        field(node, "default"@) is None,
        field(node, "else"@) is None,
        field(node, "tools"@) is None,
{
    reveal_strlit("type");
    reveal_strlit("foreach");
    reveal_strlit("actions");
    reveal_strlit("description");
    reveal_strlit("operationOptions");
    reveal_strlit("runtimeConfiguration");
    reveal_strlit("limit");
    reveal_strlit("trackedProperties");
    reveal_strlit("kind");
    reveal_strlit("runAfter");
    reveal_strlit("cases");
    reveal_strlit("default");
    reveal_strlit("else");
    reveal_strlit("tools");
    assert("type"@.len() == 4 && "type"@[0] == 't');
    assert("foreach"@.len() == 7 && "foreach"@[0] == 'f');
    assert("actions"@.len() == 7 && "actions"@[0] == 'a');
    assert("description"@.len() == 11 && "description"@[0] == 'd');
    assert("operationOptions"@.len() == 16 && "operationOptions"@[0] == 'o');
    assert("runtimeConfiguration"@.len() == 20 && "runtimeConfiguration"@[0] == 'r');
    assert("limit"@.len() == 5 && "limit"@[0] == 'l');
    assert("trackedProperties"@.len() == 17 && "trackedProperties"@[0] == 't');
    assert("kind"@.len() == 4 && "kind"@[0] == 'k');
    assert("runAfter"@.len() == 8 && "runAfter"@[0] == 'r');
    assert("cases"@.len() == 5 && "cases"@[0] == 'c');
    assert("default"@.len() == 7 && "default"@[0] == 'd');
    assert("else"@.len() == 4 && "else"@[0] == 'e');
    assert("tools"@.len() == 5 && "tools"@[0] == 't');
    let keys = seq!["type"@, "foreach"@, "actions"@];
    if field(node, "description"@) is Some {
        assert(keys.contains("description"@));
        let i = choose|i: int| 0 <= i < keys.len() && keys[i] == "description"@;
        assert(keys[i] == "description"@);
    }
    if field(node, "operationOptions"@) is Some {
        assert(keys.contains("operationOptions"@));
        let i = choose|i: int| 0 <= i < keys.len() && keys[i] == "operationOptions"@;
        assert(keys[i] == "operationOptions"@);
    }
    if field(node, "runtimeConfiguration"@) is Some {
        assert(keys.contains("runtimeConfiguration"@));
        let i = choose|i: int| 0 <= i < keys.len() && keys[i] == "runtimeConfiguration"@;
        assert(keys[i] == "runtimeConfiguration"@);
    }
    if field(node, "limit"@) is Some {
        assert(keys.contains("limit"@));
        let i = choose|i: int| 0 <= i < keys.len() && keys[i] == "limit"@;
        assert(keys[i] == "limit"@);
    }
    if field(node, "trackedProperties"@) is Some {
        assert(keys.contains("trackedProperties"@));
        let i = choose|i: int| 0 <= i < keys.len() && keys[i] == "trackedProperties"@;
        assert(keys[i] == "trackedProperties"@);
    }
    if field(node, "kind"@) is Some {
        assert(keys.contains("kind"@));
        let i = choose|i: int| 0 <= i < keys.len() && keys[i] == "kind"@;
        assert(keys[i] == "kind"@);
    }
    if field(node, "runAfter"@) is Some {
        assert(keys.contains("runAfter"@));
        let i = choose|i: int| 0 <= i < keys.len() && keys[i] == "runAfter"@;
        assert(keys[i] == "runAfter"@);
    }
    if field(node, "cases"@) is Some {
        assert(keys.contains("cases"@));
        let i = choose|i: int| 0 <= i < keys.len() && keys[i] == "cases"@;
        assert(keys[i] == "cases"@);
    }
    if field(node, "default"@) is Some {
        assert(keys.contains("default"@));
        let i = choose|i: int| 0 <= i < keys.len() && keys[i] == "default"@;
        assert(keys[i] == "default"@);
    }
    if field(node, "else"@) is Some {
        assert(keys.contains("else"@));
        let i = choose|i: int| 0 <= i < keys.len() && keys[i] == "else"@;
        assert(keys[i] == "else"@);
    }
    if field(node, "tools"@) is Some {
        assert(keys.contains("tools"@));
        let i = choose|i: int| 0 <= i < keys.len() && keys[i] == "tools"@;
        assert(keys[i] == "tools"@);
    }
}

/// A `Foreach` action without actions is clean exactly where it runs over a text
/// or a list.
pub proof fn law_loops_run_over_texts_and_lists(
    action: &Node,
    kind: Seq<char>,
    over: &Node,
    given: &Node,
    pointer: Seq<char>,
    container: Seq<char>,
    file: &Document,
    workflow: &Workflow,
    scope: &ArmScope,
)
    requires
        is_plain(file, scope),
        holds_only(action, seq!["type"@, "foreach"@, "actions"@]),
        text_field(action, "type"@) == Some(kind),
        same_ignoring_case(kind, "Foreach"@),
        field(action, "foreach"@) == Some(*over),
        field(action, "actions"@) == Some(*given),
        is_empty_object(given),
    ensures
        (authored_action_findings(action, pointer, container, file, workflow, scope).len() == 0)
            == (over.kind is String || over.kind is Array),
{
    lemma_plain(file, scope);
    lemma_keys_of_loops_run_over_texts_and_lists(action);
    lemma_action_types(kind);
    lemma_action_parts(action, pointer, container, file, workflow, scope, kind, ActionSpec::Foreach);
    let typed = typed_action_findings(
        ActionSpec::Foreach,
        action,
        pointer,
        container,
        kind,
        file,
        workflow,
    );
    let shared = common_findings(action, pointer, "action"@, file, workflow, scope);
    let below = nested_findings(action, pointer, false, Some(kind), file, workflow, scope);
    law_classes_go_by_type(kind);
    assert(shared.len() == 0);
    assert(below.len() == 0);
}

/// An action with these members has nothing else.
proof fn lemma_keys_of_conditions_are_texts_or_objects(node: &Node)
    requires
        holds_only(node, seq!["type"@, "expression"@, "actions"@]),
    ensures
        field(node, "description"@) is None,
        field(node, "operationOptions"@) is None,
        field(node, "runtimeConfiguration"@) is None,
        field(node, "limit"@) is None,
        field(node, "trackedProperties"@) is None,
        field(node, "kind"@) is None,
        field(node, "runAfter"@) is None,
        field(node, "cases"@) is None,
        field(node, "default"@) is None,
        field(node, "else"@) is None,
        field(node, "tools"@) is None,
{
    reveal_strlit("type");
    reveal_strlit("expression");
    reveal_strlit("actions");
    reveal_strlit("description");
    reveal_strlit("operationOptions");
    reveal_strlit("runtimeConfiguration");
    reveal_strlit("limit");
    reveal_strlit("trackedProperties");
    reveal_strlit("kind");
    reveal_strlit("runAfter");
    reveal_strlit("cases");
    reveal_strlit("default");
    reveal_strlit("else");
    reveal_strlit("tools");
    assert("type"@.len() == 4 && "type"@[0] == 't');
    assert("expression"@.len() == 10 && "expression"@[0] == 'e');
    assert("actions"@.len() == 7 && "actions"@[0] == 'a');
    assert("description"@.len() == 11 && "description"@[0] == 'd');
    assert("operationOptions"@.len() == 16 && "operationOptions"@[0] == 'o');
    assert("runtimeConfiguration"@.len() == 20 && "runtimeConfiguration"@[0] == 'r');
    assert("limit"@.len() == 5 && "limit"@[0] == 'l');
    assert("trackedProperties"@.len() == 17 && "trackedProperties"@[0] == 't');
    assert("kind"@.len() == 4 && "kind"@[0] == 'k');
    assert("runAfter"@.len() == 8 && "runAfter"@[0] == 'r');
    assert("cases"@.len() == 5 && "cases"@[0] == 'c');
    assert("default"@.len() == 7 && "default"@[0] == 'd');
    assert("else"@.len() == 4 && "else"@[0] == 'e');
    assert("tools"@.len() == 5 && "tools"@[0] == 't');
    let keys = seq!["type"@, "expression"@, "actions"@];
    if field(node, "description"@) is Some {
        assert(keys.contains("description"@));
        let i = choose|i: int| 0 <= i < keys.len() && keys[i] == "description"@;
        assert(keys[i] == "description"@);
    }
    if field(node, "operationOptions"@) is Some {
        assert(keys.contains("operationOptions"@));
        let i = choose|i: int| 0 <= i < keys.len() && keys[i] == "operationOptions"@;
        assert(keys[i] == "operationOptions"@);
    }
    if field(node, "runtimeConfiguration"@) is Some {
        assert(keys.contains("runtimeConfiguration"@));
        let i = choose|i: int| 0 <= i < keys.len() && keys[i] == "runtimeConfiguration"@;
        assert(keys[i] == "runtimeConfiguration"@);
    }
    if field(node, "limit"@) is Some {
        assert(keys.contains("limit"@));
        let i = choose|i: int| 0 <= i < keys.len() && keys[i] == "limit"@;
        assert(keys[i] == "limit"@);
    }
    if field(node, "trackedProperties"@) is Some {
        assert(keys.contains("trackedProperties"@));
        let i = choose|i: int| 0 <= i < keys.len() && keys[i] == "trackedProperties"@;
        assert(keys[i] == "trackedProperties"@);
    }
    if field(node, "kind"@) is Some {
        assert(keys.contains("kind"@));
        let i = choose|i: int| 0 <= i < keys.len() && keys[i] == "kind"@;
        assert(keys[i] == "kind"@);
    }
    if field(node, "runAfter"@) is Some {
        assert(keys.contains("runAfter"@));
        let i = choose|i: int| 0 <= i < keys.len() && keys[i] == "runAfter"@;
        assert(keys[i] == "runAfter"@);
    }
    if field(node, "cases"@) is Some {
        assert(keys.contains("cases"@));
        let i = choose|i: int| 0 <= i < keys.len() && keys[i] == "cases"@;
        assert(keys[i] == "cases"@);
    }
    if field(node, "default"@) is Some {
        assert(keys.contains("default"@));
        let i = choose|i: int| 0 <= i < keys.len() && keys[i] == "default"@;
        assert(keys[i] == "default"@);
    }
    if field(node, "else"@) is Some {
        assert(keys.contains("else"@));
        let i = choose|i: int| 0 <= i < keys.len() && keys[i] == "else"@;
        assert(keys[i] == "else"@);
    }
    if field(node, "tools"@) is Some {
        assert(keys.contains("tools"@));
        let i = choose|i: int| 0 <= i < keys.len() && keys[i] == "tools"@;
        assert(keys[i] == "tools"@);
    }
}

/// An `If` action without actions is clean exactly where its condition is a text
/// or an object.
pub proof fn law_conditions_are_texts_or_objects(
    action: &Node,
    kind: Seq<char>,
    over: &Node,
    given: &Node,
    pointer: Seq<char>,
    container: Seq<char>,
    file: &Document,
    workflow: &Workflow,
    scope: &ArmScope,
)
    requires
        is_plain(file, scope),
        holds_only(action, seq!["type"@, "expression"@, "actions"@]),
        text_field(action, "type"@) == Some(kind),
        same_ignoring_case(kind, "If"@),
        field(action, "expression"@) == Some(*over),
        field(action, "actions"@) == Some(*given),
        is_empty_object(given),
    ensures
        (authored_action_findings(action, pointer, container, file, workflow, scope).len() == 0)
            == (over.kind is String || over.kind is Object),
{
    lemma_plain(file, scope);
    lemma_keys_of_conditions_are_texts_or_objects(action);
    lemma_action_types(kind);
    lemma_action_parts(action, pointer, container, file, workflow, scope, kind, ActionSpec::If);
    let typed = typed_action_findings(
        ActionSpec::If,
        action,
        pointer,
        container,
        kind,
        file,
        workflow,
    );
    let shared = common_findings(action, pointer, "action"@, file, workflow, scope);
    let below = nested_findings(action, pointer, false, Some(kind), file, workflow, scope);
    law_classes_go_by_type(kind);
    assert(shared.len() == 0);
    assert(below.len() == 0);
}

} // verus!
