//! What the summary of a workflow says about its triggers, parameters and texts.

use vstd::prelude::*;

use crate::json::{field, text_field, text_of, Json, Member, Node};
use crate::text::same_ignoring_case;
use crate::workflow::action_kind;
use crate::workflow::extraction::{
    actions_of, entry_names, item_leaves, leaves, member_leaves, names_having, strings_among,
    summary_of, trigger_types_of, triggers_having, types_among,
};

verus! {

proof fn lemma_names_having(members: Seq<Member>, n: nat, key: Seq<char>, name: Seq<char>)
    requires
        n <= members.len(),
    ensures
        names_having(members, n, key).contains(name) == exists|i: int|
            0 <= i < n && (#[trigger] members[i]).name@ == name && field(
                &members[i].value,
                key,
            ) is Some,
    decreases n,
{
    if n > 0 {
        let m = (n - 1) as nat;
        lemma_names_having(members, m, key, name);
        let before = names_having(members, m, key);
        let now = names_having(members, n, key);
        let last = members[n - 1];
        if before.contains(name) {
            let k = choose|k: int| 0 <= k < before.len() && before[k] == name;
            assert(now[k] == name);
        }
        if last.name@ == name && field(&last.value, key) is Some {
            assert(now[before.len() as int] == name);
        }
        if now.contains(name) {
            let k = choose|k: int| 0 <= k < now.len() && now[k] == name;
            if k < before.len() {
                assert(before[k] == name);
            }
        }
    }
}

proof fn lemma_types_among(members: Seq<Member>, n: nat, name: Seq<char>, kind: Seq<char>)
    requires
        n <= members.len(),
    ensures
        types_among(members, n).contains((name, kind)) == exists|i: int|
            0 <= i < n && (#[trigger] members[i]).name@ == name && text_field(
                &members[i].value,
                "type"@,
            ) == Some(kind),
    decreases n,
{
    let pair = (name, kind);
    if n > 0 {
        let m = (n - 1) as nat;
        lemma_types_among(members, m, name, kind);
        let before = types_among(members, m);
        let now = types_among(members, n);
        let last = members[n - 1];
        if before.contains(pair) {
            let k = choose|k: int| 0 <= k < before.len() && before[k] == pair;
            assert(now[k] == pair);
        }
        if last.name@ == name && text_field(&last.value, "type"@) == Some(kind) {
            assert(now[before.len() as int] == pair);
        }
        if now.contains(pair) {
            let k = choose|k: int| 0 <= k < now.len() && now[k] == pair;
            if k < before.len() {
                assert(before[k] == pair);
            }
        }
    }
}

/// A summary names every member of a section, in order, and tells which triggers
/// have a field, and of what type each is.
pub proof fn law_summaries_name_what_is_declared(
    definition: &Node,
    section: &Node,
    members: Vec<Member>,
    key: Seq<char>,
    name: Seq<char>,
    kind: Seq<char>,
)
    requires
        section.kind == Json::Object(members),
    ensures
        field(definition, key) == Some(*section) ==> {
            &&& entry_names(definition, key).len() == members@.len()
            &&& forall|i: int|
                0 <= i < members@.len() ==> #[trigger] entry_names(definition, key)[i]
                    == members@[i].name@
        },
        field(definition, "triggers"@) == Some(*section) ==> {
            &&& triggers_having(definition, key).contains(name) == exists|i: int|
                0 <= i < members@.len() && (#[trigger] members@[i]).name@ == name && field(
                    &members@[i].value,
                    key,
                ) is Some
            &&& trigger_types_of(definition).contains((name, kind)) == exists|i: int|
                0 <= i < members@.len() && (#[trigger] members@[i]).name@ == name && text_field(
                    &members@[i].value,
                    "type"@,
                ) == Some(kind)
        },
        field(definition, key) is None ==> entry_names(definition, key).len() == 0,
        field(definition, "triggers"@) is None ==> triggers_having(definition, key).len() == 0
            && trigger_types_of(definition).len() == 0,
{
    lemma_names_having(members@, members@.len(), key, name);
    lemma_types_among(members@, members@.len(), name, kind);
}

proof fn lemma_item_leaves(items: Vec<Node>, n: nat, text: Seq<char>)
    requires
        n <= items@.len(),
    ensures
        item_leaves(items, n).contains(text) == exists|i: int|
            0 <= i < n && leaves(#[trigger] &items@[i]).contains(text),
    decreases n,
{
    if n > 0 {
        let m = (n - 1) as nat;
        lemma_item_leaves(items, m, text);
        assert(items@[n - 1] == items[n - 1]);
        let last = leaves(&items@[n - 1]);
        lemma_both(item_leaves(items, m), last, text);
    }
}

proof fn lemma_member_leaves(members: Vec<Member>, n: nat, text: Seq<char>)
    requires
        n <= members@.len(),
    ensures
        member_leaves(members, n).contains(text) == exists|i: int|
            0 <= i < n && leaves(&(#[trigger] members@[i]).value).contains(text),
    decreases n,
{
    if n > 0 {
        let m = (n - 1) as nat;
        lemma_member_leaves(members, m, text);
        assert(members@[n - 1] == members[n - 1]);
        let last = leaves(&members@[n - 1].value);
        lemma_both(member_leaves(members, m), last, text);
    }
}

proof fn lemma_both(first: Seq<Seq<char>>, second: Seq<Seq<char>>, text: Seq<char>)
    ensures
        (first + second).contains(text) == (first.contains(text) || second.contains(text)),
{
    let both = first + second;
    if first.contains(text) {
        let i = choose|i: int| 0 <= i < first.len() && first[i] == text;
        assert(both[i] == text);
    }
    if second.contains(text) {
        let i = choose|i: int| 0 <= i < second.len() && second[i] == text;
        assert(both[first.len() + i] == text);
    }
    if both.contains(text) {
        let i = choose|i: int| 0 <= i < both.len() && both[i] == text;
        if i < first.len() {
            assert(first[i] == text);
        } else {
            assert(second[i - first.len()] == text);
        }
    }
}

/// The texts of a value are the text that it is, or those of what it holds.
pub proof fn law_texts_are_those_below(value: &Node, text: Seq<char>)
    ensures
        leaves(value).contains(text) == (match value.kind {
            Json::String(own) => own@ == text,
            Json::Array(items) => exists|i: int|
                0 <= i < items@.len() && leaves(#[trigger] &items@[i]).contains(text),
            Json::Object(members) => exists|i: int|
                0 <= i < members@.len() && leaves(&(#[trigger] members@[i]).value).contains(text),
            _ => false,
        }),
{
    match value.kind {
        Json::String(own) => {
            assert(leaves(value)[0] == own@);
        },
        Json::Array(items) => {
            lemma_item_leaves(items, items@.len(), text);
        },
        Json::Object(members) => {
            lemma_member_leaves(members, members@.len(), text);
        },
        _ => {},
    }
}

/// The statuses of an edge are the texts of a list, in order.
pub proof fn law_lists_of_texts_are_read_in_full(items: Seq<Node>, n: nat)
    requires
        n <= items.len(),
        forall|i: int| 0 <= i < n ==> text_of(#[trigger] &items[i]) is Some,
    ensures
        strings_among(items, n).len() == n,
        forall|i: int|
            0 <= i < n ==> Some(#[trigger] strings_among(items, n)[i]) == text_of(&items[i]),
    decreases n,
{
    if n > 0 {
        law_lists_of_texts_are_read_in_full(items, (n - 1) as nat);
        assert(text_of(&items[n - 1]) is Some);
    }
}

/// An action that is none of the six types that hold others is extracted alone,
/// whatever it holds.
pub proof fn law_other_actions_hold_none(
    action: &Node,
    name: Seq<char>,
    container: Seq<char>,
    depth: usize,
)
    requires
        action.kind is Object,
        match text_field(action, "type"@) {
            Some(kind) => !same_ignoring_case(kind, "foreach"@) && !same_ignoring_case(
                kind,
                "if"@,
            ) && !same_ignoring_case(kind, "scope"@) && !same_ignoring_case(kind, "switch"@)
                && !same_ignoring_case(kind, "until"@) && !same_ignoring_case(kind, "agent"@),
            None => true,
        },
    ensures
        actions_of(action, name, container, depth) == seq![
            (summary_of(action, name, container, depth), action.span),
        ],
{
    let kind = action_kind(text_field(action, "type"@));
    assert(actions_of(action, name, container, depth) =~= seq![
        (summary_of(action, name, container, depth), action.span),
    ]);
}

} // verus!
