//! The pointers of the graph summary lead back to the actions.

use vstd::prelude::*;

use crate::diagnostic::ByteSpan;
use crate::json::laws::law_joined_pointer_leads_to_child;
use crate::json::{
    field, joined, lemma_field_smaller, lemma_member_position, member_named, node_from, text_field, text_of,
    Json, Member, Node,
};
use crate::text::{folded, one_of_ignoring_case, same_ignoring_case};
use crate::workflow::extraction::{
    actions_among, actions_below, actions_of, all_actions, branch_actions, declaration,
    declaration_list, deeper, edge_list, firsts, group_actions, grouped_actions, held_actions,
    leaves, mutation_names, position_of, repeated, statuses_of, strings_among, summary_of,
    ActionView,
};
use crate::workflow::{action_kind, ActionKind};

verus! {

/// No object in a value has two members of one name, as in any document that
/// was parsed.
pub open spec fn has_distinct_names(value: &Node) -> bool
    decreases value, 0nat,
{
    match value.kind {
        Json::Object(members) => {
            &&& forall|i: int, j: int|
                0 <= i < j < members@.len() ==> (#[trigger] members@[i]).name@ != (
                #[trigger] members@[j]).name@
            &&& members_have_distinct_names(members, members@.len())
        },
        _ => true,
    }
}

/// The same of the values of the first `n` members.
pub open spec fn members_have_distinct_names(members: Vec<Member>, n: nat) -> bool
    decreases members, n,
{
    n == 0 || (n <= members@.len() && members_have_distinct_names(members, (n - 1) as nat)
        && has_distinct_names(&members[n - 1].value))
}

proof fn lemma_member_has_distinct_names(members: Vec<Member>, n: nat, i: int)
    requires
        members_have_distinct_names(members, n),
        0 <= i < n,
    ensures
        n <= members@.len(),
        has_distinct_names(&members@[i].value),
    decreases n,
{
    if i < n - 1 {
        lemma_member_has_distinct_names(members, (n - 1) as nat, i);
    }
}

proof fn lemma_member_found(members: Seq<Member>, i: int)
    requires
        0 <= i < members.len(),
        forall|k: int| 0 <= k < i ==> (#[trigger] members[k]).name@ != members[i].name@,
    ensures
        member_named(members, members[i].name@) == Some(members[i].value),
    decreases i,
{
    if i > 0 {
        let rest = members.skip(1);
        assert(rest[i - 1] == members[i]);
        assert forall|k: int| 0 <= k < i - 1 implies (#[trigger] rest[k]).name@ != rest[i - 1].name@ by {
            assert(rest[k] == members[k + 1]);
        }
        assert(members[0].name@ != members[i].name@);
        lemma_member_found(rest, i - 1);
    }
}

/// A member found by name has distinct names too.
proof fn lemma_field_has_distinct_names(value: &Node, key: Seq<char>)
    requires
        has_distinct_names(value),
    ensures
        match field(value, key) {
            Some(member) => has_distinct_names(&member),
            None => true,
        },
{
    if let Json::Object(members) = value.kind {
        if member_named(members@, key) is Some {
            let i = lemma_member_position(members@, key);
            lemma_member_has_distinct_names(members, members@.len(), i);
        }
    }
}

/// The pointer of an action leads to an object at its place, of its type.
pub open spec fn leads_to_action(root: &Node, found: (ActionView, ByteSpan)) -> bool {
    match node_from(root, found.0.pointer) {
        Some(node) => {
            &&& node.kind is Object
            &&& node.span == found.1
            &&& text_field(&node, "type"@) == found.0.action_type
        },
        None => false,
    }
}

/// So do those of all of a list.
pub open spec fn all_lead_to_actions(root: &Node, list: Seq<(ActionView, ByteSpan)>) -> bool {
    forall|i: int| 0 <= i < list.len() ==> leads_to_action(root, #[trigger] list[i])
}

proof fn lemma_sum(root: &Node, left: Seq<(ActionView, ByteSpan)>, right: Seq<(ActionView, ByteSpan)>)
    requires
        all_lead_to_actions(root, left),
        all_lead_to_actions(root, right),
    ensures
        all_lead_to_actions(root, left + right),
{
    let whole = left + right;
    assert forall|i: int| 0 <= i < whole.len() implies leads_to_action(root, #[trigger] whole[i]) by {
        if i < left.len() {
            assert(whole[i] == left[i]);
        } else {
            assert(whole[i] == right[i - left.len()]);
        }
    }
}

/// A pointer that leads to a node.
spec fn stands_at(root: &Node, pointer: Seq<char>, node: &Node) -> bool {
    &&& pointer.len() > 0 ==> pointer[0] == '/'
    &&& node_from(root, pointer) == Some(*node)
}

proof fn lemma_joined_stands(root: &Node, pointer: Seq<char>, node: &Node, key: Seq<char>)
    requires
        stands_at(root, pointer, node),
        node.kind is Object,
    ensures
        match field(node, key) {
            Some(member) => stands_at(root, joined(pointer, key), &member),
            None => true,
        },
{
    law_joined_pointer_leads_to_child(root, pointer, key);
    reveal_strlit("/");
    if pointer.len() == 0 {
        assert(joined(pointer, key)[0] == '/');
    } else {
        assert(joined(pointer, key)[0] == pointer[0]);
    }
}

proof fn lemma_among(
    root: &Node,
    holder: &Node,
    members: Vec<Member>,
    n: nat,
    pointer: Seq<char>,
    depth: usize,
)
    requires
        holder.kind == Json::Object(members),
        n <= members@.len(),
        has_distinct_names(holder),
        stands_at(root, pointer, holder),
    ensures
        all_lead_to_actions(root, actions_among(members, n, pointer, depth)),
    decreases members, n,
{
    if n > 0 {
        let member = members[n - 1];
        lemma_among(root, holder, members, (n - 1) as nat, pointer, depth);
        lemma_member_found(members@, n - 1);
        lemma_member_has_distinct_names(members, members@.len(), n - 1);
        lemma_joined_stands(root, pointer, holder, member.name@);
        lemma_of(root, &members[n - 1].value, member.name@, pointer, depth);
        lemma_sum(
            root,
            actions_among(members, (n - 1) as nat, pointer, depth),
            actions_of(&members[n - 1].value, member.name@, pointer, depth),
        );
    }
}

proof fn lemma_of(
    root: &Node,
    action: &Node,
    name: Seq<char>,
    container: Seq<char>,
    depth: usize,
)
    requires
        has_distinct_names(action),
        stands_at(root, joined(container, name), action),
    ensures
        all_lead_to_actions(root, actions_of(action, name, container, depth)),
    decreases action, 2nat,
{
    if action.kind is Object {
        let pointer = joined(container, name);
        let kind = action_kind(text_field(action, "type"@));
        lemma_below(root, action, pointer, kind, deeper(depth));
        let first = seq![(summary_of(action, name, container, depth), action.span)];
        assert(all_lead_to_actions(root, first));
        lemma_sum(root, first, actions_below(action, pointer, kind, deeper(depth)));
    }
}

proof fn lemma_below(
    root: &Node,
    action: &Node,
    pointer: Seq<char>,
    kind: ActionKind,
    depth: usize,
)
    requires
        action.kind is Object,
        has_distinct_names(action),
        stands_at(root, pointer, action),
    ensures
        all_lead_to_actions(root, actions_below(action, pointer, kind, depth)),
    decreases action, 1nat,
{
    lemma_held(root, action, pointer, depth);
    lemma_grouped(root, action, "cases"@, pointer, depth);
    lemma_branch(root, action, "default"@, pointer, depth);
    lemma_branch(root, action, "else"@, pointer, depth);
    lemma_grouped(root, action, "tools"@, pointer, depth);
    let none = Seq::<(ActionView, ByteSpan)>::empty();
    let a = if kind is Foreach || kind is If || kind is Scope || kind is Until {
        held_actions(action, pointer, depth)
    } else {
        none
    };
    let b = if kind is Switch {
        grouped_actions(action, "cases"@, pointer, depth)
    } else {
        none
    };
    let c = if kind is Switch {
        branch_actions(action, "default"@, pointer, depth)
    } else {
        none
    };
    let d = if kind is If {
        branch_actions(action, "else"@, pointer, depth)
    } else {
        none
    };
    let e = if kind is Agent {
        grouped_actions(action, "tools"@, pointer, depth)
    } else {
        none
    };
    lemma_sum(root, a, b);
    lemma_sum(root, a + b, c);
    lemma_sum(root, a + b + c, d);
    lemma_sum(root, a + b + c + d, e);
}

proof fn lemma_held(root: &Node, holder: &Node, pointer: Seq<char>, depth: usize)
    requires
        has_distinct_names(holder),
        stands_at(root, pointer, holder),
    ensures
        all_lead_to_actions(root, held_actions(holder, pointer, depth)),
    decreases holder, 0nat,
{
    lemma_field_smaller(holder, "actions"@);
    if let Some(value) = field(holder, "actions"@) {
        if let Json::Object(members) = value.kind {
            lemma_field_has_distinct_names(holder, "actions"@);
            lemma_joined_stands(root, pointer, holder, "actions"@);
            lemma_among(root, &value, members, members@.len(), joined(pointer, "actions"@), depth);
        }
    }
}

proof fn lemma_branch(
    root: &Node,
    action: &Node,
    key: Seq<char>,
    pointer: Seq<char>,
    depth: usize,
)
    requires
        action.kind is Object,
        has_distinct_names(action),
        stands_at(root, pointer, action),
    ensures
        all_lead_to_actions(root, branch_actions(action, key, pointer, depth)),
    decreases action, 0nat,
{
    lemma_field_smaller(action, key);
    if let Some(branch) = field(action, key) {
        lemma_field_has_distinct_names(action, key);
        lemma_joined_stands(root, pointer, action, key);
        lemma_held(root, &branch, joined(pointer, key), depth);
    }
}

proof fn lemma_grouped(
    root: &Node,
    action: &Node,
    key: Seq<char>,
    pointer: Seq<char>,
    depth: usize,
)
    requires
        action.kind is Object,
        has_distinct_names(action),
        stands_at(root, pointer, action),
    ensures
        all_lead_to_actions(root, grouped_actions(action, key, pointer, depth)),
    decreases action, 0nat,
{
    lemma_field_smaller(action, key);
    if let Some(group) = field(action, key) {
        if let Json::Object(members) = group.kind {
            lemma_field_has_distinct_names(action, key);
            lemma_joined_stands(root, pointer, action, key);
            lemma_group(root, &group, members, members@.len(), joined(pointer, key), depth);
        }
    }
}

proof fn lemma_group(
    root: &Node,
    holder: &Node,
    members: Vec<Member>,
    n: nat,
    base: Seq<char>,
    depth: usize,
)
    requires
        holder.kind == Json::Object(members),
        n <= members@.len(),
        has_distinct_names(holder),
        stands_at(root, base, holder),
    ensures
        all_lead_to_actions(root, group_actions(members, n, base, depth)),
    decreases members, n,
{
    if n > 0 {
        let member = members[n - 1];
        lemma_group(root, holder, members, (n - 1) as nat, base, depth);
        lemma_member_found(members@, n - 1);
        lemma_member_has_distinct_names(members, members@.len(), n - 1);
        lemma_joined_stands(root, base, holder, member.name@);
        lemma_held(root, &members[n - 1].value, joined(base, member.name@), depth);
        lemma_sum(
            root,
            group_actions(members, (n - 1) as nat, base, depth),
            held_actions(&members[n - 1].value, joined(base, member.name@), depth),
        );
    }
}

/// The pointer of every action that is extracted leads, in the document, to
/// that action: to the object at its place, of its type.
pub proof fn law_action_pointers_lead_to_actions(
    document: &Node,
    definition: &Node,
    definition_pointer: Seq<char>,
)
    requires
        definition_pointer.len() > 0 ==> definition_pointer[0] == '/',
        node_from(document, definition_pointer) == Some(*definition),
        has_distinct_names(definition),
    ensures
        all_lead_to_actions(document, all_actions(definition, definition_pointer)),
{
    lemma_held(document, definition, definition_pointer, 1);
}

/// A list has an action under this name, in this container, at this depth.
pub open spec fn lists_action(
    list: Seq<(ActionView, ByteSpan)>,
    action: &Node,
    name: Seq<char>,
    container: Seq<char>,
    depth: int,
) -> bool {
    exists|j: int| #![trigger list[j]]
        0 <= j < list.len() && {
            &&& list[j].0.name == name
            &&& list[j].0.pointer == joined(container, name)
            &&& list[j].0.container_pointer == container
            &&& list[j].0.depth == depth
            &&& list[j].0.action_type == text_field(action, "type"@)
            &&& list[j].1 == action.span
        }
}

/// A list has every object in the `actions` of `holder`.
pub open spec fn lists_children(
    list: Seq<(ActionView, ByteSpan)>,
    holder: &Node,
    pointer: Seq<char>,
    depth: int,
) -> bool {
    match field(holder, "actions"@) {
        Some(value) => match value.kind {
            Json::Object(members) => forall|i: int|
                0 <= i < members@.len() && (#[trigger] members@[i]).value.kind is Object
                    ==> lists_action(
                    list,
                    &members@[i].value,
                    members@[i].name@,
                    joined(pointer, "actions"@),
                    depth,
                ),
            _ => true,
        },
        None => true,
    }
}

/// A list has every object in the `actions` of each member of a group.
pub open spec fn lists_grouped_children(
    list: Seq<(ActionView, ByteSpan)>,
    action: &Node,
    key: Seq<char>,
    pointer: Seq<char>,
    depth: int,
) -> bool {
    match field(action, key) {
        Some(group) => match group.kind {
            Json::Object(members) => forall|i: int|
                0 <= i < members@.len() ==> lists_children(
                    list,
                    &(#[trigger] members@[i]).value,
                    joined(joined(pointer, key), members@[i].name@),
                    depth,
                ),
            _ => true,
        },
        None => true,
    }
}

/// A list has every object in the `actions` of a branch.
pub open spec fn lists_branch_children(
    list: Seq<(ActionView, ByteSpan)>,
    action: &Node,
    key: Seq<char>,
    pointer: Seq<char>,
    depth: int,
) -> bool {
    match field(action, key) {
        Some(branch) => lists_children(list, &branch, joined(pointer, key), depth),
        None => true,
    }
}

/// A list has every action that an action of its type holds: in `actions` for
/// `Foreach`, `If`, `Scope` and `Until`, in `cases` and `default` for `Switch`,
/// in `else` for `If`, and in `tools` for `Agent`.
pub open spec fn lists_what_it_holds(
    list: Seq<(ActionView, ByteSpan)>,
    action: &Node,
    pointer: Seq<char>,
    depth: int,
) -> bool {
    match text_field(action, "type"@) {
        Some(kind) => {
            &&& same_ignoring_case(kind, "Foreach"@) || same_ignoring_case(kind, "If"@)
                || same_ignoring_case(kind, "Scope"@) || same_ignoring_case(kind, "Until"@)
                ==> lists_children(list, action, pointer, depth)
            &&& same_ignoring_case(kind, "Switch"@) ==> lists_grouped_children(
                list,
                action,
                "cases"@,
                pointer,
                depth,
            ) && lists_branch_children(list, action, "default"@, pointer, depth)
            &&& same_ignoring_case(kind, "If"@) ==> lists_branch_children(
                list,
                action,
                "else"@,
                pointer,
                depth,
            )
            &&& same_ignoring_case(kind, "Agent"@) ==> lists_grouped_children(
                list,
                action,
                "tools"@,
                pointer,
                depth,
            )
        },
        None => true,
    }
}

/// Whatever an action of `inner` holds is in `list`, one level deeper.
pub open spec fn lists_all_below(
    root: &Node,
    list: Seq<(ActionView, ByteSpan)>,
    inner: Seq<(ActionView, ByteSpan)>,
) -> bool {
    forall|k: int|
        0 <= k < inner.len() ==> match node_from(root, (#[trigger] inner[k]).0.pointer) {
            Some(node) => inner[k].0.depth < usize::MAX ==> lists_what_it_holds(
                list,
                &node,
                inner[k].0.pointer,
                inner[k].0.depth + 1,
            ),
            None => true,
        }
}

/// Every entry of `inner` is in `list`.
spec fn has_all(list: Seq<(ActionView, ByteSpan)>, inner: Seq<(ActionView, ByteSpan)>) -> bool {
    forall|k: int| 0 <= k < inner.len() ==> list.contains(#[trigger] inner[k])
}

proof fn lemma_has_parts(
    list: Seq<(ActionView, ByteSpan)>,
    left: Seq<(ActionView, ByteSpan)>,
    right: Seq<(ActionView, ByteSpan)>,
)
    requires
        has_all(list, left + right),
    ensures
        has_all(list, left),
        has_all(list, right),
{
    let whole = left + right;
    assert forall|k: int| 0 <= k < left.len() implies list.contains(#[trigger] left[k]) by {
        assert(whole[k] == left[k]);
    }
    assert forall|k: int| 0 <= k < right.len() implies list.contains(#[trigger] right[k]) by {
        assert(whole[left.len() + k] == right[k]);
    }
}

proof fn lemma_below_parts(
    root: &Node,
    list: Seq<(ActionView, ByteSpan)>,
    left: Seq<(ActionView, ByteSpan)>,
    right: Seq<(ActionView, ByteSpan)>,
)
    requires
        lists_all_below(root, list, left),
        lists_all_below(root, list, right),
    ensures
        lists_all_below(root, list, left + right),
{
    let whole = left + right;
    assert forall|k: int| 0 <= k < whole.len() implies match node_from(
        root,
        (#[trigger] whole[k]).0.pointer,
    ) {
        Some(node) => whole[k].0.depth < usize::MAX ==> lists_what_it_holds(
            list,
            &node,
            whole[k].0.pointer,
            whole[k].0.depth + 1,
        ),
        None => true,
    } by {
        if k < left.len() {
            assert(whole[k] == left[k]);
        } else {
            assert(whole[k] == right[k - left.len()]);
        }
    }
}

/// The objects among the first entries of a container are listed.
proof fn lemma_among_listed(
    list: Seq<(ActionView, ByteSpan)>,
    members: Vec<Member>,
    n: nat,
    pointer: Seq<char>,
    depth: usize,
    i: int,
)
    requires
        0 <= i < n <= members@.len(),
        members@[i].value.kind is Object,
        has_all(list, actions_among(members, n, pointer, depth)),
    ensures
        lists_action(list, &members@[i].value, members@[i].name@, pointer, depth as int),
    decreases n,
{
    let before = actions_among(members, (n - 1) as nat, pointer, depth);
    let own = actions_of(&members[n - 1].value, members[n - 1].name@, pointer, depth);
    lemma_has_parts(list, before, own);
    if i < n - 1 {
        lemma_among_listed(list, members, (n - 1) as nat, pointer, depth, i);
    } else {
        let entry = own[0];
        assert(list.contains(entry));
        let j = choose|j: int| 0 <= j < list.len() && list[j] == entry;
        assert(list[j] == entry);
    }
}

proof fn lemma_held_listed(
    list: Seq<(ActionView, ByteSpan)>,
    holder: &Node,
    pointer: Seq<char>,
    depth: usize,
)
    requires
        has_all(list, held_actions(holder, pointer, depth)),
    ensures
        lists_children(list, holder, pointer, depth as int),
{
    if let Some(value) = field(holder, "actions"@) {
        if let Json::Object(members) = value.kind {
            assert forall|i: int|
                0 <= i < members@.len() && (#[trigger] members@[i]).value.kind is Object implies
                lists_action(
                list,
                &members@[i].value,
                members@[i].name@,
                joined(pointer, "actions"@),
                depth as int,
            ) by {
                lemma_among_listed(
                    list,
                    members,
                    members@.len(),
                    joined(pointer, "actions"@),
                    depth,
                    i,
                );
            }
        }
    }
}

proof fn lemma_group_listed(
    list: Seq<(ActionView, ByteSpan)>,
    members: Vec<Member>,
    n: nat,
    base: Seq<char>,
    depth: usize,
    i: int,
)
    requires
        0 <= i < n <= members@.len(),
        has_all(list, group_actions(members, n, base, depth)),
    ensures
        lists_children(
            list,
            &members@[i].value,
            joined(base, members@[i].name@),
            depth as int,
        ),
    decreases n,
{
    let before = group_actions(members, (n - 1) as nat, base, depth);
    let own = held_actions(&members[n - 1].value, joined(base, members[n - 1].name@), depth);
    lemma_has_parts(list, before, own);
    if i < n - 1 {
        lemma_group_listed(list, members, (n - 1) as nat, base, depth, i);
    } else {
        lemma_held_listed(
            list,
            &members[n - 1].value,
            joined(base, members[n - 1].name@),
            depth,
        );
    }
}

proof fn lemma_grouped_listed(
    list: Seq<(ActionView, ByteSpan)>,
    action: &Node,
    key: Seq<char>,
    pointer: Seq<char>,
    depth: usize,
)
    requires
        has_all(list, grouped_actions(action, key, pointer, depth)),
    ensures
        lists_grouped_children(list, action, key, pointer, depth as int),
{
    if let Some(group) = field(action, key) {
        if let Json::Object(members) = group.kind {
            assert forall|i: int| 0 <= i < members@.len() implies lists_children(
                list,
                &(#[trigger] members@[i]).value,
                joined(joined(pointer, key), members@[i].name@),
                depth as int,
            ) by {
                lemma_group_listed(list, members, members@.len(), joined(pointer, key), depth, i);
            }
        }
    }
}

/// What an action of its type holds is listed where the actions below it are.
proof fn lemma_holds_listed(
    list: Seq<(ActionView, ByteSpan)>,
    action: &Node,
    pointer: Seq<char>,
    depth: usize,
)
    requires
        has_all(
            list,
            actions_below(action, pointer, action_kind(text_field(action, "type"@)), depth),
        ),
    ensures
        lists_what_it_holds(list, action, pointer, depth as int),
{
    let kind = action_kind(text_field(action, "type"@));
    if let Some(text) = text_field(action, "type"@) {
        lemma_container_kinds(text);
        let none = Seq::<(ActionView, ByteSpan)>::empty();
        let cases = grouped_actions(action, "cases"@, pointer, depth);
        let default = branch_actions(action, "default"@, pointer, depth);
        let other = branch_actions(action, "else"@, pointer, depth);
        let tools = grouped_actions(action, "tools"@, pointer, depth);
        let held = held_actions(action, pointer, depth);
        let below = actions_below(action, pointer, kind, depth);
        if kind is Switch {
            assert(below =~= cases + default);
            lemma_has_parts(list, cases, default);
            lemma_grouped_listed(list, action, "cases"@, pointer, depth);
            if let Some(branch) = field(action, "default"@) {
                lemma_held_listed(list, &branch, joined(pointer, "default"@), depth);
            }
        } else if kind is If {
            assert(below =~= held + other);
            lemma_has_parts(list, held, other);
            lemma_held_listed(list, action, pointer, depth);
            if let Some(branch) = field(action, "else"@) {
                lemma_held_listed(list, &branch, joined(pointer, "else"@), depth);
            }
        } else if kind is Agent {
            assert(below =~= tools);
            lemma_grouped_listed(list, action, "tools"@, pointer, depth);
        } else if kind is Foreach || kind is Scope || kind is Until {
            assert(below =~= held);
            lemma_held_listed(list, action, pointer, depth);
        }
    }
}

/// The class of an action that may hold others, whatever the case of its type.
proof fn lemma_container_kinds(text: Seq<char>)
    ensures
        same_ignoring_case(text, "Foreach"@) ==> action_kind(Some(text)) is Foreach,
        same_ignoring_case(text, "If"@) ==> action_kind(Some(text)) is If,
        same_ignoring_case(text, "Scope"@) ==> action_kind(Some(text)) is Scope,
        same_ignoring_case(text, "Until"@) ==> action_kind(Some(text)) is Until,
        same_ignoring_case(text, "Switch"@) ==> action_kind(Some(text)) is Switch,
        same_ignoring_case(text, "Agent"@) ==> action_kind(Some(text)) is Agent,
{
    reveal_strlit("Foreach");
    reveal_strlit("If");
    reveal_strlit("Scope");
    reveal_strlit("Until");
    reveal_strlit("Switch");
    reveal_strlit("Agent");
    reveal_strlit("foreach");
    reveal_strlit("if");
    reveal_strlit("scope");
    reveal_strlit("switch");
    reveal_strlit("until");
    reveal_strlit("agent");
    reveal_strlit("query");
    reveal_strlit("select");
    reveal_strlit("table");
    if same_ignoring_case(text, "Foreach"@) {
        assert forall|i: int| 0 <= i < text.len() implies #[trigger] folded(text[i]) == folded("foreach"@[i]) by {
            assert(folded("Foreach"@[i]) == folded("foreach"@[i]));
        }
        assert(same_ignoring_case(text, "foreach"@));
    }
    if same_ignoring_case(text, "If"@) {
        assert forall|i: int| 0 <= i < text.len() implies #[trigger] folded(text[i]) == folded("if"@[i]) by {
            assert(folded("If"@[i]) == folded("if"@[i]));
        }
        assert(same_ignoring_case(text, "if"@));
    }
    if same_ignoring_case(text, "Scope"@) {
        assert forall|i: int| 0 <= i < text.len() implies #[trigger] folded(text[i]) == folded("scope"@[i]) by {
            assert(folded("Scope"@[i]) == folded("scope"@[i]));
        }
        assert(same_ignoring_case(text, "scope"@));
        assert(folded(text[0]) == 's' && folded("until"@[0]) == 'u');
        assert(!same_ignoring_case(text, "until"@));
        assert(folded(text[0]) == 's' && folded("agent"@[0]) == 'a');
        assert(!same_ignoring_case(text, "agent"@));
        assert(folded(text[0]) == 's' && folded("query"@[0]) == 'q');
        assert(!same_ignoring_case(text, "query"@));
        assert(folded(text[0]) == 's' && folded("table"@[0]) == 't');
        assert(!same_ignoring_case(text, "table"@));
    }
    if same_ignoring_case(text, "Until"@) {
        assert forall|i: int| 0 <= i < text.len() implies #[trigger] folded(text[i]) == folded("until"@[i]) by {
            assert(folded("Until"@[i]) == folded("until"@[i]));
        }
        assert(same_ignoring_case(text, "until"@));
        assert(folded(text[0]) == 'u' && folded("scope"@[0]) == 's');
        assert(!same_ignoring_case(text, "scope"@));
        assert(folded(text[0]) == 'u' && folded("agent"@[0]) == 'a');
        assert(!same_ignoring_case(text, "agent"@));
        assert(folded(text[0]) == 'u' && folded("query"@[0]) == 'q');
        assert(!same_ignoring_case(text, "query"@));
        assert(folded(text[0]) == 'u' && folded("table"@[0]) == 't');
        assert(!same_ignoring_case(text, "table"@));
    }
    if same_ignoring_case(text, "Switch"@) {
        assert forall|i: int| 0 <= i < text.len() implies #[trigger] folded(text[i]) == folded("switch"@[i]) by {
            assert(folded("Switch"@[i]) == folded("switch"@[i]));
        }
        assert(same_ignoring_case(text, "switch"@));
        assert(folded(text[1]) == 'w' && folded("select"@[1]) == 'e');
        assert(!same_ignoring_case(text, "select"@));
    }
    if same_ignoring_case(text, "Agent"@) {
        assert forall|i: int| 0 <= i < text.len() implies #[trigger] folded(text[i]) == folded("agent"@[i]) by {
            assert(folded("Agent"@[i]) == folded("agent"@[i]));
        }
        assert(same_ignoring_case(text, "agent"@));
        assert(folded(text[0]) == 'a' && folded("scope"@[0]) == 's');
        assert(!same_ignoring_case(text, "scope"@));
        assert(folded(text[0]) == 'a' && folded("until"@[0]) == 'u');
        assert(!same_ignoring_case(text, "until"@));
        assert(folded(text[0]) == 'a' && folded("query"@[0]) == 'q');
        assert(!same_ignoring_case(text, "query"@));
        assert(folded(text[0]) == 'a' && folded("table"@[0]) == 't');
        assert(!same_ignoring_case(text, "table"@));
    }
}

proof fn lemma_among_closed(
    root: &Node,
    holder: &Node,
    members: Vec<Member>,
    n: nat,
    pointer: Seq<char>,
    depth: usize,
    list: Seq<(ActionView, ByteSpan)>,
)
    requires
        holder.kind == Json::Object(members),
        n <= members@.len(),
        has_distinct_names(holder),
        stands_at(root, pointer, holder),
        has_all(list, actions_among(members, n, pointer, depth)),
    ensures
        lists_all_below(root, list, actions_among(members, n, pointer, depth)),
    decreases members, n,
{
    if n > 0 {
        let member = members[n - 1];
        let before = actions_among(members, (n - 1) as nat, pointer, depth);
        let own = actions_of(&members[n - 1].value, member.name@, pointer, depth);
        lemma_has_parts(list, before, own);
        lemma_among_closed(root, holder, members, (n - 1) as nat, pointer, depth, list);
        lemma_member_found(members@, n - 1);
        lemma_member_has_distinct_names(members, members@.len(), n - 1);
        lemma_joined_stands(root, pointer, holder, member.name@);
        lemma_of_closed(root, &members[n - 1].value, member.name@, pointer, depth, list);
        lemma_below_parts(root, list, before, own);
    }
}

proof fn lemma_of_closed(
    root: &Node,
    action: &Node,
    name: Seq<char>,
    container: Seq<char>,
    depth: usize,
    list: Seq<(ActionView, ByteSpan)>,
)
    requires
        has_distinct_names(action),
        stands_at(root, joined(container, name), action),
        has_all(list, actions_of(action, name, container, depth)),
    ensures
        lists_all_below(root, list, actions_of(action, name, container, depth)),
    decreases action, 2nat,
{
    if action.kind is Object {
        let pointer = joined(container, name);
        let kind = action_kind(text_field(action, "type"@));
        let first = seq![(summary_of(action, name, container, depth), action.span)];
        let below = actions_below(action, pointer, kind, deeper(depth));
        lemma_has_parts(list, first, below);
        lemma_below_closed(root, action, pointer, kind, deeper(depth), list);
        lemma_holds_listed(list, action, pointer, deeper(depth));
        assert(lists_all_below(root, list, first));
        lemma_below_parts(root, list, first, below);
    }
}

proof fn lemma_below_closed(
    root: &Node,
    action: &Node,
    pointer: Seq<char>,
    kind: ActionKind,
    depth: usize,
    list: Seq<(ActionView, ByteSpan)>,
)
    requires
        action.kind is Object,
        has_distinct_names(action),
        stands_at(root, pointer, action),
        has_all(list, actions_below(action, pointer, kind, depth)),
    ensures
        lists_all_below(root, list, actions_below(action, pointer, kind, depth)),
    decreases action, 1nat,
{
    let held = held_actions(action, pointer, depth);
    let cases = grouped_actions(action, "cases"@, pointer, depth);
    let default = branch_actions(action, "default"@, pointer, depth);
    let other = branch_actions(action, "else"@, pointer, depth);
    let tools = grouped_actions(action, "tools"@, pointer, depth);
    let below = actions_below(action, pointer, kind, depth);
    if kind is Switch {
        assert(below =~= cases + default);
        lemma_has_parts(list, cases, default);
        lemma_grouped_closed(root, action, "cases"@, pointer, depth, list);
        lemma_branch_closed(root, action, "default"@, pointer, depth, list);
        lemma_below_parts(root, list, cases, default);
    } else if kind is If {
        assert(below =~= held + other);
        lemma_has_parts(list, held, other);
        lemma_held_closed(root, action, pointer, depth, list);
        lemma_branch_closed(root, action, "else"@, pointer, depth, list);
        lemma_below_parts(root, list, held, other);
    } else if kind is Agent {
        assert(below =~= tools);
        lemma_grouped_closed(root, action, "tools"@, pointer, depth, list);
    } else if kind is Foreach || kind is Scope || kind is Until {
        assert(below =~= held);
        lemma_held_closed(root, action, pointer, depth, list);
    } else {
        assert(below =~= Seq::empty());
    }
}

proof fn lemma_held_closed(
    root: &Node,
    holder: &Node,
    pointer: Seq<char>,
    depth: usize,
    list: Seq<(ActionView, ByteSpan)>,
)
    requires
        has_distinct_names(holder),
        stands_at(root, pointer, holder),
        has_all(list, held_actions(holder, pointer, depth)),
    ensures
        lists_all_below(root, list, held_actions(holder, pointer, depth)),
    decreases holder, 0nat,
{
    lemma_field_smaller(holder, "actions"@);
    if let Some(value) = field(holder, "actions"@) {
        if let Json::Object(members) = value.kind {
            lemma_field_has_distinct_names(holder, "actions"@);
            lemma_joined_stands(root, pointer, holder, "actions"@);
            lemma_among_closed(
                root,
                &value,
                members,
                members@.len(),
                joined(pointer, "actions"@),
                depth,
                list,
            );
        }
    }
}

proof fn lemma_branch_closed(
    root: &Node,
    action: &Node,
    key: Seq<char>,
    pointer: Seq<char>,
    depth: usize,
    list: Seq<(ActionView, ByteSpan)>,
)
    requires
        action.kind is Object,
        has_distinct_names(action),
        stands_at(root, pointer, action),
        has_all(list, branch_actions(action, key, pointer, depth)),
    ensures
        lists_all_below(root, list, branch_actions(action, key, pointer, depth)),
    decreases action, 0nat,
{
    lemma_field_smaller(action, key);
    if let Some(branch) = field(action, key) {
        lemma_field_has_distinct_names(action, key);
        lemma_joined_stands(root, pointer, action, key);
        lemma_held_closed(root, &branch, joined(pointer, key), depth, list);
    }
}

proof fn lemma_grouped_closed(
    root: &Node,
    action: &Node,
    key: Seq<char>,
    pointer: Seq<char>,
    depth: usize,
    list: Seq<(ActionView, ByteSpan)>,
)
    requires
        action.kind is Object,
        has_distinct_names(action),
        stands_at(root, pointer, action),
        has_all(list, grouped_actions(action, key, pointer, depth)),
    ensures
        lists_all_below(root, list, grouped_actions(action, key, pointer, depth)),
    decreases action, 0nat,
{
    lemma_field_smaller(action, key);
    if let Some(group) = field(action, key) {
        if let Json::Object(members) = group.kind {
            lemma_field_has_distinct_names(action, key);
            lemma_joined_stands(root, pointer, action, key);
            lemma_group_closed(
                root,
                &group,
                members,
                members@.len(),
                joined(pointer, key),
                depth,
                list,
            );
        }
    }
}

proof fn lemma_group_closed(
    root: &Node,
    holder: &Node,
    members: Vec<Member>,
    n: nat,
    base: Seq<char>,
    depth: usize,
    list: Seq<(ActionView, ByteSpan)>,
)
    requires
        holder.kind == Json::Object(members),
        n <= members@.len(),
        has_distinct_names(holder),
        stands_at(root, base, holder),
        has_all(list, group_actions(members, n, base, depth)),
    ensures
        lists_all_below(root, list, group_actions(members, n, base, depth)),
    decreases members, n,
{
    if n > 0 {
        let member = members[n - 1];
        let before = group_actions(members, (n - 1) as nat, base, depth);
        let own = held_actions(&members[n - 1].value, joined(base, member.name@), depth);
        lemma_has_parts(list, before, own);
        lemma_group_closed(root, holder, members, (n - 1) as nat, base, depth, list);
        lemma_member_found(members@, n - 1);
        lemma_member_has_distinct_names(members, members@.len(), n - 1);
        lemma_joined_stands(root, base, holder, member.name@);
        lemma_held_closed(root, &members[n - 1].value, joined(base, member.name@), depth, list);
        lemma_below_parts(root, list, before, own);
    }
}

/// No action is missed: every object in the `actions` of a definition is
/// extracted at depth 1, and whatever an extracted action holds is extracted
/// too, at its own pointer and one level deeper.
pub proof fn law_every_action_is_extracted(
    document: &Node,
    definition: &Node,
    definition_pointer: Seq<char>,
)
    requires
        definition_pointer.len() > 0 ==> definition_pointer[0] == '/',
        node_from(document, definition_pointer) == Some(*definition),
        has_distinct_names(definition),
    ensures
        lists_children(
            all_actions(definition, definition_pointer),
            definition,
            definition_pointer,
            1,
        ),
        lists_all_below(
            document,
            all_actions(definition, definition_pointer),
            all_actions(definition, definition_pointer),
        ),
{
    let list = all_actions(definition, definition_pointer);
    assert(has_all(list, list));
    lemma_held_listed(list, definition, definition_pointer, 1);
    lemma_held_closed(document, definition, definition_pointer, 1, list);
}

proof fn lemma_edges(members: Seq<Member>, n: nat, pointer: Seq<char>)
    requires
        n <= members.len(),
    ensures
        edge_list(members, n, pointer).len() == n,
        forall|i: int|
            0 <= i < n ==> {
                let edge = #[trigger] edge_list(members, n, pointer)[i];
                &&& edge.dependency == members[i].name@
                &&& edge.pointer == joined(pointer, members[i].name@)
                &&& edge.span == members[i].value.span
                &&& edge.statuses == statuses_of(&members[i].value)
            },
    decreases n,
{
    if n > 0 {
        lemma_edges(members, (n - 1) as nat, pointer);
        let before = edge_list(members, (n - 1) as nat, pointer);
        let all = edge_list(members, n, pointer);
        assert forall|i: int| 0 <= i < n implies {
            let edge = #[trigger] all[i];
            &&& edge.dependency == members[i].name@
            &&& edge.pointer == joined(pointer, members[i].name@)
            &&& edge.span == members[i].value.span
            &&& edge.statuses == statuses_of(&members[i].value)
        } by {
            if i < n - 1 {
                assert(all[i] == before[i]);
            }
        }
    }
}

proof fn lemma_strings(items: Seq<Node>, n: nat)
    requires
        n <= items.len(),
        forall|i: int| 0 <= i < n ==> (#[trigger] items[i]).kind is String,
    ensures
        strings_among(items, n).len() == n,
        forall|i: int|
            0 <= i < n ==> Some(#[trigger] strings_among(items, n)[i]) == text_of(&items[i]),
    decreases n,
{
    if n > 0 {
        lemma_strings(items, (n - 1) as nat);
        assert(items[n - 1].kind is String);
        let before = strings_among(items, (n - 1) as nat);
        let all = strings_among(items, n);
        assert forall|i: int| 0 <= i < n implies Some(#[trigger] all[i]) == text_of(&items[i]) by {
            if i < n - 1 {
                assert(all[i] == before[i]);
            }
        }
    }
}

/// The summary of an action has one edge for each member of its `runAfter`, in
/// order, with the statuses that are listed there; without an object there it
/// has none.
pub proof fn law_edges_are_those_of_run_after(
    action: &Node,
    name: Seq<char>,
    container: Seq<char>,
    depth: usize,
)
    ensures
        match field(action, "runAfter"@) {
            Some(value) => match value.kind {
                Json::Object(members) => {
                    let edges = summary_of(action, name, container, depth).run_after;
                    &&& edges.len() == members@.len()
                    &&& forall|i: int|
                        0 <= i < members@.len() ==> {
                            let edge = #[trigger] edges[i];
                            &&& edge.dependency == members@[i].name@
                            &&& edge.pointer == joined(
                                joined(joined(container, name), "runAfter"@),
                                members@[i].name@,
                            )
                            &&& edge.span == members@[i].value.span
                            &&& match members@[i].value.kind {
                                Json::Array(items) => (forall|j: int|
                                    0 <= j < items@.len() ==> (#[trigger] items@[j]).kind
                                        is String) ==> {
                                    &&& edge.statuses.len() == items@.len()
                                    &&& forall|j: int|
                                        0 <= j < items@.len() ==> Some(
                                            #[trigger] edge.statuses[j],
                                        ) == text_of(&items@[j])
                                },
                                _ => edge.statuses.len() == 0,
                            }
                        }
                },
                _ => summary_of(action, name, container, depth).run_after.len() == 0,
            },
            None => summary_of(action, name, container, depth).run_after.len() == 0,
        },
{
    if let Some(value) = field(action, "runAfter"@) {
        if let Json::Object(members) = value.kind {
            let pointer = joined(joined(container, name), "runAfter"@);
            let edges = summary_of(action, name, container, depth).run_after;
            lemma_edges(members@, members@.len(), pointer);
            assert forall|i: int| 0 <= i < members@.len() implies {
                let edge = #[trigger] edges[i];
                &&& edge.dependency == members@[i].name@
                &&& edge.pointer == joined(pointer, members@[i].name@)
                &&& edge.span == members@[i].value.span
                &&& match members@[i].value.kind {
                    Json::Array(items) => (forall|j: int|
                        0 <= j < items@.len() ==> (#[trigger] items@[j]).kind is String) ==> {
                        &&& edge.statuses.len() == items@.len()
                        &&& forall|j: int|
                            0 <= j < items@.len() ==> Some(#[trigger] edge.statuses[j])
                                == text_of(&items@[j])
                    },
                    _ => edge.statuses.len() == 0,
                }
            } by {
                if let Json::Array(items) = members@[i].value.kind {
                    if forall|j: int|
                        0 <= j < items@.len() ==> (#[trigger] items@[j]).kind is String {
                        lemma_strings(items@, items@.len());
                    }
                }
            }
        }
    }
}

proof fn lemma_declared(items: Seq<Node>, n: nat, i: int, name: Seq<char>, kind: Seq<char>)
    requires
        0 <= i < n <= items.len(),
        text_field(&items[i], "name"@) == Some(name),
        text_field(&items[i], "type"@) == Some(kind),
    ensures
        declaration_list(items, n).contains((name, kind)),
    decreases n,
{
    let before = declaration_list(items, (n - 1) as nat);
    let own = declaration(&items[n - 1]);
    let all = declaration_list(items, n);
    assert(all =~= before + own);
    if i < n - 1 {
        lemma_declared(items, (n - 1) as nat, i, name, kind);
        let k = choose|k: int| 0 <= k < before.len() && before[k] == (name, kind);
        assert(all[k] == (name, kind));
    } else {
        assert(all[before.len() as int] == (name, kind));
    }
}

/// An action of type `InitializeVariable` initializes the variable that its
/// inputs name, or those that they list, and no other action initializes any.
pub proof fn law_initialized_variables_are_those_of_the_inputs(
    action: &Node,
    inputs: &Node,
    name: Seq<char>,
    container: Seq<char>,
    depth: usize,
    item: int,
    variable: Seq<char>,
    kind: Seq<char>,
)
    requires
        field(action, "inputs"@) == Some(*inputs),
    ensures
        ({
            let found = summary_of(action, name, container, depth).initialized_variables;
            let initializes = match text_field(action, "type"@) {
                Some(text) => same_ignoring_case(text, "InitializeVariable"@),
                None => false,
            };
            &&& !initializes ==> found.len() == 0
            &&& initializes && text_field(inputs, "name"@) == Some(variable) && text_field(
                inputs,
                "type"@,
            ) == Some(kind) ==> found.contains((variable, kind))
            &&& initializes ==> match field(inputs, "variables"@) {
                Some(list) => match list.kind {
                    Json::Array(items) => 0 <= item < items@.len() && text_field(
                        &items@[item],
                        "name"@,
                    ) == Some(variable) && text_field(&items@[item], "type"@) == Some(kind)
                        ==> found.contains((variable, kind)),
                    _ => true,
                },
                None => true,
            }
        }),
{
    let found = summary_of(action, name, container, depth).initialized_variables;
    let first = declaration(inputs);
    if let Some(text) = text_field(action, "type"@) {
        if same_ignoring_case(text, "InitializeVariable"@) {
            if text_field(inputs, "name"@) == Some(variable) && text_field(inputs, "type"@) == Some(
                kind,
            ) {
                assert(first[0] == (variable, kind));
                assert(found[0] == (variable, kind));
            }
            if let Some(list) = field(inputs, "variables"@) {
                if let Json::Array(items) = list.kind {
                    let more = declaration_list(items@, items@.len());
                    assert(found =~= first + more);
                    if 0 <= item < items@.len() && text_field(&items@[item], "name"@) == Some(
                        variable,
                    ) && text_field(&items@[item], "type"@) == Some(kind) {
                        lemma_declared(items@, items@.len(), item, variable, kind);
                        let k = choose|k: int|
                            0 <= k < more.len() && more[k] == (variable, kind);
                        assert(found[first.len() + k] == (variable, kind));
                    }
                }
            }
        }
    }
}

/// The variable that an action changes is the one that its inputs name: the
/// types that set, extend, increment or decrement a variable have one, and no
/// others; only `SetVariable` assigns texts.
pub proof fn law_variable_targets_are_those_of_the_inputs(
    action: &Node,
    name: Seq<char>,
    container: Seq<char>,
    depth: usize,
)
    ensures
        ({
            let summary = summary_of(action, name, container, depth);
            let pointer = joined(container, name);
            let changes = match text_field(action, "type"@) {
                Some(text) => same_ignoring_case(text, "SetVariable"@) || same_ignoring_case(
                    text,
                    "AppendToArrayVariable"@,
                ) || same_ignoring_case(text, "AppendToStringVariable"@) || same_ignoring_case(
                    text,
                    "IncrementVariable"@,
                ) || same_ignoring_case(text, "DecrementVariable"@),
                None => false,
            };
            let sets = match text_field(action, "type"@) {
                Some(text) => same_ignoring_case(text, "SetVariable"@),
                None => false,
            };
            match field(action, "inputs"@) {
                Some(inputs) => {
                    &&& match field(&inputs, "name"@) {
                        Some(value) => if changes && value.kind is String {
                            summary.variable_target == Some(
                                (
                                    text_of(&value)->Some_0,
                                    joined(joined(pointer, "inputs"@), "name"@),
                                    value.span,
                                ),
                            )
                        } else {
                            summary.variable_target is None
                        },
                        None => summary.variable_target is None,
                    }
                    &&& match field(&inputs, "value"@) {
                        Some(value) => if sets {
                            &&& summary.variable_value is Some
                            &&& summary.variable_value->Some_0.0 == leaves(&value)
                            &&& summary.variable_value->Some_0.1 == joined(
                                joined(pointer, "inputs"@),
                                "value"@,
                            )
                            &&& summary.variable_value->Some_0.2 == value.span
                        } else {
                            summary.variable_value is None
                        },
                        None => summary.variable_value is None,
                    }
                },
                None => summary.variable_target is None && summary.variable_value is None,
            }
        }),
{
    if let Some(text) = text_field(action, "type"@) {
        let list = mutation_names();
        assert(list[0] == "SetVariable"@);
        assert(list[1] == "AppendToArrayVariable"@);
        assert(list[2] == "AppendToStringVariable"@);
        assert(list[3] == "IncrementVariable"@);
        assert(list[4] == "DecrementVariable"@);
        if one_of_ignoring_case(text, list) {
            let k = choose|k: int|
                0 <= k < list.len() && same_ignoring_case(text, #[trigger] list[k]);
            assert(same_ignoring_case(text, list[k]));
        }
    }
}

proof fn lemma_first_position(
    list: Seq<(ActionView, ByteSpan)>,
    name: Seq<char>,
    from: int,
    at: int,
)
    requires
        0 <= from <= at < list.len(),
        list[at].0.name == name,
        forall|k: int| from <= k < at ==> (#[trigger] list[k]).0.name != name,
    ensures
        position_of(list, name, from) == at,
    decreases at - from,
{
    if from < at {
        lemma_first_position(list, name, from + 1, at);
    }
}

proof fn lemma_repeated(list: Seq<(ActionView, ByteSpan)>, n: nat, first: int, later: int)
    requires
        0 <= first < later < n <= list.len(),
        list[later].0.name == list[first].0.name,
        forall|k: int| 0 <= k < first ==> (#[trigger] list[k]).0.name != list[first].0.name,
    ensures
        exists|i: int| #![trigger repeated(list, n)[i]]
            0 <= i < repeated(list, n).len() && {
                &&& repeated(list, n)[i].name == list[later].0.name
                &&& repeated(list, n)[i].pointer == list[later].0.pointer
                &&& repeated(list, n)[i].first_pointer == list[first].0.pointer
                &&& repeated(list, n)[i].span == list[later].1
            },
    decreases n,
{
    let all = repeated(list, n);
    let before = repeated(list, (n - 1) as nat);
    if later < n - 1 {
        lemma_repeated(list, (n - 1) as nat, first, later);
        let i = choose|i: int| #![trigger before[i]]
            0 <= i < before.len() && {
                &&& before[i].name == list[later].0.name
                &&& before[i].pointer == list[later].0.pointer
                &&& before[i].first_pointer == list[first].0.pointer
                &&& before[i].span == list[later].1
            };
        assert(all[i] == before[i]);
    } else {
        lemma_first_position(list, list[first].0.name, 0, first);
        assert(all[before.len() as int].pointer == list[later].0.pointer);
    }
}

proof fn lemma_firsts(list: Seq<(ActionView, ByteSpan)>, n: nat, at: int)
    requires
        0 <= at < n <= list.len(),
        forall|k: int| 0 <= k < at ==> (#[trigger] list[k]).0.name != list[at].0.name,
    ensures
        firsts(list, n).contains(list[at].0),
    decreases n,
{
    let all = firsts(list, n);
    let before = firsts(list, (n - 1) as nat);
    if at < n - 1 {
        lemma_firsts(list, (n - 1) as nat, at);
        let i = choose|i: int| 0 <= i < before.len() && before[i] == list[at].0;
        assert(all[i] == before[i]);
    } else {
        lemma_first_position(list, list[at].0.name, 0, at);
        assert(all[before.len() as int] == list[at].0);
    }
}

/// Of the actions of one name the first is kept, and each later one is told of
/// as a duplicate, with the pointer of the first.
pub proof fn law_later_declarations_are_duplicates(
    list: Seq<(ActionView, ByteSpan)>,
    first: int,
    later: int,
)
    requires
        0 <= first < list.len(),
        forall|k: int| 0 <= k < first ==> (#[trigger] list[k]).0.name != list[first].0.name,
    ensures
        firsts(list, list.len()).contains(list[first].0),
        first < later < list.len() && list[later].0.name == list[first].0.name ==> exists|i: int|
            #![trigger repeated(list, list.len())[i]]
            0 <= i < repeated(list, list.len()).len() && {
                &&& repeated(list, list.len())[i].name == list[later].0.name
                &&& repeated(list, list.len())[i].pointer == list[later].0.pointer
                &&& repeated(list, list.len())[i].first_pointer == list[first].0.pointer
                &&& repeated(list, list.len())[i].span == list[later].1
            },
{
    lemma_firsts(list, list.len(), first);
    if first < later < list.len() && list[later].0.name == list[first].0.name {
        lemma_repeated(list, list.len(), first, later);
    }
}

} // verus!
