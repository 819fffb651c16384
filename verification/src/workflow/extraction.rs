//! Extraction of the graph summary from a definition.
//!
//! Template expressions are taken as plain strings here: without a template
//! there is nothing to resolve them in.

use vstd::prelude::*;

use crate::diagnostic::ByteSpan;
use crate::json::{
    as_array, as_object, as_string, field, get, get_string, joined, lemma_field_smaller,
    pointer_join, text_field, text_of, Json, Member, Node,
};
use crate::text::{
    eq_ignoring_case, in_list_ignoring_case, names, one_of_ignoring_case, owned,
    same_ignoring_case, text_eq, text_in, texts,
};
use crate::workflow::{
    action_kind, ActionInfo, ActionKind, DuplicateAction, InitializedVariable, RunAfterDependency,
    VariableTarget, VariableValue, Workflow, WorkflowKind,
};

verus! {

/// One `runAfter` edge, as a mathematical value.
pub struct DependencyView {
    pub dependency: Seq<char>,
    pub pointer: Seq<char>,
    pub span: ByteSpan,
    pub statuses: Seq<Seq<char>>,
}

/// What the summary says of an action, as a mathematical value.
pub struct ActionView {
    pub name: Seq<char>,
    pub pointer: Seq<char>,
    pub container_pointer: Seq<char>,
    pub depth: usize,
    pub action_type: Option<Seq<char>>,
    pub has_opaque_type: bool,
    pub kind: ActionKind,
    pub run_after: Seq<DependencyView>,
    pub has_opaque_run_after: bool,
    pub initialized_variables: Seq<(Seq<char>, Seq<char>)>,
    pub variable_target: Option<(Seq<char>, Seq<char>, ByteSpan)>,
    pub variable_value: Option<(Seq<Seq<char>>, Seq<char>, ByteSpan)>,
}

/// A later declaration of a name, as a mathematical value.
pub struct DuplicateView {
    pub name: Seq<char>,
    pub pointer: Seq<char>,
    pub first_pointer: Seq<char>,
    pub span: ByteSpan,
}

impl View for RunAfterDependency {
    type V = DependencyView;

    open spec fn view(&self) -> DependencyView {
        DependencyView {
            dependency: self.dependency@,
            pointer: self.pointer@,
            span: self.span,
            statuses: texts(self.statuses@),
        }
    }
}

impl View for DuplicateAction {
    type V = DuplicateView;

    open spec fn view(&self) -> DuplicateView {
        DuplicateView {
            name: self.name@,
            pointer: self.pointer@,
            first_pointer: self.first_pointer@,
            span: self.span,
        }
    }
}

/// The edges that a list of dependencies says.
pub open spec fn edges(list: Seq<RunAfterDependency>) -> Seq<DependencyView> {
    Seq::new(list.len(), |i: int| list[i]@)
}

/// The names and types of a list of variables.
pub open spec fn declared(list: Seq<InitializedVariable>) -> Seq<(Seq<char>, Seq<char>)> {
    Seq::new(list.len(), |i: int| (list[i].name@, list[i].variable_type@))
}

impl View for ActionInfo {
    type V = ActionView;

    open spec fn view(&self) -> ActionView {
        ActionView {
            name: self.name@,
            pointer: self.pointer@,
            container_pointer: self.container_pointer@,
            depth: self.depth,
            action_type: match self.action_type {
                Some(text) => Some(text@),
                None => None,
            },
            has_opaque_type: self.has_opaque_type,
            kind: self.kind,
            run_after: edges(self.run_after@),
            has_opaque_run_after: self.has_opaque_run_after,
            initialized_variables: declared(self.initialized_variables@),
            variable_target: match self.variable_target {
                Some(target) => Some((target.name@, target.pointer@, target.span)),
                None => None,
            },
            variable_value: match self.variable_value {
                Some(value) => Some((texts(value.values@), value.pointer@, value.span)),
                None => None,
            },
        }
    }
}

/// What a list of actions says, in order.
pub open spec fn summaries(list: Seq<ActionInfo>) -> Seq<ActionView> {
    Seq::new(list.len(), |i: int| list[i]@)
}

/// What a list of duplicates says, in order.
pub open spec fn repeats(list: Seq<DuplicateAction>) -> Seq<DuplicateView> {
    Seq::new(list.len(), |i: int| list[i]@)
}

/// The texts among the first `n` items.
pub open spec fn strings_among(items: Seq<Node>, n: nat) -> Seq<Seq<char>>
    decreases n,
{
    if n == 0 || n > items.len() {
        Seq::empty()
    } else {
        match text_of(&items[n - 1]) {
            Some(text) => strings_among(items, (n - 1) as nat).push(text),
            None => strings_among(items, (n - 1) as nat),
        }
    }
}

/// The statuses that a `runAfter` entry declares.
pub open spec fn statuses_of(value: &Node) -> Seq<Seq<char>> {
    match value.kind {
        Json::Array(items) => strings_among(items@, items@.len()),
        _ => Seq::empty(),
    }
}

/// The first `n` edges of a `runAfter` object at `pointer`.
pub open spec fn edge_list(members: Seq<Member>, n: nat, pointer: Seq<char>) -> Seq<DependencyView>
    decreases n,
{
    if n == 0 || n > members.len() {
        Seq::empty()
    } else {
        let member = members[n - 1];
        edge_list(members, (n - 1) as nat, pointer).push(
            DependencyView {
                dependency: member.name@,
                pointer: joined(pointer, member.name@),
                span: member.value.span,
                statuses: statuses_of(&member.value),
            },
        )
    }
}

/// The edges of an action.
pub open spec fn edges_of(action: &Node, pointer: Seq<char>) -> Seq<DependencyView> {
    match field(action, "runAfter"@) {
        Some(value) => match value.kind {
            Json::Object(members) => edge_list(
                members@,
                members@.len(),
                joined(pointer, "runAfter"@),
            ),
            _ => Seq::empty(),
        },
        None => Seq::empty(),
    }
}

/// The variable that an object declares by its name and type.
pub open spec fn declaration(value: &Node) -> Seq<(Seq<char>, Seq<char>)> {
    match (text_field(value, "name"@), text_field(value, "type"@)) {
        (Some(name), Some(variable_type)) => seq![(name, variable_type)],
        _ => Seq::empty(),
    }
}

/// The variables that the first `n` items declare.
pub open spec fn declaration_list(items: Seq<Node>, n: nat) -> Seq<(Seq<char>, Seq<char>)>
    decreases n,
{
    if n == 0 || n > items.len() {
        Seq::empty()
    } else {
        declaration_list(items, (n - 1) as nat) + declaration(&items[n - 1])
    }
}

/// The variables that an action initializes: the one that its inputs name, and
/// those that they list.
pub open spec fn variables_of(action: &Node, kind: Option<Seq<char>>) -> Seq<
    (Seq<char>, Seq<char>),
> {
    match (kind, field(action, "inputs"@)) {
        (Some(text), Some(inputs)) => if same_ignoring_case(text, "InitializeVariable"@) {
            declaration(&inputs) + match field(&inputs, "variables"@) {
                Some(list) => match list.kind {
                    Json::Array(items) => declaration_list(items@, items@.len()),
                    _ => Seq::empty(),
                },
                None => Seq::empty(),
            }
        } else {
            Seq::empty()
        },
        _ => Seq::empty(),
    }
}

/// The action types that change a variable.
pub open spec fn mutation_names() -> Seq<Seq<char>> {
    seq![
        "SetVariable"@,
        "AppendToArrayVariable"@,
        "AppendToStringVariable"@,
        "IncrementVariable"@,
        "DecrementVariable"@,
    ]
}

/// The variable that an action changes.
pub open spec fn target_of(action: &Node, pointer: Seq<char>, kind: Option<Seq<char>>) -> Option<
    (Seq<char>, Seq<char>, ByteSpan),
> {
    match (kind, field(action, "inputs"@)) {
        (Some(text), Some(inputs)) => match field(&inputs, "name"@) {
            Some(value) => match text_of(&value) {
                Some(name) => if one_of_ignoring_case(text, mutation_names()) {
                    Some((name, joined(joined(pointer, "inputs"@), "name"@), value.span))
                } else {
                    None
                },
                None => None,
            },
            None => None,
        },
        _ => None,
    }
}

/// The texts in a value, however deep, in order.
pub open spec fn leaves(value: &Node) -> Seq<Seq<char>>
    decreases value, 0nat,
{
    match value.kind {
        Json::String(text) => seq![text@],
        Json::Array(items) => item_leaves(items, items@.len()),
        Json::Object(members) => member_leaves(members, members@.len()),
        _ => Seq::empty(),
    }
}

/// The texts in the first `n` items.
pub open spec fn item_leaves(items: Vec<Node>, n: nat) -> Seq<Seq<char>>
    decreases items, n,
{
    if n == 0 || n > items@.len() {
        Seq::empty()
    } else {
        item_leaves(items, (n - 1) as nat) + leaves(&items[n - 1])
    }
}

/// The texts in the first `n` members.
pub open spec fn member_leaves(members: Vec<Member>, n: nat) -> Seq<Seq<char>>
    decreases members, n,
{
    if n == 0 || n > members@.len() {
        Seq::empty()
    } else {
        member_leaves(members, (n - 1) as nat) + leaves(&members[n - 1].value)
    }
}

/// The texts that an action assigns to a variable.
pub open spec fn value_of(action: &Node, pointer: Seq<char>, kind: Option<Seq<char>>) -> Option<
    (Seq<Seq<char>>, Seq<char>, ByteSpan),
> {
    match (kind, field(action, "inputs"@)) {
        (Some(text), Some(inputs)) => match field(&inputs, "value"@) {
            Some(value) => if same_ignoring_case(text, "SetVariable"@) {
                Some((leaves(&value), joined(joined(pointer, "inputs"@), "value"@), value.span))
            } else {
                None
            },
            None => None,
        },
        _ => None,
    }
}

/// One level deeper, as far as depths are counted.
pub open spec fn deeper(depth: usize) -> usize {
    if depth < usize::MAX {
        (depth + 1) as usize
    } else {
        depth
    }
}

/// What the summary says of one action.
pub open spec fn summary_of(
    action: &Node,
    name: Seq<char>,
    container: Seq<char>,
    depth: usize,
) -> ActionView {
    let pointer = joined(container, name);
    let kind = text_field(action, "type"@);
    ActionView {
        name,
        pointer,
        container_pointer: container,
        depth,
        action_type: kind,
        has_opaque_type: false,
        kind: action_kind(kind),
        run_after: edges_of(action, pointer),
        has_opaque_run_after: false,
        initialized_variables: variables_of(action, kind),
        variable_target: target_of(action, pointer, kind),
        variable_value: value_of(action, pointer, kind),
    }
}

/// The actions among the first `n` entries of a container, and below them.
pub open spec fn actions_among(
    members: Vec<Member>,
    n: nat,
    pointer: Seq<char>,
    depth: usize,
) -> Seq<(ActionView, ByteSpan)>
    decreases members, n,
{
    if n == 0 || n > members@.len() {
        Seq::empty()
    } else {
        actions_among(members, (n - 1) as nat, pointer, depth) + actions_of(
            &members[n - 1].value,
            members[n - 1].name@,
            pointer,
            depth,
        )
    }
}

/// An action and the actions below it.
pub open spec fn actions_of(
    action: &Node,
    name: Seq<char>,
    container: Seq<char>,
    depth: usize,
) -> Seq<(ActionView, ByteSpan)>
    decreases action, 2nat,
{
    if action.kind is Object {
        seq![(summary_of(action, name, container, depth), action.span)] + actions_below(
            action,
            joined(container, name),
            action_kind(text_field(action, "type"@)),
            deeper(depth),
        )
    } else {
        Seq::empty()
    }
}

/// The actions below an action of the given class.
pub open spec fn actions_below(
    action: &Node,
    pointer: Seq<char>,
    kind: ActionKind,
    depth: usize,
) -> Seq<(ActionView, ByteSpan)>
    decreases action, 1nat,
{
    (if kind is Foreach || kind is If || kind is Scope || kind is Until {
        held_actions(action, pointer, depth)
    } else {
        Seq::empty()
    }) + (if kind is Switch {
        grouped_actions(action, "cases"@, pointer, depth)
    } else {
        Seq::empty()
    }) + (if kind is Switch {
        branch_actions(action, "default"@, pointer, depth)
    } else {
        Seq::empty()
    }) + (if kind is If {
        branch_actions(action, "else"@, pointer, depth)
    } else {
        Seq::empty()
    }) + (if kind is Agent {
        grouped_actions(action, "tools"@, pointer, depth)
    } else {
        Seq::empty()
    })
}

/// The actions in the `actions` of a value.
pub open spec fn held_actions(holder: &Node, pointer: Seq<char>, depth: usize) -> Seq<
    (ActionView, ByteSpan),
>
    decreases holder, 0nat,
{
    proof {
        lemma_field_smaller(holder, "actions"@);
    }
    match field(holder, "actions"@) {
        Some(value) => match value.kind {
            Json::Object(members) => actions_among(
                members,
                members@.len(),
                joined(pointer, "actions"@),
                depth,
            ),
            _ => Seq::empty(),
        },
        None => Seq::empty(),
    }
}

/// The actions of a branch.
pub open spec fn branch_actions(
    action: &Node,
    key: Seq<char>,
    pointer: Seq<char>,
    depth: usize,
) -> Seq<(ActionView, ByteSpan)>
    decreases action, 0nat,
{
    proof {
        lemma_field_smaller(action, key);
    }
    match field(action, key) {
        Some(branch) => held_actions(&branch, joined(pointer, key), depth),
        None => Seq::empty(),
    }
}

/// The actions of a group of cases or tools.
pub open spec fn grouped_actions(
    action: &Node,
    key: Seq<char>,
    pointer: Seq<char>,
    depth: usize,
) -> Seq<(ActionView, ByteSpan)>
    decreases action, 0nat,
{
    proof {
        lemma_field_smaller(action, key);
    }
    match field(action, key) {
        Some(group) => match group.kind {
            Json::Object(members) => group_actions(
                members,
                members@.len(),
                joined(pointer, key),
                depth,
            ),
            _ => Seq::empty(),
        },
        None => Seq::empty(),
    }
}

/// The actions of the first `n` cases or tools.
pub open spec fn group_actions(
    members: Vec<Member>,
    n: nat,
    base: Seq<char>,
    depth: usize,
) -> Seq<(ActionView, ByteSpan)>
    decreases members, n,
{
    if n == 0 || n > members@.len() {
        Seq::empty()
    } else {
        group_actions(members, (n - 1) as nat, base, depth) + held_actions(
            &members[n - 1].value,
            joined(base, members[n - 1].name@),
            depth,
        )
    }
}

/// Every action of a definition, with its place.
pub open spec fn all_actions(definition: &Node, pointer: Seq<char>) -> Seq<
    (ActionView, ByteSpan),
> {
    held_actions(definition, pointer, 1)
}

/// The position of the first action with a name, at or after `from`; the
/// number of actions where there is none.
pub open spec fn position_of(list: Seq<(ActionView, ByteSpan)>, name: Seq<char>, from: int) -> int
    decreases list.len() - from,
{
    if from < 0 || from >= list.len() || list[from].0.name == name {
        from
    } else {
        position_of(list, name, from + 1)
    }
}

/// The first action of each name among the first `n`.
pub open spec fn firsts(list: Seq<(ActionView, ByteSpan)>, n: nat) -> Seq<ActionView>
    decreases n,
{
    if n == 0 || n > list.len() {
        Seq::empty()
    } else if position_of(list, list[n - 1].0.name, 0) == n - 1 {
        firsts(list, (n - 1) as nat).push(list[n - 1].0)
    } else {
        firsts(list, (n - 1) as nat)
    }
}

/// The later declarations of each name among the first `n`.
pub open spec fn repeated(list: Seq<(ActionView, ByteSpan)>, n: nat) -> Seq<DuplicateView>
    decreases n,
{
    if n == 0 || n > list.len() {
        Seq::empty()
    } else {
        let first = position_of(list, list[n - 1].0.name, 0);
        if first < n - 1 {
            repeated(list, (n - 1) as nat).push(
                DuplicateView {
                    name: list[n - 1].0.name,
                    pointer: list[n - 1].0.pointer,
                    first_pointer: list[first].0.pointer,
                    span: list[n - 1].1,
                },
            )
        } else {
            repeated(list, (n - 1) as nat)
        }
    }
}

/// The actions alone.
pub open spec fn without_places(list: Seq<(ActionView, ByteSpan)>) -> Seq<ActionView> {
    Seq::new(list.len(), |i: int| list[i].0)
}

/// The names of a section's entries, in order.
pub open spec fn entry_names(definition: &Node, key: Seq<char>) -> Seq<Seq<char>> {
    match field(definition, key) {
        Some(section) => match section.kind {
            Json::Object(members) => Seq::new(members@.len(), |i: int| members@[i].name@),
            _ => Seq::empty(),
        },
        None => Seq::empty(),
    }
}

/// The names of the first `n` members that have a field.
pub open spec fn names_having(members: Seq<Member>, n: nat, key: Seq<char>) -> Seq<Seq<char>>
    decreases n,
{
    if n == 0 || n > members.len() {
        Seq::empty()
    } else if field(&members[n - 1].value, key) is Some {
        names_having(members, (n - 1) as nat, key).push(members[n - 1].name@)
    } else {
        names_having(members, (n - 1) as nat, key)
    }
}

/// The names of the triggers that have a field.
pub open spec fn triggers_having(definition: &Node, key: Seq<char>) -> Seq<Seq<char>> {
    match field(definition, "triggers"@) {
        Some(section) => match section.kind {
            Json::Object(members) => names_having(members@, members@.len(), key),
            _ => Seq::empty(),
        },
        None => Seq::empty(),
    }
}

/// The names and types of the first `n` members whose type is a text.
pub open spec fn types_among(members: Seq<Member>, n: nat) -> Seq<(Seq<char>, Seq<char>)>
    decreases n,
{
    if n == 0 || n > members.len() {
        Seq::empty()
    } else {
        match text_field(&members[n - 1].value, "type"@) {
            Some(kind) => types_among(members, (n - 1) as nat).push((members[n - 1].name@, kind)),
            None => types_among(members, (n - 1) as nat),
        }
    }
}

/// The names and types of the triggers whose type is a text.
pub open spec fn trigger_types_of(definition: &Node) -> Seq<(Seq<char>, Seq<char>)> {
    match field(definition, "triggers"@) {
        Some(section) => match section.kind {
            Json::Object(members) => types_among(members@, members@.len()),
            _ => Seq::empty(),
        },
        None => Seq::empty(),
    }
}

/// A list of pairs of texts, as mathematical values.
pub open spec fn text_pairs(list: Seq<(String, String)>) -> Seq<(Seq<char>, Seq<char>)> {
    Seq::new(list.len(), |i: int| (list[i].0@, list[i].1@))
}

/// An action with the range it occupies.
#[derive(Debug)]
struct PlacedAction {
    info: ActionInfo,
    span: ByteSpan,
}

closed spec fn placed(list: Seq<PlacedAction>) -> Seq<(ActionView, ByteSpan)> {
    Seq::new(list.len(), |i: int| (list[i].info@, list[i].span))
}

broadcast proof fn lemma_regroup(
    a: Seq<(ActionView, ByteSpan)>,
    b: Seq<(ActionView, ByteSpan)>,
    c: Seq<(ActionView, ByteSpan)>,
)
    ensures
        #[trigger] (a + (b + c)) == (a + b) + c,
{
    assert(a + (b + c) =~= (a + b) + c);
}

broadcast proof fn lemma_then_none(a: Seq<(ActionView, ByteSpan)>)
    ensures
        #[trigger] (a + Seq::<(ActionView, ByteSpan)>::empty()) == a,
{
    assert(a + Seq::<(ActionView, ByteSpan)>::empty() =~= a);
}

broadcast proof fn lemma_after_none(a: Seq<(ActionView, ByteSpan)>)
    ensures
        #[trigger] (Seq::<(ActionView, ByteSpan)>::empty() + a) == a,
{
    assert(Seq::<(ActionView, ByteSpan)>::empty() + a =~= a);
}

broadcast group group_placed {
    lemma_regroup,
    lemma_then_none,
    lemma_after_none,
}

fn texts_copied(list: &Vec<String>) -> (copy: Vec<String>)
    ensures
        texts(copy@) == texts(list@),
{
    let mut copy: Vec<String> = Vec::new();
    let mut i: usize = 0;
    while i < list.len()
        invariant
            i <= list.len(),
            texts(copy@) == texts(list@).take(i as int),
        decreases list.len() - i,
    {
        let text = list[i].clone();
        let ghost before = copy@;
        copy.push(text);
        assert(texts(copy@) =~= texts(before).push(text@));
        assert(texts(list@).take(i + 1) =~= texts(list@).take(i as int).push(list@[i as int]@));
        i += 1;
    }
    assert(texts(list@).take(i as int) =~= texts(list@));
    copy
}

fn edges_copied(list: &Vec<RunAfterDependency>) -> (copy: Vec<RunAfterDependency>)
    ensures
        edges(copy@) == edges(list@),
{
    let mut copy: Vec<RunAfterDependency> = Vec::new();
    let mut i: usize = 0;
    while i < list.len()
        invariant
            i <= list.len(),
            edges(copy@) == edges(list@).take(i as int),
        decreases list.len() - i,
    {
        let edge = RunAfterDependency {
            dependency: list[i].dependency.clone(),
            pointer: list[i].pointer.clone(),
            span: list[i].span,
            statuses: texts_copied(&list[i].statuses),
        };
        let ghost before = copy@;
        copy.push(edge);
        assert(edges(copy@) =~= edges(before).push(edge@));
        assert(edges(list@).take(i + 1) =~= edges(list@).take(i as int).push(list@[i as int]@));
        i += 1;
    }
    assert(edges(list@).take(i as int) =~= edges(list@));
    copy
}

fn variables_copied(list: &Vec<InitializedVariable>) -> (copy: Vec<InitializedVariable>)
    ensures
        declared(copy@) == declared(list@),
{
    let mut copy: Vec<InitializedVariable> = Vec::new();
    let mut i: usize = 0;
    while i < list.len()
        invariant
            i <= list.len(),
            declared(copy@) == declared(list@).take(i as int),
        decreases list.len() - i,
    {
        let variable = InitializedVariable {
            name: list[i].name.clone(),
            variable_type: list[i].variable_type.clone(),
        };
        let ghost before = copy@;
        copy.push(variable);
        assert(declared(copy@) =~= declared(before).push((variable.name@, variable.variable_type@)));
        assert(declared(list@).take(i + 1) =~= declared(list@).take(i as int).push((list@[i as int].name@, list@[i as int].variable_type@)));
        i += 1;
    }
    assert(declared(list@).take(i as int) =~= declared(list@));
    copy
}

impl ActionInfo {
    /// A summary that says the same.
    pub fn duplicate(&self) -> (copy: ActionInfo)
        ensures
            copy@ == self@,
    {
        ActionInfo {
            name: self.name.clone(),
            pointer: self.pointer.clone(),
            container_pointer: self.container_pointer.clone(),
            depth: self.depth,
            action_type: match &self.action_type {
                Some(text) => Some(text.clone()),
                None => None,
            },
            has_opaque_type: self.has_opaque_type,
            kind: self.kind,
            run_after: edges_copied(&self.run_after),
            has_opaque_run_after: self.has_opaque_run_after,
            initialized_variables: variables_copied(&self.initialized_variables),
            variable_target: match &self.variable_target {
                Some(target) => Some(
                    VariableTarget {
                        name: target.name.clone(),
                        pointer: target.pointer.clone(),
                        span: target.span,
                    },
                ),
                None => None,
            },
            variable_value: match &self.variable_value {
                Some(value) => Some(
                    VariableValue {
                        values: texts_copied(&value.values),
                        pointer: value.pointer.clone(),
                        span: value.span,
                    },
                ),
                None => None,
            },
        }
    }
}

fn collect_statuses(value: &Node) -> (list: Vec<String>)
    ensures
        texts(list@) == statuses_of(value),
{
    let mut list: Vec<String> = Vec::new();
    assert(texts(list@) =~= Seq::empty());
    if let Some(items) = as_array(value) {
        let mut i: usize = 0;
        while i < items.len()
            invariant
                i <= items.len(),
                texts(list@) == strings_among(items@, i as nat),
            decreases items.len() - i,
        {
            if let Some(text) = as_string(&items[i]) {
                let ghost before = list@;
                list.push(owned(text));
                assert(texts(list@) =~= texts(before).push(text@));
            }
            i += 1;
        }
    }
    list
}

/// Collect the `runAfter` edges of an action.
fn collect_run_after(action: &Node, pointer: &str) -> (list: Vec<RunAfterDependency>)
    ensures
        edges(list@) == edges_of(action, pointer@),
{
    let mut list: Vec<RunAfterDependency> = Vec::new();
    assert(edges(list@) =~= Seq::empty());
    if let Some(value) = get(action, "runAfter") {
        if let Some(members) = as_object(value) {
            let base = pointer_join(pointer, "runAfter");
            let mut i: usize = 0;
            while i < members.len()
                invariant
                    i <= members.len(),
                    base@ == joined(pointer@, "runAfter"@),
                    edges(list@) == edge_list(members@, i as nat, base@),
                decreases members.len() - i,
            {
                let name = members[i].name.as_str();
                let edge = RunAfterDependency {
                    dependency: owned(name),
                    pointer: pointer_join(base.as_str(), name),
                    span: members[i].value.span,
                    statuses: collect_statuses(&members[i].value),
                };
                let ghost before = list@;
                list.push(edge);
                assert(edges(list@) =~= edges(before).push(edge@));
                i += 1;
            }
        }
    }
    list
}

fn push_declaration(value: &Node, list: &mut Vec<InitializedVariable>)
    ensures
        declared(final(list)@) == declared(old(list)@) + declaration(value),
{
    let ghost before = list@;
    match (get_string(value, "name"), get_string(value, "type")) {
        (Some(name), Some(variable_type)) => {
            list.push(
                InitializedVariable { name: owned(name), variable_type: owned(variable_type) },
            );
        },
        _ => {},
    }
    assert(declared(list@) =~= declared(before) + declaration(value));
}

/// Collect the variables that an action initializes.
fn collect_variables(action: &Node, kind: Option<&str>) -> (list: Vec<InitializedVariable>)
    ensures
        declared(list@) == variables_of(action, text_in(kind)),
{
    let mut list: Vec<InitializedVariable> = Vec::new();
    assert(declared(list@) =~= Seq::empty());
    if let Some(text) = kind {
        if let Some(inputs) = get(action, "inputs") {
            if eq_ignoring_case(text, "InitializeVariable") {
                push_declaration(inputs, &mut list);
                let ghost first = declaration(inputs);
                assert(declared(list@) =~= first);
                assert(first + Seq::empty() =~= first);
                if let Some(value) = get(inputs, "variables") {
                    if let Some(items) = as_array(value) {
                        let mut i: usize = 0;
                        while i < items.len()
                            invariant
                                i <= items.len(),
                                declared(list@) == first + declaration_list(items@, i as nat),
                            decreases items.len() - i,
                        {
                            push_declaration(&items[i], &mut list);
                            assert(first + (declaration_list(items@, i as nat) + declaration(
                                &items@[i as int],
                            )) =~= first + declaration_list(items@, i as nat) + declaration(
                                &items@[i as int],
                            ));
                            i += 1;
                        }
                    }
                }
            }
        }
    }
    list
}

fn changes_variable(kind: &str) -> (holds: bool)
    ensures
        holds == one_of_ignoring_case(kind@, mutation_names()),
{
    let list = vec![
        "SetVariable",
        "AppendToArrayVariable",
        "AppendToStringVariable",
        "IncrementVariable",
        "DecrementVariable",
    ];
    assert(names(list@) =~= mutation_names());
    in_list_ignoring_case(kind, list.as_slice())
}

/// Find the variable that an action changes.
fn find_target(action: &Node, pointer: &str, kind: Option<&str>) -> (target: Option<VariableTarget>)
    ensures
        target_of(action, pointer@, text_in(kind)) == match target {
            Some(found) => Some((found.name@, found.pointer@, found.span)),
            None => None,
        },
{
    match (kind, get(action, "inputs")) {
        (Some(text), Some(inputs)) => match get(inputs, "name") {
            Some(value) => match as_string(value) {
                Some(name) => if changes_variable(text) {
                    let base = pointer_join(pointer, "inputs");
                    Some(
                        VariableTarget {
                            name: owned(name),
                            pointer: pointer_join(base.as_str(), "name"),
                            span: value.span,
                        },
                    )
                } else {
                    None
                },
                None => None,
            },
            None => None,
        },
        _ => None,
    }
}

/// Collect the texts in a value, however deep, in order.
pub fn collect_leaves(value: &Node, list: &mut Vec<String>)
    ensures
        texts(final(list)@) == texts(old(list)@) + leaves(value),
    decreases value, 0nat,
{
    let ghost before = list@;
    match &value.kind {
        Json::String(text) => {
            list.push(text.clone());
            assert(texts(list@) =~= texts(before) + leaves(value));
        },
        Json::Array(items) => {
            assert(decreases_to!(value.kind => value.kind->Array_0));
            collect_item_leaves(items, list);
        },
        Json::Object(members) => {
            assert(decreases_to!(value.kind => value.kind->Object_0));
            collect_member_leaves(members, list);
        },
        _ => {
            assert(texts(before) + leaves(value) =~= texts(before));
        },
    }
}

fn collect_item_leaves(items: &Vec<Node>, list: &mut Vec<String>)
    ensures
        texts(final(list)@) == texts(old(list)@) + item_leaves(*items, items@.len()),
    decreases items, 0nat,
{
    let ghost before = texts(list@);
    let mut i: usize = 0;
    assert(before + item_leaves(*items, 0) =~= before);
    while i < items.len()
        invariant
            i <= items.len(),
            texts(list@) == before + item_leaves(*items, i as nat),
        decreases items.len() - i,
    {
        assert(decreases_to!(items => items[i as int]));
        let ghost seen = item_leaves(*items, i as nat);
        collect_leaves(&items[i], list);
        assert(before + (seen + leaves(&items[i as int])) =~= before + seen + leaves(
            &items[i as int],
        ));
        i += 1;
    }
}

fn collect_member_leaves(members: &Vec<Member>, list: &mut Vec<String>)
    ensures
        texts(final(list)@) == texts(old(list)@) + member_leaves(*members, members@.len()),
    decreases members, 0nat,
{
    let ghost before = texts(list@);
    let mut i: usize = 0;
    assert(before + member_leaves(*members, 0) =~= before);
    while i < members.len()
        invariant
            i <= members.len(),
            texts(list@) == before + member_leaves(*members, i as nat),
        decreases members.len() - i,
    {
        assert(decreases_to!(members => members[i as int]));
        let ghost seen = member_leaves(*members, i as nat);
        collect_leaves(&members[i].value, list);
        assert(before + (seen + leaves(&members[i as int].value)) =~= before + seen + leaves(
            &members[i as int].value,
        ));
        i += 1;
    }
}

/// Collect the texts that an action assigns to a variable.
fn find_value(action: &Node, pointer: &str, kind: Option<&str>) -> (found: Option<VariableValue>)
    ensures
        value_of(action, pointer@, text_in(kind)) == match found {
            Some(value) => Some((texts(value.values@), value.pointer@, value.span)),
            None => None,
        },
{
    match (kind, get(action, "inputs")) {
        (Some(text), Some(inputs)) => match get(inputs, "value") {
            Some(value) => if eq_ignoring_case(text, "SetVariable") {
                let base = pointer_join(pointer, "inputs");
                let mut values: Vec<String> = Vec::new();
                collect_leaves(value, &mut values);
                assert(texts(values@) =~= leaves(value));
                Some(
                    VariableValue {
                        values,
                        pointer: pointer_join(base.as_str(), "value"),
                        span: value.span,
                    },
                )
            } else {
                None
            },
            None => None,
        },
        _ => None,
    }
}

fn summarize(action: &Node, name: &str, container: &str, depth: usize) -> (info: ActionInfo)
    ensures
        info@ == summary_of(action, name@, container@, depth),
{
    let pointer = pointer_join(container, name);
    let kind = get_string(action, "type");
    ActionInfo {
        name: owned(name),
        container_pointer: owned(container),
        depth,
        action_type: match kind {
            Some(text) => Some(owned(text)),
            None => None,
        },
        has_opaque_type: false,
        kind: ActionKind::from_action_type(kind),
        run_after: collect_run_after(action, pointer.as_str()),
        has_opaque_run_after: false,
        initialized_variables: collect_variables(action, kind),
        variable_target: find_target(action, pointer.as_str(), kind),
        variable_value: find_value(action, pointer.as_str(), kind),
        pointer,
    }
}

fn collect_actions(members: &Vec<Member>, pointer: &str, depth: usize, list: &mut Vec<PlacedAction>)
    ensures
        placed(final(list)@) == placed(old(list)@) + actions_among(
            *members,
            members@.len(),
            pointer@,
            depth,
        ),
    decreases members, 0nat,
{
    broadcast use group_placed;

    let ghost before = placed(list@);
    let mut i: usize = 0;
    while i < members.len()
        invariant
            i <= members.len(),
            placed(list@) == before + actions_among(*members, i as nat, pointer@, depth),
        decreases members.len() - i,
    {
        assert(decreases_to!(members => members[i as int]));
        collect_action(&members[i].value, members[i].name.as_str(), pointer, depth, list);
        i += 1;
    }
}

fn collect_action(
    action: &Node,
    name: &str,
    container: &str,
    depth: usize,
    list: &mut Vec<PlacedAction>,
)
    ensures
        placed(final(list)@) == placed(old(list)@) + actions_of(action, name@, container@, depth),
    decreases action, 2nat,
{
    broadcast use group_placed;

    if action.is_object() {
        let pointer = pointer_join(container, name);
        let ghost before = list@;
        let info = summarize(action, name, container, depth);
        let kind = info.kind;
        list.push(PlacedAction { info, span: action.span });
        assert(placed(list@) =~= placed(before) + seq![
            (summary_of(action, name@, container@, depth), action.span),
        ]);
        let below: usize = if depth < usize::MAX {
            depth + 1
        } else {
            depth
        };
        collect_below(action, pointer.as_str(), kind, below, list);
    }
}

fn collect_below(
    action: &Node,
    pointer: &str,
    kind: ActionKind,
    depth: usize,
    list: &mut Vec<PlacedAction>,
)
    ensures
        placed(final(list)@) == placed(old(list)@) + actions_below(action, pointer@, kind, depth),
    decreases action, 1nat,
{
    broadcast use group_placed;

    if kind.supports_actions_container() {
        collect_held(action, pointer, depth, list);
    }
    if kind.supports_cases_container() {
        collect_grouped(action, "cases", pointer, depth, list);
    }
    if kind.supports_default_container() {
        collect_branch(action, "default", pointer, depth, list);
    }
    if kind.supports_else_container() {
        collect_branch(action, "else", pointer, depth, list);
    }
    if kind.supports_tools_container() {
        collect_grouped(action, "tools", pointer, depth, list);
    }
}

fn collect_held(holder: &Node, pointer: &str, depth: usize, list: &mut Vec<PlacedAction>)
    ensures
        placed(final(list)@) == placed(old(list)@) + held_actions(holder, pointer@, depth),
    decreases holder, 0nat,
{
    broadcast use group_placed;

    proof {
        lemma_field_smaller(holder, "actions"@);
    }
    if let Some(value) = get(holder, "actions") {
        if let Some(members) = as_object(value) {
            assert(decreases_to!(value.kind => value.kind->Object_0));
            let base = pointer_join(pointer, "actions");
            collect_actions(members, base.as_str(), depth, list);
        }
    }
}

fn collect_branch(
    action: &Node,
    key: &str,
    pointer: &str,
    depth: usize,
    list: &mut Vec<PlacedAction>,
)
    ensures
        placed(final(list)@) == placed(old(list)@) + branch_actions(action, key@, pointer@, depth),
    decreases action, 0nat,
{
    broadcast use group_placed;

    proof {
        lemma_field_smaller(action, key@);
    }
    if let Some(branch) = get(action, key) {
        let base = pointer_join(pointer, key);
        collect_held(branch, base.as_str(), depth, list);
    }
}

fn collect_grouped(
    action: &Node,
    key: &str,
    pointer: &str,
    depth: usize,
    list: &mut Vec<PlacedAction>,
)
    ensures
        placed(final(list)@) == placed(old(list)@) + grouped_actions(action, key@, pointer@, depth),
    decreases action, 0nat,
{
    broadcast use group_placed;

    proof {
        lemma_field_smaller(action, key@);
    }
    if let Some(group) = get(action, key) {
        if let Some(members) = as_object(group) {
            assert(decreases_to!(group.kind => group.kind->Object_0));
            let base = pointer_join(pointer, key);
            collect_group(members, base.as_str(), depth, list);
        }
    }
}

fn collect_group(members: &Vec<Member>, base: &str, depth: usize, list: &mut Vec<PlacedAction>)
    ensures
        placed(final(list)@) == placed(old(list)@) + group_actions(
            *members,
            members@.len(),
            base@,
            depth,
        ),
    decreases members, 0nat,
{
    broadcast use group_placed;

    let ghost before = placed(list@);
    let mut i: usize = 0;
    while i < members.len()
        invariant
            i <= members.len(),
            placed(list@) == before + group_actions(*members, i as nat, base@, depth),
        decreases members.len() - i,
    {
        assert(decreases_to!(members => members[i as int]));
        let pointer = pointer_join(base, members[i].name.as_str());
        collect_held(&members[i].value, pointer.as_str(), depth, list);
        i += 1;
    }
}

fn find_position(list: &Vec<PlacedAction>, name: &str) -> (at: usize)
    ensures
        at == position_of(placed(list@), name@, 0),
        at <= list@.len(),
{
    let mut at: usize = 0;
    while at < list.len() && !text_eq(list[at].info.name.as_str(), name)
        invariant
            at <= list@.len(),
            position_of(placed(list@), name@, 0) == position_of(placed(list@), name@, at as int),
        decreases list@.len() - at,
    {
        at += 1;
    }
    at
}

fn all_infos(list: &Vec<PlacedAction>) -> (infos: Vec<ActionInfo>)
    ensures
        summaries(infos@) == without_places(placed(list@)),
{
    let mut infos: Vec<ActionInfo> = Vec::new();
    let mut i: usize = 0;
    while i < list.len()
        invariant
            i <= list.len(),
            summaries(infos@) == without_places(placed(list@)).take(i as int),
        decreases list.len() - i,
    {
        let info = list[i].info.duplicate();
        let ghost before = infos@;
        infos.push(info);
        assert(summaries(infos@) =~= summaries(before).push(info@));
        assert(without_places(placed(list@)).take(i + 1) =~= without_places(placed(list@)).take(i as int).push(list@[i as int].info@));
        i += 1;
    }
    assert(without_places(placed(list@)).take(i as int) =~= without_places(placed(list@)));
    infos
}

fn first_infos(list: &Vec<PlacedAction>) -> (infos: Vec<ActionInfo>)
    ensures
        summaries(infos@) == firsts(placed(list@), list@.len()),
{
    let mut infos: Vec<ActionInfo> = Vec::new();
    let mut i: usize = 0;
    assert(summaries(infos@) =~= Seq::empty());
    while i < list.len()
        invariant
            i <= list.len(),
            summaries(infos@) == firsts(placed(list@), i as nat),
        decreases list.len() - i,
    {
        assert(placed(list@)[i as int].0 == list@[i as int].info@);
        if find_position(list, list[i].info.name.as_str()) == i {
            let info = list[i].info.duplicate();
            let ghost before = infos@;
            infos.push(info);
            assert(summaries(infos@) =~= summaries(before).push(info@));
        }
        i += 1;
    }
    infos
}

fn repeated_infos(list: &Vec<PlacedAction>) -> (found: Vec<DuplicateAction>)
    ensures
        repeats(found@) == repeated(placed(list@), list@.len()),
{
    let mut found: Vec<DuplicateAction> = Vec::new();
    let mut i: usize = 0;
    assert(repeats(found@) =~= Seq::empty());
    while i < list.len()
        invariant
            i <= list.len(),
            repeats(found@) == repeated(placed(list@), i as nat),
        decreases list.len() - i,
    {
        assert(placed(list@)[i as int] == (list@[i as int].info@, list@[i as int].span));
        let first = find_position(list, list[i].info.name.as_str());
        if first < i {
            assert(placed(list@)[first as int].0 == list@[first as int].info@);
            let again = DuplicateAction {
                name: list[i].info.name.clone(),
                pointer: list[i].info.pointer.clone(),
                first_pointer: list[first].info.pointer.clone(),
                span: list[i].span,
            };
            let ghost before = found@;
            found.push(again);
            assert(repeats(found@) =~= repeats(before).push(again@));
        }
        i += 1;
    }
    found
}

fn section_names(definition: &Node, key: &str) -> (list: Vec<String>)
    ensures
        texts(list@) == entry_names(definition, key@),
{
    let mut list: Vec<String> = Vec::new();
    assert(texts(list@) =~= Seq::empty());
    if let Some(section) = get(definition, key) {
        if let Some(members) = as_object(section) {
            let ghost all = Seq::new(members@.len(), |k: int| members@[k].name@);
            let mut i: usize = 0;
            assert(all.take(0) =~= Seq::empty());
            while i < members.len()
                invariant
                    i <= members.len(),
                    all == Seq::new(members@.len(), |k: int| members@[k].name@),
                    texts(list@) == all.take(i as int),
                decreases members.len() - i,
            {
                let name = members[i].name.clone();
                let ghost before = list@;
                list.push(name);
                assert(texts(list@) =~= texts(before).push(name@));
                assert(all.take(i + 1) =~= all.take(i as int).push(members@[i as int].name@));
                i += 1;
            }
            assert(all.take(i as int) =~= all);
        }
    }
    list
}

fn triggers_with(definition: &Node, key: &str) -> (list: Vec<String>)
    ensures
        texts(list@) == triggers_having(definition, key@),
{
    let mut list: Vec<String> = Vec::new();
    assert(texts(list@) =~= Seq::empty());
    if let Some(section) = get(definition, "triggers") {
        if let Some(members) = as_object(section) {
            let mut i: usize = 0;
            while i < members.len()
                invariant
                    i <= members.len(),
                    texts(list@) == names_having(members@, i as nat, key@),
                decreases members.len() - i,
            {
                if get(&members[i].value, key).is_some() {
                    let name = members[i].name.clone();
                    let ghost before = list@;
                    list.push(name);
                    assert(texts(list@) =~= texts(before).push(name@));
                }
                i += 1;
            }
        }
    }
    list
}

fn trigger_type_list(definition: &Node) -> (list: Vec<(String, String)>)
    ensures
        text_pairs(list@) == trigger_types_of(definition),
{
    let mut list: Vec<(String, String)> = Vec::new();
    assert(text_pairs(list@) =~= Seq::empty());
    if let Some(section) = get(definition, "triggers") {
        if let Some(members) = as_object(section) {
            let mut i: usize = 0;
            while i < members.len()
                invariant
                    i <= members.len(),
                    text_pairs(list@) == types_among(members@, i as nat),
                decreases members.len() - i,
            {
                if let Some(kind) = get_string(&members[i].value, "type") {
                    let name = members[i].name.clone();
                    let ghost before = list@;
                    list.push((name, owned(kind)));
                    assert(text_pairs(list@) =~= text_pairs(before).push((name@, kind@)));
                }
                i += 1;
            }
        }
    }
    list
}

/// What a summary says is what a definition at `pointer` holds, template
/// expressions taken as plain strings.
pub open spec fn is_summary(workflow: Workflow, definition: &Node, pointer: Seq<char>) -> bool {
    let actions = all_actions(definition, pointer);
    &&& *workflow.definition == *definition
    &&& workflow.definition_pointer@ == pointer
    &&& summaries(workflow.action_list@) == without_places(actions)
    &&& summaries(workflow.actions@) == firsts(actions, actions.len())
    &&& repeats(workflow.duplicate_actions@) == repeated(actions, actions.len())
    &&& texts(workflow.triggers@) == entry_names(definition, "triggers"@)
    &&& text_pairs(workflow.trigger_types@) == trigger_types_of(definition)
    &&& workflow.triggers_with_opaque_type@.len() == 0
    &&& texts(workflow.triggers_with_split_on@) == triggers_having(definition, "splitOn"@)
    &&& texts(workflow.triggers_with_recurrence@) == triggers_having(definition, "recurrence"@)
    &&& texts(workflow.parameters@) == entry_names(definition, "parameters"@)
}

/// Extract the summary of a definition that stands alone.
///
/// Template expressions are taken as plain strings: nothing is marked as
/// opaque, because there is no template to resolve it in.
pub fn extract_definition<'a>(
    definition: &'a Node,
    definition_pointer: &str,
    kind: Option<WorkflowKind>,
) -> (workflow: Workflow<'a>)
    ensures
        workflow.definition == definition,
        workflow.kind == kind,
        is_summary(workflow, definition, definition_pointer@),
{
    let mut list: Vec<PlacedAction> = Vec::new();
    collect_held(definition, definition_pointer, 1, &mut list);
    proof {
        assert(placed(list@) =~= all_actions(definition, definition_pointer@));
    }
    Workflow {
        definition,
        definition_pointer: owned(definition_pointer),
        kind,
        actions: first_infos(&list),
        action_list: all_infos(&list),
        duplicate_actions: repeated_infos(&list),
        triggers: section_names(definition, "triggers"),
        trigger_types: trigger_type_list(definition),
        triggers_with_opaque_type: Vec::new(),
        triggers_with_split_on: triggers_with(definition, "splitOn"),
        triggers_with_recurrence: triggers_with(definition, "recurrence"),
        parameters: section_names(definition, "parameters"),
    }
}

/// Every action is either the first of its name or a later declaration.
pub proof fn law_each_action_is_first_or_repeated(list: Seq<(ActionView, ByteSpan)>, n: nat)
    requires
        n <= list.len(),
    ensures
        firsts(list, n).len() + repeated(list, n).len() == n,
    decreases n,
{
    if n > 0 {
        law_each_action_is_first_or_repeated(list, (n - 1) as nat);
        lemma_position(list, list[n - 1].0.name, 0, n - 1);
    }
}

proof fn lemma_position(list: Seq<(ActionView, ByteSpan)>, name: Seq<char>, from: int, at: int)
    requires
        0 <= from <= at < list.len(),
        list[at].0.name == name,
    ensures
        from <= position_of(list, name, from) <= at,
        list[position_of(list, name, from)].0.name == name,
        forall|i: int|
            from <= i < position_of(list, name, from) ==> (#[trigger] list[i]).0.name != name,
    decreases at - from,
{
    if list[from].0.name != name {
        lemma_position(list, name, from + 1, at);
    }
}

/// A name is kept for some position below `n`.
spec fn kept_below(list: Seq<(ActionView, ByteSpan)>, n: int, name: Seq<char>) -> bool {
    exists|i: int| 0 <= i < n && (#[trigger] list[i]).0.name == name
}

proof fn lemma_firsts_stand_below(list: Seq<(ActionView, ByteSpan)>, n: nat)
    requires
        n <= list.len(),
    ensures
        forall|k: int|
            0 <= k < firsts(list, n).len() ==> kept_below(
                list,
                n as int,
                (#[trigger] firsts(list, n)[k]).name,
            ),
    decreases n,
{
    if n > 0 {
        let less = (n - 1) as nat;
        lemma_firsts_stand_below(list, less);
        assert forall|k: int| 0 <= k < firsts(list, n).len() implies kept_below(
            list,
            n as int,
            (#[trigger] firsts(list, n)[k]).name,
        ) by {
            if k < firsts(list, less).len() {
                assert(firsts(list, n)[k] == firsts(list, less)[k]);
                let i = choose|i: int|
                    0 <= i < less && (#[trigger] list[i]).0.name == firsts(list, less)[k].name;
                assert(list[i].0.name == firsts(list, n)[k].name);
            } else {
                assert(list[n - 1].0.name == firsts(list, n)[k].name);
            }
        }
    }
}

/// No two of the first actions have the same name.
pub proof fn law_first_actions_differ_in_name(list: Seq<(ActionView, ByteSpan)>, n: nat)
    requires
        n <= list.len(),
    ensures
        forall|j: int, k: int|
            0 <= j < k < firsts(list, n).len() ==> (#[trigger] firsts(list, n)[j]).name != (
            #[trigger] firsts(list, n)[k]).name,
    decreases n,
{
    if n > 0 {
        let less = (n - 1) as nat;
        law_first_actions_differ_in_name(list, less);
        lemma_firsts_stand_below(list, less);
        lemma_position(list, list[n - 1].0.name, 0, n - 1);
        assert forall|j: int, k: int| 0 <= j < k < firsts(list, n).len() implies (
        #[trigger] firsts(list, n)[j]).name != (#[trigger] firsts(list, n)[k]).name by {
            assert(firsts(list, n)[j] == firsts(list, less)[j]);
            if k < firsts(list, less).len() {
                assert(firsts(list, n)[k] == firsts(list, less)[k]);
            } else {
                assert(kept_below(list, less as int, firsts(list, less)[j].name));
            }
        }
    }
}

} // verus!
