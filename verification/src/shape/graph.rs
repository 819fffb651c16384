//! Searches over the run-after graph.
//!
//! Actions depend on the actions that their `runAfter` names. The searches
//! here decide which actions come before which, and whether a branch runs in
//! parallel with another that nothing joins.

use vstd::prelude::*;

use crate::text::{
    eq_ignoring_case, has_prefix, owned, same_ignoring_case, starts_with, text2, text_eq, texts,
};
use crate::workflow::{ActionInfo, ActionKind, RunAfterDependency};

verus! {

/// The names that a list of edges points to, in order.
pub open spec fn targets(edges: Seq<RunAfterDependency>) -> Seq<Seq<char>> {
    Seq::new(edges.len(), |i: int| edges[i].dependency@)
}

/// Position of the first action called `name` in `container`, from `from` on.
pub open spec fn position_in(
    list: Seq<ActionInfo>,
    container: Seq<char>,
    name: Seq<char>,
    from: int,
) -> Option<int>
    decreases list.len() - from,
{
    if from < 0 || from >= list.len() {
        None
    } else if list[from].container_pointer@ == container && list[from].name@ == name {
        Some(from)
    } else {
        position_in(list, container, name, from + 1)
    }
}

/// Position of the first action called `name`, from `from` on.
pub open spec fn position_named(list: Seq<ActionInfo>, name: Seq<char>, from: int) -> Option<int>
    decreases list.len() - from,
{
    if from < 0 || from >= list.len() {
        None
    } else if list[from].name@ == name {
        Some(from)
    } else {
        position_named(list, name, from + 1)
    }
}

/// Position of the first action at `pointer`, from `from` on.
pub open spec fn position_at(list: Seq<ActionInfo>, pointer: Seq<char>, from: int) -> Option<int>
    decreases list.len() - from,
{
    if from < 0 || from >= list.len() {
        None
    } else if list[from].pointer@ == pointer {
        Some(from)
    } else {
        position_at(list, pointer, from + 1)
    }
}

/// The names that the action called `name` in `container` runs after.
pub open spec fn predecessors(
    list: Seq<ActionInfo>,
    container: Seq<char>,
    name: Seq<char>,
) -> Seq<Seq<char>> {
    match position_in(list, container, name, 0) {
        Some(i) => targets(list[i].run_after@),
        None => Seq::empty(),
    }
}

/// The names that the action called `name` runs after, whatever its container.
pub open spec fn predecessors_anywhere(list: Seq<ActionInfo>, name: Seq<char>) -> Seq<Seq<char>> {
    match position_named(list, name, 0) {
        Some(i) => targets(list[i].run_after@),
        None => Seq::empty(),
    }
}

/// Each name of `path` after the first is a predecessor of the one before it.
pub open spec fn is_chain(list: Seq<ActionInfo>, container: Seq<char>, path: Seq<Seq<char>>) -> bool {
    forall|i: int|
        0 <= i < path.len() - 1 ==> predecessors(list, container, #[trigger] path[i]).contains(
            path[i + 1],
        )
}

/// `name` runs after `target`, directly or through other actions.
pub open spec fn depends_on(
    list: Seq<ActionInfo>,
    container: Seq<char>,
    name: Seq<char>,
    target: Seq<char>,
) -> bool {
    exists|path: Seq<Seq<char>>|
        path.len() >= 2 && path[0] == name && path.last() == target && #[trigger] is_chain(
            list,
            container,
            path,
        )
}

/// How many of the first `n` actions have a name that is not in `seen`.
pub open spec fn unseen_names(list: Seq<ActionInfo>, n: nat, seen: Seq<Seq<char>>) -> nat
    decreases n,
{
    if n == 0 {
        0
    } else {
        unseen_names(list, (n - 1) as nat, seen) + (if seen.contains(list[n - 1].name@) {
            0nat
        } else {
            1
        })
    }
}

/// How many of the first `n` actions have a pointer that is not in `seen`.
pub open spec fn unseen_pointers(list: Seq<ActionInfo>, n: nat, seen: Seq<Seq<char>>) -> nat
    decreases n,
{
    if n == 0 {
        0
    } else {
        unseen_pointers(list, (n - 1) as nat, seen) + (if seen.contains(list[n - 1].pointer@) {
            0nat
        } else {
            1
        })
    }
}

/// Everything in `small` is in `large`.
pub open spec fn within(small: Seq<Seq<char>>, large: Seq<Seq<char>>) -> bool {
    forall|x: Seq<char>| #[trigger] small.contains(x) ==> large.contains(x)
}

proof fn lemma_unseen_names(list: Seq<ActionInfo>, n: nat, small: Seq<Seq<char>>, large: Seq<
    Seq<char>,
>, k: int)
    requires
        n <= list.len(),
        within(small, large),
    ensures
        unseen_names(list, n, large) <= unseen_names(list, n, small),
        0 <= k < n && !small.contains(list[k].name@) && large.contains(list[k].name@)
            ==> unseen_names(list, n, large) < unseen_names(list, n, small),
    decreases n,
{
    if n > 0 {
        lemma_unseen_names(list, (n - 1) as nat, small, large, k);
    }
}

proof fn lemma_unseen_pointers(list: Seq<ActionInfo>, n: nat, small: Seq<Seq<char>>, large: Seq<
    Seq<char>,
>, k: int)
    requires
        n <= list.len(),
        within(small, large),
    ensures
        unseen_pointers(list, n, large) <= unseen_pointers(list, n, small),
        0 <= k < n && !small.contains(list[k].pointer@) && large.contains(list[k].pointer@)
            ==> unseen_pointers(list, n, large) < unseen_pointers(list, n, small),
    decreases n,
{
    if n > 0 {
        lemma_unseen_pointers(list, (n - 1) as nat, small, large, k);
    }
}

proof fn lemma_unseen_bound(list: Seq<ActionInfo>, n: nat, seen: Seq<Seq<char>>)
    ensures
        unseen_pointers(list, n, seen) <= n,
    decreases n,
{
    if n > 0 {
        lemma_unseen_bound(list, (n - 1) as nat, seen);
    }
}

proof fn lemma_position_in(list: Seq<ActionInfo>, container: Seq<char>, name: Seq<char>, from: int)
    ensures
        match position_in(list, container, name, from) {
            Some(i) => from <= i < list.len() && list[i].container_pointer@ == container
                && list[i].name@ == name,
            None => true,
        },
    decreases list.len() - from,
{
    if 0 <= from < list.len() && !(list[from].container_pointer@ == container && list[from].name@
        == name) {
        lemma_position_in(list, container, name, from + 1);
    }
}

fn find_in(list: &Vec<ActionInfo>, container: &str, name: &str) -> (found: Option<usize>)
    ensures
        match found {
            Some(i) => position_in(list@, container@, name@, 0) == Some(i as int) && i
                < list@.len() && list@[i as int].container_pointer@ == container@
                && list@[i as int].name@ == name@,
            None => position_in(list@, container@, name@, 0) is None,
        },
{
    let mut i: usize = 0;
    while i < list.len()
        invariant
            i <= list.len(),
            position_in(list@, container@, name@, 0) == position_in(
                list@,
                container@,
                name@,
                i as int,
            ),
        decreases list.len() - i,
    {
        if text_eq(list[i].container_pointer.as_str(), container) && text_eq(
            list[i].name.as_str(),
            name,
        ) {
            return Some(i);
        }
        i += 1;
    }
    None
}

/// Position of the first action called `name`.
pub fn find_named(list: &Vec<ActionInfo>, name: &str) -> (found: Option<usize>)
    ensures
        match found {
            Some(i) => position_named(list@, name@, 0) == Some(i as int) && i < list@.len()
                && list@[i as int].name@ == name@,
            None => position_named(list@, name@, 0) is None,
        },
{
    let mut i: usize = 0;
    while i < list.len()
        invariant
            i <= list.len(),
            position_named(list@, name@, 0) == position_named(list@, name@, i as int),
        decreases list.len() - i,
    {
        if text_eq(list[i].name.as_str(), name) {
            return Some(i);
        }
        i += 1;
    }
    None
}

/// Position of the first action at `pointer`.
pub fn find_at(list: &Vec<ActionInfo>, pointer: &str) -> (found: Option<usize>)
    ensures
        match found {
            Some(i) => position_at(list@, pointer@, 0) == Some(i as int) && i < list@.len()
                && list@[i as int].pointer@ == pointer@,
            None => position_at(list@, pointer@, 0) is None,
        },
{
    let mut i: usize = 0;
    while i < list.len()
        invariant
            i <= list.len(),
            position_at(list@, pointer@, 0) == position_at(list@, pointer@, i as int),
        decreases list.len() - i,
    {
        if text_eq(list[i].pointer.as_str(), pointer) {
            return Some(i);
        }
        i += 1;
    }
    None
}

/// `text` is in the list.
pub fn holds_text(list: &Vec<String>, text: &str) -> (found: bool)
    ensures
        found == texts(list@).contains(text@),
{
    let mut i: usize = 0;
    while i < list.len()
        invariant
            i <= list.len(),
            forall|j: int| 0 <= j < i ==> #[trigger] texts(list@)[j] != text@,
        decreases list.len() - i,
    {
        if text_eq(list[i].as_str(), text) {
            assert(texts(list@)[i as int] == text@);
            return true;
        }
        i += 1;
    }
    false
}

fn add_text(list: &mut Vec<String>, text: &str)
    ensures
        texts(final(list)@) == texts(old(list)@).push(text@),
        forall|x: Seq<char>|
            #[trigger] texts(final(list)@).contains(x) <==> texts(old(list)@).contains(x) || x
                == text@,
{
    let ghost before = texts(list@);
    list.push(owned(text));
    proof {
        assert(texts(list@) =~= before.push(text@));
        let after = texts(list@);
        assert forall|x: Seq<char>| #[trigger] after.contains(x) <==> before.contains(x) || x
            == text@ by {
            if before.contains(x) {
                let i = choose|i: int| 0 <= i < before.len() && before[i] == x;
                assert(after[i] == x);
            }
            if x == text@ {
                assert(after[before.len() as int] == x);
            }
        }
    }
}

/// What a finished search from some names leaves behind: every name that it
/// added has all its predecessors seen, and `target` is none of them.
spec fn settled(
    list: Seq<ActionInfo>,
    container: Seq<char>,
    target: Seq<char>,
    before: Seq<Seq<char>>,
    after: Seq<Seq<char>>,
) -> bool {
    forall|x: Seq<char>|
        #[trigger] after.contains(x) && !before.contains(x) ==> within(
            predecessors(list, container, x),
            after,
        ) && !predecessors(list, container, x).contains(target)
}

proof fn lemma_chain_step(
    list: Seq<ActionInfo>,
    container: Seq<char>,
    name: Seq<char>,
    next: Seq<char>,
    target: Seq<char>,
)
    requires
        predecessors(list, container, name).contains(next),
        next == target || depends_on(list, container, next, target),
    ensures
        depends_on(list, container, name, target),
{
    if next == target {
        let path = seq![name, target];
        assert(path[0] == name && path[1] == next);
        assert(is_chain(list, container, path));
    } else {
        let rest = choose|path: Seq<Seq<char>>|
            path.len() >= 2 && path[0] == next && path.last() == target && #[trigger] is_chain(
                list,
                container,
                path,
            );
        let path = seq![name] + rest;
        assert forall|i: int| 0 <= i < path.len() - 1 implies predecessors(
            list,
            container,
            #[trigger] path[i],
        ).contains(path[i + 1]) by {
            if i > 0 {
                assert(path[i] == rest[i - 1]);
                assert(path[i + 1] == rest[i]);
            } else {
                assert(path[1] == rest[0]);
            }
        }
        assert(path.last() == target);
        assert(is_chain(list, container, path));
    }
}

/// From a name that a settled search has seen, the target cannot be reached.
proof fn lemma_settled(
    list: Seq<ActionInfo>,
    container: Seq<char>,
    target: Seq<char>,
    seen: Seq<Seq<char>>,
    path: Seq<Seq<char>>,
)
    requires
        settled(list, container, target, Seq::empty(), seen),
        path.len() >= 2,
        seen.contains(path[0]),
        is_chain(list, container, path),
    ensures
        path.last() != target,
    decreases path.len(),
{
    assert(!Seq::<Seq<char>>::empty().contains(path[0]));
    assert(predecessors(list, container, path[0]).contains(path[1]));
    if path.len() > 2 {
        let rest = path.skip(1);
        assert forall|i: int| 0 <= i < rest.len() - 1 implies predecessors(
            list,
            container,
            #[trigger] rest[i],
        ).contains(rest[i + 1]) by {
            assert(rest[i] == path[i + 1]);
            assert(rest[i + 1] == path[i + 1 + 1]);
        }
        assert(rest.last() == path.last());
        lemma_settled(list, container, target, seen, rest);
    }
}

fn search(
    name: &str,
    target: &str,
    container: &str,
    list: &Vec<ActionInfo>,
    visited: &mut Vec<String>,
) -> (found: bool)
    ensures
        within(texts(old(visited)@), texts(final(visited)@)),
        texts(final(visited)@).contains(name@),
        found ==> texts(old(visited)@).contains(name@) || depends_on(
            list@,
            container@,
            name@,
            target@,
        ),
        found ==> !texts(old(visited)@).contains(name@),
        !found ==> settled(
            list@,
            container@,
            target@,
            texts(old(visited)@),
            texts(final(visited)@),
        ),
    decreases unseen_names(list@, list@.len(), texts(old(visited)@)),
{
    let ghost before = texts(visited@);
    if holds_text(visited, name) {
        return false;
    }
    add_text(visited, name);
    let ghost entered = texts(visited@);
    match find_in(list, container, name) {
        None => {
            assert(predecessors(list@, container@, name@) =~= Seq::<Seq<char>>::empty());
            false
        },
        Some(position) => {
            proof {
                lemma_unseen_names(list@, list@.len(), before, entered, position as int);
            }
            let edges = &list[position].run_after;
            let ghost all = targets(edges@);
            assert(all == predecessors(list@, container@, name@));
            let mut i: usize = 0;
            while i < edges.len()
                invariant
                    i <= edges.len(),
                    all == targets(edges@),
                    all == predecessors(list@, container@, name@),
                    before == texts(old(visited)@),
                    !before.contains(name@),
                    within(before, entered),
                    within(entered, texts(visited@)),
                    entered.contains(name@),
                    forall|x: Seq<char>|
                        #[trigger] entered.contains(x) <==> before.contains(x) || x == name@,
                    unseen_names(list@, list@.len(), entered) < unseen_names(
                        list@,
                        list@.len(),
                        before,
                    ),
                    settled(list@, container@, target@, entered, texts(visited@)),
                    forall|j: int|
                        0 <= j < i ==> #[trigger] all[j] != target@ && texts(visited@).contains(
                            all[j],
                        ),
                decreases edges.len() - i,
            {
                let next = edges[i].dependency.as_str();
                assert(all[i as int] == next@);
                assert(all.contains(next@));
                if text_eq(next, target) {
                    proof {
                        lemma_chain_step(list@, container@, name@, next@, target@);
                    }
                    return true;
                }
                let ghost now = texts(visited@);
                proof {
                    lemma_unseen_names(list@, list@.len(), entered, now, 0);
                }
                if search(next, target, container, list, visited) {
                    proof {
                        lemma_chain_step(list@, container@, name@, next@, target@);
                    }
                    return true;
                }
                proof {
                    let after = texts(visited@);
                    assert forall|x: Seq<char>| #[trigger]
                        after.contains(x) && !entered.contains(x) implies within(
                        predecessors(list@, container@, x),
                        after,
                    ) && !predecessors(list@, container@, x).contains(target@) by {
                        if now.contains(x) {
                            assert(within(predecessors(list@, container@, x), now));
                        }
                    }
                }
                i += 1;
            }
            proof {
                let after = texts(visited@);
                assert forall|x: Seq<char>| #[trigger]
                    after.contains(x) && !before.contains(x) implies within(
                    predecessors(list@, container@, x),
                    after,
                ) && !predecessors(list@, container@, x).contains(target@) by {
                    if x == name@ {
                        assert forall|y: Seq<char>| #[trigger] all.contains(y) implies
                            after.contains(y) && y != target@ by {
                            let j = choose|j: int| 0 <= j < all.len() && all[j] == y;
                            assert(all[j] != target@ && after.contains(all[j]));
                        }
                    }
                }
            }
            false
        },
    }
}

/// `action_name` runs after `dependency_name`, directly or through others.
pub fn action_depends_on(
    action_name: &str,
    dependency_name: &str,
    container_pointer: &str,
    list: &Vec<ActionInfo>,
) -> (holds: bool)
    ensures
        holds == depends_on(list@, container_pointer@, action_name@, dependency_name@),
{
    let mut visited: Vec<String> = Vec::new();
    assert(texts(visited@) =~= Seq::<Seq<char>>::empty());
    let found = search(action_name, dependency_name, container_pointer, list, &mut visited);
    proof {
        let seen = texts(visited@);
        if !found && depends_on(list@, container_pointer@, action_name@, dependency_name@) {
            let path = choose|path: Seq<Seq<char>>|
                path.len() >= 2 && path[0] == action_name@ && path.last() == dependency_name@
                    && #[trigger] is_chain(list@, container_pointer@, path);
            lemma_settled(list@, container_pointer@, dependency_name@, seen, path);
        }
    }
    found
}

/// Two edges can both be taken: one of them names no status, or they share one.
pub open spec fn statuses_overlap(left: &RunAfterDependency, right: &RunAfterDependency) -> bool {
    ||| left.statuses@.len() == 0
    ||| right.statuses@.len() == 0
    ||| exists|i: int, j: int|
        0 <= i < left.statuses@.len() && 0 <= j < right.statuses@.len() && same_ignoring_case(
            (#[trigger] left.statuses@[i])@,
            (#[trigger] right.statuses@[j])@,
        )
}

/// Some edge of `right` has the target of `edge` and can be taken with it.
pub open spec fn shares_edge(edge: &RunAfterDependency, right: Seq<RunAfterDependency>) -> bool {
    exists|j: int|
        0 <= j < right.len() && edge.dependency@ == (#[trigger] right[j]).dependency@
            && statuses_overlap(edge, &right[j])
}

/// The target of the first edge of `left`, from `from` on, that `right` shares.
pub open spec fn shared_target(
    left: Seq<RunAfterDependency>,
    right: Seq<RunAfterDependency>,
    from: int,
) -> Option<Seq<char>>
    decreases left.len() - from,
{
    if from < 0 || from >= left.len() {
        None
    } else if shares_edge(&left[from], right) {
        Some(left[from].dependency@)
    } else {
        shared_target(left, right, from + 1)
    }
}

fn run_after_dependency_statuses_overlap(
    left: &RunAfterDependency,
    right: &RunAfterDependency,
) -> (holds: bool)
    ensures
        holds == statuses_overlap(left, right),
{
    if left.statuses.len() == 0 || right.statuses.len() == 0 {
        return true;
    }
    let mut i: usize = 0;
    while i < left.statuses.len()
        invariant
            i <= left.statuses@.len(),
            forall|a: int, b: int|
                0 <= a < i && 0 <= b < right.statuses@.len() ==> !same_ignoring_case(
                    (#[trigger] left.statuses@[a])@,
                    (#[trigger] right.statuses@[b])@,
                ),
        decreases left.statuses@.len() - i,
    {
        let mut j: usize = 0;
        while j < right.statuses.len()
            invariant
                i < left.statuses@.len(),
                j <= right.statuses@.len(),
                forall|b: int|
                    0 <= b < j ==> !same_ignoring_case(
                        left.statuses@[i as int]@,
                        (#[trigger] right.statuses@[b])@,
                    ),
            decreases right.statuses@.len() - j,
        {
            if eq_ignoring_case(left.statuses[i].as_str(), right.statuses[j].as_str()) {
                return true;
            }
            j += 1;
        }
        i += 1;
    }
    false
}

/// The first dependency of `left` that `right` shares.
pub fn run_after_dependencies_overlap(
    left: &Vec<RunAfterDependency>,
    right: &Vec<RunAfterDependency>,
) -> (shared: Option<String>)
    ensures
        match shared {
            Some(name) => shared_target(left@, right@, 0) == Some(name@),
            None => shared_target(left@, right@, 0) is None,
        },
{
    let mut i: usize = 0;
    while i < left.len()
        invariant
            i <= left.len(),
            shared_target(left@, right@, 0) == shared_target(left@, right@, i as int),
        decreases left.len() - i,
    {
        let mut j: usize = 0;
        while j < right.len()
            invariant
                i < left.len(),
                j <= right.len(),
                shared_target(left@, right@, 0) == shared_target(left@, right@, i as int),
                forall|b: int|
                    0 <= b < j ==> !(left@[i as int].dependency@ == (
                    #[trigger] right@[b]).dependency@ && statuses_overlap(
                        &left@[i as int],
                        &right@[b],
                    )),
            decreases right.len() - j,
        {
            if text_eq(left[i].dependency.as_str(), right[j].dependency.as_str())
                && run_after_dependency_statuses_overlap(&left[i], &right[j]) {
                assert(shares_edge(&left@[i as int], right@));
                return Some(left[i].dependency.clone());
            }
            j += 1;
        }
        assert(!shares_edge(&left@[i as int], right@));
        i += 1;
    }
    None
}

/// Another action stands in the same container.
pub open spec fn are_siblings(left: &ActionInfo, right: &ActionInfo) -> bool {
    left.pointer@ != right.pointer@ && left.container_pointer@ == right.container_pointer@
}

/// The first sibling of `action`, from `from` on, that also runs after nothing.
pub open spec fn idle_sibling(list: Seq<ActionInfo>, action: &ActionInfo, from: int) -> Option<
    Seq<char>,
>
    decreases list.len() - from,
{
    if from < 0 || from >= list.len() {
        None
    } else if are_siblings(&list[from], action) && list[from].run_after@.len() == 0 {
        Some(list[from].name@)
    } else {
        idle_sibling(list, action, from + 1)
    }
}

/// The dependency that `action` shares with its first sibling that shares one.
pub open spec fn racing_dependency(list: Seq<ActionInfo>, action: &ActionInfo, from: int) -> Option<
    Seq<char>,
>
    decreases list.len() - from,
{
    if from < 0 || from >= list.len() {
        None
    } else if are_siblings(&list[from], action) && shared_target(
        action.run_after@,
        list[from].run_after@,
        0,
    ) is Some {
        shared_target(action.run_after@, list[from].run_after@, 0)
    } else {
        racing_dependency(list, action, from + 1)
    }
}

/// What names the fork at which `action` runs in parallel with a sibling.
pub open spec fn fork_of(list: Seq<ActionInfo>, action: &ActionInfo) -> Option<Seq<char>> {
    if action.run_after@.len() == 0 && idle_sibling(list, action, 0) is Some {
        idle_sibling(list, action, 0)
    } else {
        racing_dependency(list, action, 0)
    }
}

/// `candidate` is one of the branches that fork where `action` does.
pub open spec fn is_branch(candidate: &ActionInfo, action: &ActionInfo) -> bool {
    &&& candidate.container_pointer@ == action.container_pointer@
    &&& if action.run_after@.len() == 0 {
        candidate.run_after@.len() == 0
    } else {
        candidate.pointer@ == action.pointer@ || shared_target(
            action.run_after@,
            candidate.run_after@,
            0,
        ) is Some
    }
}

/// How many of the first `n` actions are branches that fork where `action` does.
pub open spec fn branch_count(list: Seq<ActionInfo>, n: nat, action: &ActionInfo) -> nat
    decreases n,
{
    if n == 0 {
        0
    } else {
        branch_count(list, (n - 1) as nat, action) + (if is_branch(&list[n - 1], action) {
            1nat
        } else {
            0
        })
    }
}

/// One of `joins` is the branch or runs after it.
pub open spec fn is_covered(list: Seq<ActionInfo>, branch: &ActionInfo, joins: Seq<Seq<char>>) -> bool {
    exists|k: int|
        0 <= k < joins.len() && (#[trigger] joins[k] == branch.name@ || depends_on(
            list,
            branch.container_pointer@,
            joins[k],
            branch.name@,
        ))
}

/// There are several branches, and `joins` waits for each of them.
pub open spec fn is_joined(list: Seq<ActionInfo>, action: &ActionInfo, joins: Seq<Seq<char>>) -> bool {
    &&& branch_count(list, list.len(), action) > 1
    &&& forall|i: int|
        0 <= i < list.len() && is_branch(#[trigger] &list[i], action) ==> is_covered(
            list,
            &list[i],
            joins,
        )
}

/// Result of a search for an open fork: the fork, and the actions seen.
pub struct ForkSearch {
    pub fork: Option<Seq<char>>,
    pub seen: Seq<Seq<char>>,
}

/// The first fork that `joins` leaves open, at the action at `index` or at an
/// action it runs after, depth first; `depth` bounds the search.
pub open spec fn open_fork(
    list: Seq<ActionInfo>,
    index: int,
    seen: Seq<Seq<char>>,
    joins: Seq<Seq<char>>,
    depth: nat,
) -> ForkSearch
    decreases depth, 1nat, 0int,
{
    if depth == 0 || index < 0 || index >= list.len() || seen.contains(list[index].pointer@) {
        ForkSearch { fork: None, seen }
    } else {
        let entered = seen.push(list[index].pointer@);
        match fork_of(list, &list[index]) {
            Some(fork) => if is_joined(list, &list[index], joins) {
                open_fork_before(list, index, 0, entered, joins, depth)
            } else {
                ForkSearch { fork: Some(fork), seen: entered }
            },
            None => open_fork_before(list, index, 0, entered, joins, depth),
        }
    }
}

/// The first open fork at the actions that the action at `index` runs after,
/// from edge `edge` on.
pub open spec fn open_fork_before(
    list: Seq<ActionInfo>,
    index: int,
    edge: int,
    seen: Seq<Seq<char>>,
    joins: Seq<Seq<char>>,
    depth: nat,
) -> ForkSearch
    decreases depth, 0nat, list[index].run_after@.len() - edge,
{
    if depth == 0 || edge < 0 || edge >= list[index].run_after@.len() {
        ForkSearch { fork: None, seen }
    } else {
        match position_in(
            list,
            list[index].container_pointer@,
            list[index].run_after@[edge].dependency@,
            0,
        ) {
            Some(upstream) => {
                let result = open_fork(list, upstream, seen, joins, (depth - 1) as nat);
                if result.fork is Some {
                    result
                } else {
                    open_fork_before(list, index, edge + 1, result.seen, joins, depth)
                }
            },
            None => open_fork_before(list, index, edge + 1, seen, joins, depth),
        }
    }
}

/// The fork of the parallel branches that the action at `pointer` stands in
/// without joining them.
pub open spec fn parallel_dependency(list: Seq<ActionInfo>, pointer: Seq<char>) -> Option<Seq<char>> {
    match position_at(list, pointer, 0) {
        Some(index) => open_fork(
            list,
            index,
            Seq::empty(),
            targets(list[index].run_after@),
            list.len() + 1,
        ).fork,
        None => None,
    }
}

fn parallel_sibling_dependency(action: &ActionInfo, list: &Vec<ActionInfo>) -> (fork: Option<
    String,
>)
    ensures
        match fork {
            Some(name) => fork_of(list@, action) == Some(name@),
            None => fork_of(list@, action) is None,
        },
{
    if action.run_after.len() == 0 {
        let mut i: usize = 0;
        while i < list.len()
            invariant
                i <= list.len(),
                action.run_after@.len() == 0,
                idle_sibling(list@, action, 0) == idle_sibling(list@, action, i as int),
            decreases list.len() - i,
        {
            let sibling = &list[i];
            if !text_eq(sibling.pointer.as_str(), action.pointer.as_str()) && text_eq(
                sibling.container_pointer.as_str(),
                action.container_pointer.as_str(),
            ) && sibling.run_after.len() == 0 {
                return Some(sibling.name.clone());
            }
            i += 1;
        }
    }
    let mut i: usize = 0;
    while i < list.len()
        invariant
            i <= list.len(),
            fork_of(list@, action) == racing_dependency(list@, action, 0),
            racing_dependency(list@, action, 0) == racing_dependency(list@, action, i as int),
        decreases list.len() - i,
    {
        let sibling = &list[i];
        if !text_eq(sibling.pointer.as_str(), action.pointer.as_str()) && text_eq(
            sibling.container_pointer.as_str(),
            action.container_pointer.as_str(),
        ) {
            if let Some(dependency) = run_after_dependencies_overlap(
                &action.run_after,
                &sibling.run_after,
            ) {
                return Some(dependency);
            }
        }
        i += 1;
    }
    None
}

fn is_parallel_branch(candidate: &ActionInfo, action: &ActionInfo) -> (holds: bool)
    ensures
        holds == is_branch(candidate, action),
{
    if !text_eq(candidate.container_pointer.as_str(), action.container_pointer.as_str()) {
        return false;
    }
    if action.run_after.len() == 0 {
        candidate.run_after.len() == 0
    } else {
        text_eq(candidate.pointer.as_str(), action.pointer.as_str())
            || run_after_dependencies_overlap(&action.run_after, &candidate.run_after).is_some()
    }
}

fn branch_is_covered_by_join(
    branch: &ActionInfo,
    list: &Vec<ActionInfo>,
    joins: &Vec<String>,
) -> (holds: bool)
    ensures
        holds == is_covered(list@, branch, texts(joins@)),
{
    let mut k: usize = 0;
    while k < joins.len()
        invariant
            k <= joins.len(),
            forall|j: int|
                0 <= j < k ==> !(#[trigger] texts(joins@)[j] == branch.name@ || depends_on(
                    list@,
                    branch.container_pointer@,
                    texts(joins@)[j],
                    branch.name@,
                )),
        decreases joins.len() - k,
    {
        let join = joins[k].as_str();
        assert(texts(joins@)[k as int] == join@);
        if text_eq(join, branch.name.as_str()) || action_depends_on(
            join,
            branch.name.as_str(),
            branch.container_pointer.as_str(),
            list,
        ) {
            return true;
        }
        k += 1;
    }
    false
}

fn parallel_group_is_joined(
    action: &ActionInfo,
    list: &Vec<ActionInfo>,
    joins: &Vec<String>,
) -> (holds: bool)
    ensures
        holds == is_joined(list@, action, texts(joins@)),
{
    let mut count: usize = 0;
    let mut i: usize = 0;
    while i < list.len()
        invariant
            i <= list.len(),
            count <= i,
            count == branch_count(list@, i as nat, action),
            forall|j: int|
                0 <= j < i && is_branch(#[trigger] &list@[j], action) ==> is_covered(
                    list@,
                    &list@[j],
                    texts(joins@),
                ),
        decreases list.len() - i,
    {
        if is_parallel_branch(&list[i], action) {
            if !branch_is_covered_by_join(&list[i], list, joins) {
                assert(is_branch(&list@[i as int], action));
                return false;
            }
            count += 1;
        }
        i += 1;
    }
    count > 1
}

fn response_parallel_dependency_from_action(
    index: usize,
    list: &Vec<ActionInfo>,
    visited: &mut Vec<String>,
    joins: &Vec<String>,
    Ghost(depth): Ghost<nat>,
) -> (fork: Option<String>)
    requires
        index < list@.len(),
        unseen_pointers(list@, list@.len(), texts(old(visited)@)) < depth,
    ensures
        within(texts(old(visited)@), texts(final(visited)@)),
        ({
            let result = open_fork(
                list@,
                index as int,
                texts(old(visited)@),
                texts(joins@),
                depth,
            );
            &&& result.seen == texts(final(visited)@)
            &&& match fork {
                Some(name) => result.fork == Some(name@),
                None => result.fork is None,
            }
        }),
    decreases depth,
{
    let action = &list[index];
    let ghost before = texts(visited@);
    if holds_text(visited, action.pointer.as_str()) {
        return None;
    }
    add_text(visited, action.pointer.as_str());
    let ghost entered = texts(visited@);
    if let Some(fork) = parallel_sibling_dependency(action, list) {
        if !parallel_group_is_joined(action, list, joins) {
            return Some(fork);
        }
    }
    proof {
        lemma_unseen_pointers(list@, list@.len(), before, entered, index as int);
    }
    let ghost whole = open_fork_before(list@, index as int, 0, entered, texts(joins@), depth);
    assert(open_fork(list@, index as int, before, texts(joins@), depth) == whole);
    let mut edge: usize = 0;
    while edge < action.run_after.len()
        invariant
            edge <= action.run_after@.len(),
            index < list@.len(),
            action == &list@[index as int],
            depth > 0,
            within(before, entered),
            within(entered, texts(visited@)),
            unseen_pointers(list@, list@.len(), entered) < depth - 1,
            before == texts(old(visited)@),
            whole == open_fork(list@, index as int, before, texts(joins@), depth),
            whole == open_fork_before(
                list@,
                index as int,
                edge as int,
                texts(visited@),
                texts(joins@),
                depth,
            ),
        decreases action.run_after@.len() - edge,
    {
        let name = action.run_after[edge].dependency.as_str();
        if let Some(upstream) = find_in(list, action.container_pointer.as_str(), name) {
            let ghost now = texts(visited@);
            proof {
                lemma_unseen_pointers(list@, list@.len(), entered, now, 0);
            }
            let fork = response_parallel_dependency_from_action(
                upstream,
                list,
                visited,
                joins,
                Ghost((depth - 1) as nat),
            );
            if fork.is_some() {
                return fork;
            }
        }
        edge += 1;
    }
    None
}

/// If the action at `action_pointer` stands in a parallel branch that it does
/// not join, the dependency or sibling where the branches fork.
pub fn response_parallel_dependency(action_pointer: &str, list: &Vec<ActionInfo>) -> (fork: Option<
    String,
>)
    ensures
        match fork {
            Some(name) => parallel_dependency(list@, action_pointer@) == Some(name@),
            None => parallel_dependency(list@, action_pointer@) is None,
        },
{
    match find_at(list, action_pointer) {
        None => None,
        Some(index) => {
            let edges = &list[index].run_after;
            let mut joins: Vec<String> = Vec::new();
            let mut i: usize = 0;
            while i < edges.len()
                invariant
                    i <= edges.len(),
                    joins@.len() == i,
                    forall|j: int| 0 <= j < i ==> (#[trigger] joins@[j])@ == targets(edges@)[j],
                decreases edges.len() - i,
            {
                joins.push(edges[i].dependency.clone());
                i += 1;
            }
            assert(texts(joins@) =~= targets(edges@));
            let mut visited: Vec<String> = Vec::new();
            assert(texts(visited@) =~= Seq::<Seq<char>>::empty());
            proof {
                lemma_unseen_bound(list@, list@.len(), texts(visited@));
            }
            response_parallel_dependency_from_action(
                index,
                list,
                &mut visited,
                &joins,
                Ghost(list@.len() + 1),
            )
        },
    }
}

/// The first other action of the container, from `from` on, that runs after `action`.
pub open spec fn successor_from(list: Seq<ActionInfo>, action: &ActionInfo, from: int) -> Option<
    Seq<char>,
>
    decreases list.len() - from,
{
    if from < 0 || from >= list.len() {
        None
    } else if list[from].container_pointer@ == action.container_pointer@ && list[from].name@
        != action.name@ && depends_on(
        list,
        action.container_pointer@,
        list[from].name@,
        action.name@,
    ) {
        Some(list[from].name@)
    } else {
        successor_from(list, action, from + 1)
    }
}

/// The first action that runs after the action at `pointer`.
pub open spec fn successor_of(list: Seq<ActionInfo>, pointer: Seq<char>) -> Option<Seq<char>> {
    match position_at(list, pointer, 0) {
        Some(index) => successor_from(list, &list[index], 0),
        None => None,
    }
}

/// The first action that runs after the action at `action_pointer`.
pub fn stateless_response_successor(action_pointer: &str, list: &Vec<ActionInfo>) -> (found: Option<
    String,
>)
    ensures
        match found {
            Some(name) => successor_of(list@, action_pointer@) == Some(name@),
            None => successor_of(list@, action_pointer@) is None,
        },
{
    match find_at(list, action_pointer) {
        None => None,
        Some(index) => {
            let action = &list[index];
            let mut i: usize = 0;
            while i < list.len()
                invariant
                    i <= list.len(),
                    successor_of(list@, action_pointer@) == successor_from(
                        list@,
                        action,
                        i as int,
                    ),
                decreases list.len() - i,
            {
                let other = &list[i];
                if text_eq(
                    other.container_pointer.as_str(),
                    action.container_pointer.as_str(),
                ) && !text_eq(other.name.as_str(), action.name.as_str()) && action_depends_on(
                    other.name.as_str(),
                    action.name.as_str(),
                    action.container_pointer.as_str(),
                    list,
                ) {
                    return Some(other.name.clone());
                }
                i += 1;
            }
            None
        },
    }
}

/// The node at `inner` stands below the node at `outer`.
pub open spec fn encloses(outer: Seq<char>, inner: Seq<char>) -> bool {
    has_prefix(inner, outer + "/"@)
}

/// Some action that loops stands above `pointer`.
pub open spec fn in_loop(list: Seq<ActionInfo>, pointer: Seq<char>) -> bool {
    exists|i: int|
        0 <= i < list.len() && encloses((#[trigger] list[i]).pointer@, pointer) && (
        list[i].kind is Foreach || list[i].kind is Until)
}

fn pointer_encloses(outer: &str, inner: &str) -> (holds: bool)
    ensures
        holds == encloses(outer@, inner@),
{
    let prefix = text2(outer, "/");
    starts_with(inner, prefix.as_str())
}

/// True if `action_pointer` is below a `Foreach` or `Until` action.
pub fn action_is_nested_in_loop(list: &Vec<ActionInfo>, action_pointer: &str) -> (holds: bool)
    ensures
        holds == in_loop(list@, action_pointer@),
{
    let mut i: usize = 0;
    while i < list.len()
        invariant
            i <= list.len(),
            forall|j: int|
                0 <= j < i ==> !(encloses((#[trigger] list@[j]).pointer@, action_pointer@) && (
                list@[j].kind is Foreach || list@[j].kind is Until)),
        decreases list.len() - i,
    {
        if pointer_encloses(list[i].pointer.as_str(), action_pointer) && matches!(
            list[i].kind,
            ActionKind::Foreach | ActionKind::Until
        ) {
            return true;
        }
        i += 1;
    }
    false
}

/// A search for what precedes `action` starts at `name`: the action, or one
/// that it stands in, runs after it.
pub open spec fn is_start(list: Seq<ActionInfo>, action: &ActionInfo, name: Seq<char>) -> bool {
    ||| targets(action.run_after@).contains(name)
    ||| exists|i: int|
        0 <= i < list.len() && encloses((#[trigger] list[i]).pointer@, action.pointer@) && targets(
            list[i].run_after@,
        ).contains(name)
}

/// Each name of `path` after the first is what the action before it runs after.
pub open spec fn is_line(list: Seq<ActionInfo>, path: Seq<Seq<char>>) -> bool {
    forall|i: int|
        0 <= i < path.len() - 1 ==> predecessors_anywhere(list, #[trigger] path[i]).contains(
            path[i + 1],
        )
}

/// `name` is the wanted action or an action that it stands in.
pub open spec fn leads_to(list: Seq<ActionInfo>, name: Seq<char>, wanted: Seq<char>) -> bool {
    ||| name == wanted
    ||| match (position_named(list, name, 0), position_named(list, wanted, 0)) {
        (Some(i), Some(j)) => encloses(list[i].pointer@, list[j].pointer@),
        _ => false,
    }
}

/// Some line from a start ends at `wanted` or at an action that it stands in.
pub open spec fn comes_before(list: Seq<ActionInfo>, pointer: Seq<char>, wanted: Seq<char>) -> bool {
    match position_at(list, pointer, 0) {
        None => true,
        Some(index) => exists|path: Seq<Seq<char>>|
            path.len() > 0 && is_start(list, &list[index], path[0]) && #[trigger] is_line(
                list,
                path,
            ) && leads_to(list, path.last(), wanted),
    }
}

/// `name` ends a line from some start.
spec fn on_line(list: Seq<ActionInfo>, action: &ActionInfo, name: Seq<char>) -> bool {
    exists|path: Seq<Seq<char>>|
        path.len() > 0 && is_start(list, action, path[0]) && #[trigger] is_line(list, path)
            && path.last() == name
}

proof fn lemma_on_line_start(list: Seq<ActionInfo>, action: &ActionInfo, name: Seq<char>)
    requires
        is_start(list, action, name),
    ensures
        on_line(list, action, name),
{
    let path = seq![name];
    assert(path[0] == name && path.last() == name);
    assert(is_line(list, path));
}

proof fn lemma_on_line_step(
    list: Seq<ActionInfo>,
    action: &ActionInfo,
    name: Seq<char>,
    next: Seq<char>,
)
    requires
        on_line(list, action, name),
        predecessors_anywhere(list, name).contains(next),
    ensures
        on_line(list, action, next),
{
    let path = choose|path: Seq<Seq<char>>|
        path.len() > 0 && is_start(list, action, path[0]) && #[trigger] is_line(list, path)
            && path.last() == name;
    let longer = path.push(next);
    assert forall|i: int| 0 <= i < longer.len() - 1 implies predecessors_anywhere(
        list,
        #[trigger] longer[i],
    ).contains(longer[i + 1]) by {
        assert(longer[i] == path[i]);
        if i < path.len() - 1 {
            assert(longer[i + 1] == path[i + 1]);
        }
    }
    assert(longer.last() == next);
    assert(longer[0] == path[0]);
    assert(is_line(list, longer));
}

/// A set of names that holds every start and is closed holds every line.
proof fn lemma_closed_line(
    list: Seq<ActionInfo>,
    action: &ActionInfo,
    seen: Seq<Seq<char>>,
    path: Seq<Seq<char>>,
    i: int,
)
    requires
        forall|x: Seq<char>| #[trigger] is_start(list, action, x) ==> seen.contains(x),
        forall|x: Seq<char>| #[trigger]
            seen.contains(x) ==> within(predecessors_anywhere(list, x), seen),
        0 <= i < path.len(),
        is_start(list, action, path[0]),
        is_line(list, path),
    ensures
        seen.contains(path[i]),
    decreases i,
{
    if i > 0 {
        lemma_closed_line(list, action, seen, path, i - 1);
        assert(predecessors_anywhere(list, path[i - 1]).contains(path[i - 1 + 1]));
    }
}

fn push_targets(edges: &Vec<RunAfterDependency>, stack: &mut Vec<String>)
    ensures
        texts(final(stack)@) == texts(old(stack)@) + targets(edges@),
{
    let ghost before = texts(stack@);
    let mut i: usize = 0;
    assert(before + targets(edges@).take(0) =~= before);
    while i < edges.len()
        invariant
            i <= edges.len(),
            texts(stack@) == before + targets(edges@).take(i as int),
        decreases edges.len() - i,
    {
        let ghost now = texts(stack@);
        stack.push(edges[i].dependency.clone());
        assert(texts(stack@) =~= now.push(targets(edges@)[i as int]));
        assert(texts(stack@) =~= before + targets(edges@).take(i + 1));
        i += 1;
    }
    assert(targets(edges@).take(i as int) =~= targets(edges@));
}

fn dependency_matches(list: &Vec<ActionInfo>, candidate: &str, wanted: &str) -> (holds: bool)
    ensures
        holds == leads_to(list@, candidate@, wanted@),
{
    if text_eq(candidate, wanted) {
        return true;
    }
    match (find_named(list, candidate), find_named(list, wanted)) {
        (Some(i), Some(j)) => pointer_encloses(list[i].pointer.as_str(), list[j].pointer.as_str()),
        _ => false,
    }
}

proof fn lemma_member(left: Seq<Seq<char>>, right: Seq<Seq<char>>, x: Seq<char>)
    ensures
        (left + right).contains(x) <==> left.contains(x) || right.contains(x),
{
    let both = left + right;
    if left.contains(x) {
        let i = choose|i: int| 0 <= i < left.len() && left[i] == x;
        assert(both[i] == x);
    }
    if right.contains(x) {
        let i = choose|i: int| 0 <= i < right.len() && right[i] == x;
        assert(both[left.len() + i] == x);
    }
    if both.contains(x) {
        let i = choose|i: int| 0 <= i < both.len() && both[i] == x;
        if i < left.len() {
            assert(left[i] == x);
        } else {
            assert(right[i - left.len()] == x);
        }
    }
}

/// The names at which the search for what precedes `action` starts.
fn starts_of(list: &Vec<ActionInfo>, action: &ActionInfo) -> (stack: Vec<String>)
    ensures
        forall|x: Seq<char>| #[trigger]
            texts(stack@).contains(x) <==> is_start(list@, action, x),
{
    let mut stack: Vec<String> = Vec::new();
    push_targets(&action.run_after, &mut stack);
    assert(texts(stack@) =~= targets(action.run_after@));
    let mut i: usize = 0;
    while i < list.len()
        invariant
            i <= list.len(),
            forall|x: Seq<char>| #[trigger]
                texts(stack@).contains(x) <==> targets(action.run_after@).contains(x) || exists|
                    j: int,
                |
                    0 <= j < i && encloses((#[trigger] list@[j]).pointer@, action.pointer@)
                        && targets(list@[j].run_after@).contains(x),
        decreases list.len() - i,
    {
        let outer = &list[i];
        if pointer_encloses(outer.pointer.as_str(), action.pointer.as_str()) {
            let ghost before = texts(stack@);
            push_targets(&outer.run_after, &mut stack);
            proof {
                assert forall|x: Seq<char>| #[trigger]
                    texts(stack@).contains(x) <==> before.contains(x) || targets(
                        outer.run_after@,
                    ).contains(x) by {
                    lemma_member(before, targets(outer.run_after@), x);
                }
            }
        }
        i += 1;
    }
    stack
}

/// The action called `dependency_name`, or one that it stands in, comes
/// before the action at `action_pointer`.
pub fn javascript_explicit_dependency_precedes(
    list: &Vec<ActionInfo>,
    action_pointer: &str,
    dependency_name: &str,
) -> (holds: bool)
    ensures
        holds == comes_before(list@, action_pointer@, dependency_name@),
{
    let index = match find_at(list, action_pointer) {
        Some(index) => index,
        None => {
            return true;
        },
    };
    let action = &list[index];
    let mut stack = starts_of(list, action);
    let mut visited: Vec<String> = Vec::new();
    assert(texts(visited@) =~= Seq::<Seq<char>>::empty());
    proof {
        assert forall|x: Seq<char>| #[trigger] texts(stack@).contains(x) implies on_line(
            list@,
            action,
            x,
        ) by {
            lemma_on_line_start(list@, action, x);
        }
    }
    while stack.len() > 0
        invariant
            index < list@.len(),
            action == &list@[index as int],
            position_at(list@, action_pointer@, 0) == Some(index as int),
            forall|x: Seq<char>| #[trigger]
                texts(stack@).contains(x) ==> on_line(list@, action, x),
            forall|x: Seq<char>| #[trigger]
                is_start(list@, action, x) ==> texts(stack@).contains(x) || texts(
                    visited@,
                ).contains(x),
            forall|x: Seq<char>| #[trigger]
                texts(visited@).contains(x) ==> !leads_to(list@, x, dependency_name@),
            forall|x: Seq<char>, y: Seq<char>|
                #![trigger texts(visited@).contains(x), predecessors_anywhere(list@, x).contains(y)]
                texts(visited@).contains(x) && predecessors_anywhere(list@, x).contains(y)
                    ==> texts(stack@).contains(y) || texts(visited@).contains(y),
        decreases unseen_names(list@, list@.len(), texts(visited@)), stack@.len(),
    {
        let ghost pile = texts(stack@);
        let ghost seen = texts(visited@);
        let candidate = match stack.pop() {
            Some(name) => name,
            None => {
                return false;
            },
        };
        let ghost rest = texts(stack@);
        proof {
            assert(pile =~= rest.push(candidate@));
            assert(pile[rest.len() as int] == candidate@);
            assert(rest.push(candidate@) =~= rest + seq![candidate@]);
            assert(seq![candidate@][0] == candidate@);
            assert forall|x: Seq<char>| #[trigger] pile.contains(x) <==> rest.contains(x) || x
                == candidate@ by {
                lemma_member(rest, seq![candidate@], x);
                if seq![candidate@].contains(x) {
                }
                if x == candidate@ {
                    assert(seq![candidate@].contains(x));
                }
            }
            assert(pile.contains(candidate@));
            assert(on_line(list@, action, candidate@));
            assert forall|x: Seq<char>| #[trigger] rest.contains(x) implies on_line(
                list@,
                action,
                x,
            ) by {
                assert(pile.contains(x));
            }
        }
        if dependency_matches(list, candidate.as_str(), dependency_name) {
            proof {
                let path = choose|path: Seq<Seq<char>>|
                    path.len() > 0 && is_start(list@, action, path[0]) && #[trigger] is_line(
                        list@,
                        path,
                    ) && path.last() == candidate@;
                assert(is_line(list@, path));
            }
            return true;
        }
        if holds_text(&visited, candidate.as_str()) {
            continue;
        }
        add_text(&mut visited, candidate.as_str());
        match find_named(list, candidate.as_str()) {
            None => {
                proof {
                    lemma_unseen_names(list@, list@.len(), seen, texts(visited@), 0);
                    assert(predecessors_anywhere(list@, candidate@)
                        =~= Seq::<Seq<char>>::empty());
                }
            },
            Some(position) => {
                push_targets(&list[position].run_after, &mut stack);
                proof {
                    lemma_unseen_names(
                        list@,
                        list@.len(),
                        seen,
                        texts(visited@),
                        position as int,
                    );
                    let more = targets(list@[position as int].run_after@);
                    assert(more == predecessors_anywhere(list@, candidate@));
                    assert forall|x: Seq<char>| #[trigger]
                        texts(stack@).contains(x) <==> rest.contains(x) || more.contains(x) by {
                        lemma_member(rest, more, x);
                    }
                    assert forall|x: Seq<char>| #[trigger]
                        texts(stack@).contains(x) implies on_line(list@, action, x) by {
                        if more.contains(x) {
                            lemma_on_line_step(list@, action, candidate@, x);
                        } else {
                            assert(pile.contains(x));
                        }
                    }
                }
            },
        }
    }
    proof {
        let seen = texts(visited@);
        assert(texts(stack@) =~= Seq::<Seq<char>>::empty());
        assert forall|path: Seq<Seq<char>>|
            path.len() > 0 && is_start(list@, action, path[0]) && #[trigger] is_line(
                list@,
                path,
            ) implies !leads_to(list@, path.last(), dependency_name@) by {
            assert forall|x: Seq<char>| #[trigger] seen.contains(x) implies within(
                predecessors_anywhere(list@, x),
                seen,
            ) by {
                assert forall|y: Seq<char>| #[trigger]
                    predecessors_anywhere(list@, x).contains(y) implies seen.contains(y) by {
                    assert(texts(visited@).contains(x));
                }
            }
            lemma_closed_line(list@, action, seen, path, path.len() - 1);
        }
    }
    false
}

/// An action that runs after one that runs after another runs after that too.
pub proof fn law_depending_is_transitive(
    list: Seq<ActionInfo>,
    container: Seq<char>,
    first: Seq<char>,
    second: Seq<char>,
    third: Seq<char>,
)
    requires
        depends_on(list, container, first, second),
        depends_on(list, container, second, third),
    ensures
        depends_on(list, container, first, third),
{
    let front = choose|path: Seq<Seq<char>>|
        path.len() >= 2 && path[0] == first && path.last() == second && #[trigger] is_chain(
            list,
            container,
            path,
        );
    let back = choose|path: Seq<Seq<char>>|
        path.len() >= 2 && path[0] == second && path.last() == third && #[trigger] is_chain(
            list,
            container,
            path,
        );
    let whole = front + back.skip(1);
    assert forall|i: int| 0 <= i < whole.len() - 1 implies predecessors(
        list,
        container,
        #[trigger] whole[i],
    ).contains(whole[i + 1]) by {
        if i < front.len() - 1 {
            assert(whole[i] == front[i]);
            assert(whole[i + 1] == front[i + 1]);
        } else {
            let k = i - front.len() + 1;
            assert(whole[i] == back[k]);
            assert(whole[i + 1] == back[k + 1]);
        }
    }
    assert(is_chain(list, container, whole));
    assert(whole[0] == first);
    assert(whole.last() == third);
}

/// An action runs after each of its predecessors.
pub proof fn law_predecessors_come_before(
    list: Seq<ActionInfo>,
    container: Seq<char>,
    name: Seq<char>,
    target: Seq<char>,
)
    requires
        predecessors(list, container, name).contains(target),
    ensures
        depends_on(list, container, name, target),
{
    let path = seq![name, target];
    assert(is_chain(list, container, path));
    assert(path.last() == target);
}

} // verus!
