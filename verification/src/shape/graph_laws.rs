//! What the order of actions says about where an action stands.

use vstd::prelude::*;

use crate::shape::graph::{
    open_fork,
    branch_count,
    are_siblings, comes_before, depends_on, encloses, fork_of, idle_sibling, is_branch, is_chain,
    is_covered, is_joined, is_line, is_start, leads_to, open_fork_before, parallel_dependency,
    position_at, position_in, predecessors, racing_dependency, shared_target, shares_edge,
    statuses_overlap, successor_from, successor_of, targets,
};
use crate::text::{has_prefix, same_ignoring_case};
use crate::workflow::{ActionInfo, RunAfterDependency};

verus! {

/// The action at `at` is the first at its pointer.
pub open spec fn is_first_at(list: Seq<ActionInfo>, at: int) -> bool {
    &&& 0 <= at < list.len()
    &&& forall|i: int| 0 <= i < at ==> (#[trigger] list[i]).pointer@ != list[at].pointer@
}

/// The action at `at` is the first of its name in its container.
pub open spec fn is_first_called(list: Seq<ActionInfo>, at: int) -> bool {
    &&& 0 <= at < list.len()
    &&& forall|i: int|
        0 <= i < at ==> (#[trigger] list[i]).name@ != list[at].name@
            || list[i].container_pointer@ != list[at].container_pointer@
}

/// Two actions stand beside each other.
pub open spec fn stand_beside(left: ActionInfo, right: ActionInfo) -> bool {
    left.pointer@ != right.pointer@ && left.container_pointer@ == right.container_pointer@
}

/// Two edges lead to the same action and may both be taken: one names no
/// status, or they share one, whatever its case.
pub open spec fn may_race(left: RunAfterDependency, right: RunAfterDependency) -> bool {
    &&& left.dependency@ == right.dependency@
    &&& {
        ||| left.statuses@.len() == 0
        ||| right.statuses@.len() == 0
        ||| exists|i: int, j: int|
            0 <= i < left.statuses@.len() && 0 <= j < right.statuses@.len() && same_ignoring_case(
                (#[trigger] left.statuses@[i])@,
                (#[trigger] right.statuses@[j])@,
            )
    }
}

proof fn lemma_position_at(list: Seq<ActionInfo>, at: int, from: int)
    requires
        is_first_at(list, at),
        0 <= from <= at,
    ensures
        position_at(list, list[at].pointer@, from) == Some(at),
    decreases at - from,
{
    if from < at {
        lemma_position_at(list, at, from + 1);
    }
}

proof fn lemma_position_in(list: Seq<ActionInfo>, at: int, from: int)
    requires
        is_first_called(list, at),
        0 <= from <= at,
    ensures
        position_in(list, list[at].container_pointer@, list[at].name@, from) == Some(at),
    decreases at - from,
{
    if from < at {
        assert(list[from].name@ != list[at].name@ || list[from].container_pointer@
            != list[at].container_pointer@);
        lemma_position_in(list, at, from + 1);
    }
}

proof fn lemma_idle(list: Seq<ActionInfo>, action: ActionInfo, from: int)
    requires
        0 <= from,
    ensures
        (idle_sibling(list, &action, from) is Some) == exists|j: int|
            from <= j < list.len() && stand_beside(#[trigger] list[j], action)
                && list[j].run_after@.len() == 0,
    decreases list.len() - from,
{
    if from < list.len() {
        lemma_idle(list, action, from + 1);
        let here = stand_beside(list[from], action) && list[from].run_after@.len() == 0;
        assert(here == (are_siblings(&list[from], &action) && list[from].run_after@.len() == 0));
        if exists|j: int|
            from <= j < list.len() && stand_beside(#[trigger] list[j], action)
                && list[j].run_after@.len() == 0 {
            let j = choose|j: int|
                from <= j < list.len() && stand_beside(#[trigger] list[j], action)
                    && list[j].run_after@.len() == 0;
            if j > from {
                assert(idle_sibling(list, &action, from + 1) is Some);
            }
        }
    }
}

proof fn lemma_shared(
    left: Seq<RunAfterDependency>,
    right: Seq<RunAfterDependency>,
    from: int,
)
    requires
        0 <= from,
    ensures
        (shared_target(left, right, from) is Some) == exists|i: int, j: int|
            from <= i < left.len() && 0 <= j < right.len() && may_race(
                #[trigger] left[i],
                #[trigger] right[j],
            ),
    decreases left.len() - from,
{
    if from < left.len() {
        lemma_shared(left, right, from + 1);
        assert(shares_edge(&left[from], right) == exists|j: int|
            0 <= j < right.len() && may_race(left[from], #[trigger] right[j])) by {
            if shares_edge(&left[from], right) {
                let j = choose|j: int|
                    0 <= j < right.len() && left[from].dependency@ == (
                    #[trigger] right[j]).dependency@ && statuses_overlap(&left[from], &right[j]);
                assert(may_race(left[from], right[j]));
            }
            if exists|j: int| 0 <= j < right.len() && may_race(left[from], #[trigger] right[j]) {
                let j = choose|j: int|
                    0 <= j < right.len() && may_race(left[from], #[trigger] right[j]);
                assert(statuses_overlap(&left[from], &right[j]));
            }
        }
        if exists|i: int, j: int|
            from <= i < left.len() && 0 <= j < right.len() && may_race(
                #[trigger] left[i],
                #[trigger] right[j],
            ) {
            let (i, j) = choose|i: int, j: int|
                from <= i < left.len() && 0 <= j < right.len() && may_race(
                    #[trigger] left[i],
                    #[trigger] right[j],
                );
            if i > from {
                assert(shared_target(left, right, from + 1) is Some);
            }
        }
    }
}

proof fn lemma_racing(list: Seq<ActionInfo>, action: ActionInfo, from: int)
    requires
        0 <= from,
    ensures
        (racing_dependency(list, &action, from) is Some) == exists|k: int|
            from <= k < list.len() && stand_beside(#[trigger] list[k], action) && shared_target(
                action.run_after@,
                list[k].run_after@,
                0,
            ) is Some,
    decreases list.len() - from,
{
    if from < list.len() {
        lemma_racing(list, action, from + 1);
        assert(stand_beside(list[from], action) == are_siblings(&list[from], &action));
        if exists|k: int|
            from <= k < list.len() && stand_beside(#[trigger] list[k], action) && shared_target(
                action.run_after@,
                list[k].run_after@,
                0,
            ) is Some {
            let k = choose|k: int|
                from <= k < list.len() && stand_beside(#[trigger] list[k], action)
                    && shared_target(action.run_after@, list[k].run_after@, 0) is Some;
            if k > from {
                assert(racing_dependency(list, &action, from + 1) is Some);
            }
        }
    }
}

/// An action that waits for nothing runs in parallel exactly where another
/// beside it waits for nothing too.
pub proof fn law_idle_siblings_run_in_parallel(list: Seq<ActionInfo>, at: int)
    requires
        is_first_at(list, at),
        list[at].run_after@.len() == 0,
    ensures
        (parallel_dependency(list, list[at].pointer@) is Some) == exists|j: int|
            0 <= j < list.len() && stand_beside(#[trigger] list[j], list[at])
                && list[j].run_after@.len() == 0,
{
    let action = list[at];
    lemma_position_at(list, at, 0);
    lemma_idle(list, action, 0);
    lemma_racing(list, action, 0);
    let joins = targets(action.run_after@);
    assert(joins.len() == 0);
    assert(is_branch(&list[at], &action));
    assert(!is_covered(list, &list[at], joins));
    assert(!is_joined(list, &action, joins));
    assert forall|k: int| 0 <= k < list.len() implies shared_target(
        action.run_after@,
        (#[trigger] list[k]).run_after@,
        0,
    ) is None by {}
    let seen = Seq::<Seq<char>>::empty();
    let depth = (list.len() + 1) as nat;
    assert(!seen.contains(action.pointer@));
    assert(open_fork_before(list, at, 0, seen.push(action.pointer@), joins, depth).fork is None);
}

/// An action that waits for others, and for none that waits for it, runs in
/// parallel where another beside it may be started by the same end of the same
/// action.
pub proof fn law_racing_siblings_run_in_parallel(
    list: Seq<ActionInfo>,
    at: int,
    other: int,
    mine: int,
    theirs: int,
)
    requires
        is_first_at(list, at),
        0 <= other < list.len(),
        stand_beside(list[other], list[at]),
        0 <= mine < list[at].run_after@.len(),
        0 <= theirs < list[other].run_after@.len(),
        may_race(list[at].run_after@[mine], list[other].run_after@[theirs]),
        forall|i: int|
            0 <= i < list[at].run_after@.len() ==> {
                let target = (#[trigger] list[at].run_after@[i]).dependency@;
                &&& target != list[at].name@
                &&& !depends_on(list, list[at].container_pointer@, target, list[at].name@)
            },
    ensures
        parallel_dependency(list, list[at].pointer@) is Some,
{
    let action = list[at];
    lemma_position_at(list, at, 0);
    lemma_shared(action.run_after@, list[other].run_after@, 0);
    lemma_racing(list, action, 0);
    assert(fork_of(list, &action) is Some);
    let joins = targets(action.run_after@);
    assert(is_branch(&list[at], &action));
    assert(!is_covered(list, &list[at], joins)) by {
        if is_covered(list, &list[at], joins) {
            let k = choose|k: int|
                0 <= k < joins.len() && (#[trigger] joins[k] == list[at].name@ || depends_on(
                    list,
                    list[at].container_pointer@,
                    joins[k],
                    list[at].name@,
                ));
            assert(joins[k] == action.run_after@[k].dependency@);
        }
    }
    assert(!is_joined(list, &action, joins));
    assert(!Seq::<Seq<char>>::empty().contains(action.pointer@));
}

/// An action that shares no edge with one beside it does not run in parallel
/// on its own account: what counts is what comes before.
pub proof fn law_lone_actions_do_not_fork(list: Seq<ActionInfo>, at: int)
    requires
        0 <= at < list.len(),
    ensures
        (fork_of(list, &list[at]) is Some) == {
            ||| list[at].run_after@.len() == 0 && exists|j: int|
                0 <= j < list.len() && stand_beside(#[trigger] list[j], list[at])
                    && list[j].run_after@.len() == 0
            ||| exists|k: int, i: int, j: int|
                #![trigger list[at].run_after@[i], list[k].run_after@[j]]
                0 <= k < list.len() && stand_beside(list[k], list[at]) && 0 <= i
                    < list[at].run_after@.len() && 0 <= j < list[k].run_after@.len() && may_race(
                    list[at].run_after@[i],
                    list[k].run_after@[j],
                )
        },
{
    let action = list[at];
    lemma_idle(list, action, 0);
    lemma_racing(list, action, 0);
    if racing_dependency(list, &action, 0) is Some {
        let k = choose|k: int|
            0 <= k < list.len() && stand_beside(#[trigger] list[k], action) && shared_target(
                action.run_after@,
                list[k].run_after@,
                0,
            ) is Some;
        lemma_shared(action.run_after@, list[k].run_after@, 0);
        let (i, j) = choose|i: int, j: int|
            0 <= i < action.run_after@.len() && 0 <= j < list[k].run_after@.len() && may_race(
                #[trigger] action.run_after@[i],
                #[trigger] list[k].run_after@[j],
            );
        assert(may_race(list[at].run_after@[i], list[k].run_after@[j]));
    }
    if exists|k: int, i: int, j: int|
        #![trigger list[at].run_after@[i], list[k].run_after@[j]]
        0 <= k < list.len() && stand_beside(list[k], list[at]) && 0 <= i
            < list[at].run_after@.len() && 0 <= j < list[k].run_after@.len() && may_race(
            list[at].run_after@[i],
            list[k].run_after@[j],
        ) {
        let (k, i, j) = choose|k: int, i: int, j: int|
            #![trigger list[at].run_after@[i], list[k].run_after@[j]]
            0 <= k < list.len() && stand_beside(list[k], list[at]) && 0 <= i
                < list[at].run_after@.len() && 0 <= j < list[k].run_after@.len() && may_race(
                list[at].run_after@[i],
                list[k].run_after@[j],
            );
        lemma_shared(action.run_after@, list[k].run_after@, 0);
        assert(stand_beside(list[k], action));
    }
}

proof fn lemma_successor(list: Seq<ActionInfo>, action: ActionInfo, from: int)
    requires
        0 <= from,
    ensures
        (successor_from(list, &action, from) is Some) == exists|j: int|
            from <= j < list.len() && (#[trigger] list[j]).container_pointer@
                == action.container_pointer@ && list[j].name@ != action.name@ && depends_on(
                list,
                action.container_pointer@,
                list[j].name@,
                action.name@,
            ),
    decreases list.len() - from,
{
    if from < list.len() {
        lemma_successor(list, action, from + 1);
        if exists|j: int|
            from <= j < list.len() && (#[trigger] list[j]).container_pointer@
                == action.container_pointer@ && list[j].name@ != action.name@ && depends_on(
                list,
                action.container_pointer@,
                list[j].name@,
                action.name@,
            ) {
            let j = choose|j: int|
                from <= j < list.len() && (#[trigger] list[j]).container_pointer@
                    == action.container_pointer@ && list[j].name@ != action.name@ && depends_on(
                    list,
                    action.container_pointer@,
                    list[j].name@,
                    action.name@,
                );
            if j > from {
                assert(successor_from(list, &action, from + 1) is Some);
            }
        }
    }
}

/// An edge of `runAfter` is a dependency.
pub proof fn law_edges_are_dependencies(list: Seq<ActionInfo>, at: int, edge: int)
    requires
        is_first_called(list, at),
        0 <= edge < list[at].run_after@.len(),
    ensures
        depends_on(
            list,
            list[at].container_pointer@,
            list[at].name@,
            list[at].run_after@[edge].dependency@,
        ),
{
    let container = list[at].container_pointer@;
    let name = list[at].name@;
    let target = list[at].run_after@[edge].dependency@;
    lemma_position_in(list, at, 0);
    let path = seq![name, target];
    assert(targets(list[at].run_after@)[edge] == target);
    assert(predecessors(list, container, name).contains(target));
    assert forall|i: int| 0 <= i < path.len() - 1 implies predecessors(
        list,
        container,
        #[trigger] path[i],
    ).contains(path[i + 1]) by {
        assert(i == 0);
    }
    assert(is_chain(list, container, path));
}

/// An action has a successor where another beside it runs after it, and has
/// none where no action runs after it directly.
pub proof fn law_successors_run_after(list: Seq<ActionInfo>, at: int)
    requires
        is_first_at(list, at),
    ensures
        forall|other: int, edge: int|
            #![trigger list[other].run_after@[edge]]
            is_first_called(list, other) && list[other].container_pointer@
                == list[at].container_pointer@ && list[other].name@ != list[at].name@ && 0 <= edge
                < list[other].run_after@.len() && list[other].run_after@[edge].dependency@
                == list[at].name@ ==> successor_of(list, list[at].pointer@) is Some,
        (forall|other: int, edge: int|
            #![trigger list[other].run_after@[edge]]
            0 <= other < list.len() && list[other].container_pointer@ == list[at].container_pointer@
                && 0 <= edge < list[other].run_after@.len()
                ==> list[other].run_after@[edge].dependency@ != list[at].name@) ==> successor_of(
            list,
            list[at].pointer@,
        ) is None,
{
    let action = list[at];
    let container = action.container_pointer@;
    lemma_position_at(list, at, 0);
    lemma_successor(list, action, 0);
    assert forall|other: int, edge: int|
        #![trigger list[other].run_after@[edge]]
        is_first_called(list, other) && list[other].container_pointer@ == container
            && list[other].name@ != action.name@ && 0 <= edge < list[other].run_after@.len()
            && list[other].run_after@[edge].dependency@ == action.name@ implies successor_of(
        list,
        action.pointer@,
    ) is Some by {
        law_edges_are_dependencies(list, other, edge);
    }
    if forall|other: int, edge: int|
        #![trigger list[other].run_after@[edge]]
        0 <= other < list.len() && list[other].container_pointer@ == container && 0 <= edge
            < list[other].run_after@.len() ==> list[other].run_after@[edge].dependency@
            != action.name@ {
        assert forall|name: Seq<char>| !(#[trigger] depends_on(list, container, name, action.name@)) by {
            if depends_on(list, container, name, action.name@) {
                let path = choose|path: Seq<Seq<char>>|
                    path.len() >= 2 && path[0] == name && path.last() == action.name@
                        && #[trigger] is_chain(list, container, path);
                let last = path.len() - 2;
                assert(predecessors(list, container, path[last]).contains(path[last + 1]));
                lemma_predecessor(list, container, path[last], action.name@);
            }
        }
    }
}

proof fn lemma_found(list: Seq<ActionInfo>, container: Seq<char>, name: Seq<char>, from: int)
    requires
        0 <= from,
    ensures
        match position_in(list, container, name, from) {
            Some(i) => 0 <= i < list.len() && list[i].container_pointer@ == container
                && list[i].name@ == name,
            None => true,
        },
    decreases list.len() - from,
{
    if from < list.len() {
        lemma_found(list, container, name, from + 1);
    }
}

proof fn lemma_predecessor(
    list: Seq<ActionInfo>,
    container: Seq<char>,
    name: Seq<char>,
    target: Seq<char>,
)
    requires
        predecessors(list, container, name).contains(target),
    ensures
        exists|other: int, edge: int|
            #![trigger list[other].run_after@[edge]]
            0 <= other < list.len() && list[other].container_pointer@ == container && 0 <= edge
                < list[other].run_after@.len() && list[other].run_after@[edge].dependency@ == target,
{
    lemma_found(list, container, name, 0);
    let found = predecessors(list, container, name);
    let edge = choose|edge: int| 0 <= edge < found.len() && found[edge] == target;
    let other = position_in(list, container, name, 0)->Some_0;
    assert(list[other].run_after@[edge].dependency@ == target);
}

/// An action comes after what it runs after, and after nothing where neither
/// it nor an action around it runs after anything.
pub proof fn law_actions_come_after_their_edges(list: Seq<ActionInfo>, at: int)
    requires
        is_first_at(list, at),
    ensures
        forall|edge: int|
            0 <= edge < list[at].run_after@.len() ==> comes_before(
                list,
                list[at].pointer@,
                (#[trigger] list[at].run_after@[edge]).dependency@,
            ),
        list[at].run_after@.len() == 0 && (forall|i: int|
            0 <= i < list.len() && has_prefix(
                list[at].pointer@,
                (#[trigger] list[i]).pointer@ + "/"@,
            ) ==> list[i].run_after@.len() == 0) ==> forall|name: Seq<char>|
            !(#[trigger] comes_before(list, list[at].pointer@, name)),
{
    lemma_position_at(list, at, 0);
    let action = list[at];
    assert forall|edge: int| 0 <= edge < action.run_after@.len() implies comes_before(
        list,
        action.pointer@,
        (#[trigger] action.run_after@[edge]).dependency@,
    ) by {
        let target = action.run_after@[edge].dependency@;
        assert(targets(action.run_after@)[edge] == target);
        let path = seq![target];
        assert(is_start(list, &action, path[0]));
        assert(is_line(list, path));
        assert(leads_to(list, path.last(), target));
    }
    if action.run_after@.len() == 0 && (forall|i: int|
        0 <= i < list.len() && has_prefix(action.pointer@, (#[trigger] list[i]).pointer@ + "/"@)
            ==> list[i].run_after@.len() == 0) {
        assert forall|name: Seq<char>| !(#[trigger] is_start(list, &action, name)) by {
            if is_start(list, &action, name) {
                if targets(action.run_after@).contains(name) {
                } else {
                    let i = choose|i: int|
                        0 <= i < list.len() && encloses(
                            (#[trigger] list[i]).pointer@,
                            action.pointer@,
                        ) && targets(list[i].run_after@).contains(name);
                    assert(targets(list[i].run_after@).len() == 0);
                }
            }
        }
    }
}

/// A pointer encloses what stands below it, and nothing else: not itself, and
/// not what only begins with the same letters.
pub proof fn law_pointers_enclose_what_is_below(outer: Seq<char>, rest: Seq<char>, c: char)
    requires
        c != '/',
    ensures
        encloses(outer, outer + "/"@ + rest),
        !encloses(outer, outer),
        !encloses(outer, outer + seq![c] + rest),
{
    reveal_strlit("/");
    let below = outer + "/"@ + rest;
    assert(below.take((outer + "/"@).len() as int) =~= outer + "/"@);
    let beside = outer + seq![c] + rest;
    if encloses(outer, beside) {
        assert(beside.take((outer + "/"@).len() as int)[outer.len() as int] == c);
        assert((outer + "/"@)[outer.len() as int] == '/');
    }
}

/// Where two actions start a container and a third waits for both, the third joins
/// them; where it waits for one of them only, it runs beside the other.
pub proof fn law_joins_end_parallel_branches(list: Seq<ActionInfo>, both: bool)
    requires
        list.len() == 3,
        list[0].container_pointer@ == list[1].container_pointer@,
        list[1].container_pointer@ == list[2].container_pointer@,
        list[0].pointer@ != list[1].pointer@,
        list[0].pointer@ != list[2].pointer@,
        list[1].pointer@ != list[2].pointer@,
        list[0].name@ != list[1].name@,
        list[0].name@ != list[2].name@,
        list[1].name@ != list[2].name@,
        list[0].run_after@.len() == 0,
        list[1].run_after@.len() == 0,
        list[2].run_after@.len() == (if both {
            2nat
        } else {
            1
        }),
        list[2].run_after@[0].dependency@ == list[0].name@,
        both ==> list[2].run_after@[1].dependency@ == list[1].name@,
    ensures
        (parallel_dependency(list, list[2].pointer@) is None) == both,
{
    let last = list[2];
    let container = last.container_pointer@;
    lemma_position_at(list, 2, 0);
    assert(is_first_called(list, 0) && is_first_called(list, 1));
    lemma_position_in(list, 0, 0);
    lemma_position_in(list, 1, 0);
    lemma_idle(list, last, 0);
    lemma_racing(list, last, 0);
    lemma_idle(list, list[0], 0);
    lemma_idle(list, list[1], 0);
    assert(stand_beside(list[1], list[0]) && stand_beside(list[0], list[1]));
    lemma_shared(last.run_after@, list[0].run_after@, 0);
    lemma_shared(last.run_after@, list[1].run_after@, 0);
    assert(fork_of(list, &last) is None) by {
        if racing_dependency(list, &last, 0) is Some {
            let k = choose|k: int|
                0 <= k < list.len() && stand_beside(#[trigger] list[k], last) && shared_target(
                    last.run_after@,
                    list[k].run_after@,
                    0,
                ) is Some;
            assert(k == 0 || k == 1);
        }
    }
    let joins = targets(last.run_after@);
    assert(joins[0] == list[0].name@);
    assert(fork_of(list, &list[0]) is Some);
    assert(fork_of(list, &list[1]) is Some);
    let none = Seq::<Seq<char>>::empty();
    let seen = none.push(last.pointer@);
    assert(!none.contains(last.pointer@));
    assert(!seen.contains(list[0].pointer@)) by {
        if seen.contains(list[0].pointer@) {
            let i = choose|i: int| 0 <= i < seen.len() && seen[i] == list[0].pointer@;
        }
    }
    assert(is_branch(&list[0], &list[0]) && is_branch(&list[1], &list[0]));
    assert(!is_branch(&list[2], &list[0]));
    reveal_with_fuel(branch_count, 4);
    assert(branch_count(list, 3, &list[0]) == 2);
    assert(is_branch(&list[0], &list[1]) && is_branch(&list[1], &list[1]));
    assert(!is_branch(&list[2], &list[1]));
    assert(branch_count(list, 3, &list[1]) == 2);
    assert(is_covered(list, &list[0], joins));
    let depth = 4nat;
    assert(parallel_dependency(list, last.pointer@) == open_fork(
        list,
        2,
        none,
        joins,
        depth,
    ).fork);
    assert(open_fork(list, 2, none, joins, depth) == open_fork_before(
        list,
        2,
        0,
        seen,
        joins,
        depth,
    ));
    if both {
        assert(joins[1] == list[1].name@);
        assert(is_covered(list, &list[1], joins));
        assert(is_joined(list, &list[0], joins));
        assert(is_joined(list, &list[1], joins));
        let after = seen.push(list[0].pointer@);
        assert(!after.contains(list[1].pointer@)) by {
            if after.contains(list[1].pointer@) {
                let i = choose|i: int| 0 <= i < after.len() && after[i] == list[1].pointer@;
                assert(i == 0 || i == 1);
            }
        }
        assert(open_fork_before(list, 0, 0, after, joins, 3).fork is None);
        assert(open_fork(list, 0, seen, joins, 3).fork is None);
        assert(open_fork(list, 0, seen, joins, 3).seen == after);
        let end = after.push(list[1].pointer@);
        assert(open_fork_before(list, 1, 0, end, joins, 3).fork is None);
        assert(open_fork(list, 1, after, joins, 3).fork is None);
        assert(open_fork_before(list, 2, 2, end, joins, depth).fork is None);
        assert(open_fork_before(list, 2, 1, after, joins, depth).fork is None);
    } else {
        assert(!is_covered(list, &list[1], joins)) by {
            if is_covered(list, &list[1], joins) {
                let k = choose|k: int|
                    0 <= k < joins.len() && (#[trigger] joins[k] == list[1].name@ || depends_on(
                        list,
                        list[1].container_pointer@,
                        joins[k],
                        list[1].name@,
                    ));
                assert(joins[k] == list[0].name@);
                let path = choose|path: Seq<Seq<char>>|
                    path.len() >= 2 && path[0] == list[0].name@ && path.last() == list[1].name@
                        && #[trigger] is_chain(list, container, path);
                assert(predecessors(list, container, path[0]).contains(path[1]));
                assert(predecessors(list, container, path[0]).len() == 0);
            }
        }
        assert(!is_joined(list, &list[0], joins));
        assert(open_fork(list, 0, seen, joins, 3).fork is Some);
    }
}

} // verus!
