//! Path helpers shared by the linter and its command line.
//!
//! A path is a text whose components are separated by slashes. Repeated
//! slashes, a trailing slash, and every `.` but a leading one separate nothing
//! of their own. A leading slash is a component by itself, the root.
//!
//! Everything here is lexical. Callers that need the file system look there
//! themselves and hand over what they found.

use vstd::prelude::*;

use crate::text::{chars_of, owned, string_of_range, text2, text3, text_eq};

verus! {

/// The position of the first slash of `text` at or after `from`; the length of
/// `text` where there is none.
pub open spec fn next_slash(text: Seq<char>, from: int) -> int
    decreases text.len() - from,
{
    if from < 0 || from >= text.len() {
        text.len() as int
    } else if text[from] == '/' {
        from
    } else {
        next_slash(text, from + 1)
    }
}

/// Where the components of `text` from position `from` on stand.
pub open spec fn parts_from(text: Seq<char>, from: int) -> Seq<(int, int)>
    decreases text.len() - from,
    when 0 <= from
    via parts_from_ends
{
    if from >= text.len() {
        Seq::empty()
    } else if text[from] == '/' {
        parts_from(text, from + 1)
    } else {
        let end = next_slash(text, from);
        let rest = parts_from(text, end);
        if from > 0 && end == from + 1 && text[from] == '.' {
            rest
        } else {
            seq![(from, end)] + rest
        }
    }
}

#[via_fn]
proof fn parts_from_ends(text: Seq<char>, from: int) {
    if from < text.len() && text[from] != '/' {
        lemma_next_slash(text, from + 1);
    }
}

proof fn lemma_next_slash(text: Seq<char>, from: int)
    requires
        0 <= from <= text.len(),
    ensures
        from <= next_slash(text, from) <= text.len(),
        next_slash(text, from) < text.len() ==> text[next_slash(text, from)] == '/',
        forall|i: int| from <= i < next_slash(text, from) ==> #[trigger] text[i] != '/',
    decreases text.len() - from,
{
    if from < text.len() && text[from] != '/' {
        lemma_next_slash(text, from + 1);
    }
}

/// Where the components of a path stand, as ranges of character positions.
pub open spec fn parts(path: Seq<char>) -> Seq<(int, int)> {
    if is_absolute(path) {
        seq![(0int, 1int)] + parts_from(path, 1)
    } else {
        parts_from(path, 0)
    }
}

/// The path starts at the root.
pub open spec fn is_absolute(path: Seq<char>) -> bool {
    path.len() > 0 && path[0] == '/'
}

/// The component in a range of positions.
pub open spec fn component_at(path: Seq<char>, part: (int, int)) -> Seq<char> {
    path.subrange(part.0, part.1)
}

/// The components of a path.
pub open spec fn components(path: Seq<char>) -> Seq<Seq<char>> {
    parts(path).map_values(|part: (int, int)| component_at(path, part))
}

/// A path with one more component.
pub open spec fn pushed(path: Seq<char>, component: Seq<char>) -> Seq<char> {
    if path.len() == 0 || path.last() == '/' {
        path + component
    } else {
        path + "/"@ + component
    }
}

/// The path with the given components.
pub open spec fn rendered(list: Seq<Seq<char>>) -> Seq<char>
    decreases list.len(),
{
    if list.len() == 0 {
        Seq::empty()
    } else {
        pushed(rendered(list.drop_last()), list.last())
    }
}

/// One component of a lexically normalized path more: `.` adds nothing, and
/// `..` takes the component before it away, unless that is the root.
pub open spec fn stepped(list: Seq<Seq<char>>, component: Seq<char>) -> Seq<Seq<char>> {
    if component == "."@ {
        list
    } else if component == ".."@ {
        if list.len() > 0 && list.last() != "/"@ {
            list.drop_last()
        } else {
            list
        }
    } else {
        list.push(component)
    }
}

/// The components that are left after `.` and `..` have been resolved lexically.
pub open spec fn normalized(list: Seq<Seq<char>>) -> Seq<Seq<char>>
    decreases list.len(),
{
    if list.len() == 0 {
        Seq::empty()
    } else {
        stepped(normalized(list.drop_last()), list.last())
    }
}

/// The components of `base` are the first components of `path`.
pub open spec fn is_under(path: Seq<char>, base: Seq<char>) -> bool {
    &&& components(base).len() <= components(path).len()
    &&& components(path).take(components(base).len() as int) == components(base)
}

/// The text of a path from its component number `n` on.
pub open spec fn remainder(path: Seq<char>, n: int) -> Seq<char> {
    let places = parts(path);
    if n >= places.len() {
        Seq::empty()
    } else {
        path.subrange(
            if n == 0 {
                0
            } else {
                places[n].0
            },
            places.last().1,
        )
    }
}

/// The last component, where it is a name.
pub open spec fn file_name(path: Seq<char>) -> Option<Seq<char>> {
    let list = components(path);
    if list.len() == 0 || list.last() == "/"@ || list.last() == "."@ || list.last() == ".."@ {
        None
    } else {
        Some(list.last())
    }
}

/// The last component where it is a name, and the path itself otherwise.
pub open spec fn short_name(path: Seq<char>) -> Seq<char> {
    match file_name(path) {
        Some(name) => name,
        None => path,
    }
}

/// How many components two paths share from position `from` on.
pub open spec fn shared(left: Seq<Seq<char>>, right: Seq<Seq<char>>, from: int) -> int
    decreases left.len() - from,
{
    if 0 <= from < left.len() && from < right.len() && left[from] == right[from] {
        shared(left, right, from + 1)
    } else {
        from
    }
}

/// The steps from one directory to a path: up for each component that they do
/// not share, and down again.
pub open spec fn steps(base: Seq<Seq<char>>, path: Seq<Seq<char>>) -> Seq<Seq<char>> {
    let common = shared(base, path, 0);
    Seq::new((base.len() - common) as nat, |i: int| ".."@) + path.skip(common)
}

/// The path from `base` to `path`, where both are absolute and the way up is
/// known.
pub open spec fn relative(base: Seq<char>, path: Seq<char>) -> Option<Seq<char>> {
    let from = components(base);
    let to = components(path);
    let common = shared(from, to, 0);
    if !is_absolute(base) || !is_absolute(path) || from.skip(common).contains(".."@)
        || rendered(steps(from, to)).len() == 0 {
        None
    } else {
        Some(rendered(steps(from, to)))
    }
}

/// A path as it is shown to someone who stands in `base`.
pub open spec fn displayed(base: Seq<char>, path: Seq<char>) -> Seq<char> {
    let shown = if is_under(path, base) {
        remainder(path, components(base).len() as int)
    } else {
        match relative(base, path) {
            Some(way) => way,
            None => short_name(path),
        }
    };
    if shown.len() == 0 {
        short_name(path)
    } else {
        shown
    }
}

/// The path without its last component; nothing for the root and for a path
/// without components.
pub open spec fn parent(path: Seq<char>) -> Option<Seq<char>> {
    let places = parts(path);
    if places.len() == 0 || components(path).last() == "/"@ {
        None
    } else if places.len() == 1 {
        Some(Seq::empty())
    } else {
        Some(path.take(places[places.len() - 2].1))
    }
}

/// Where `path` leads from `base`.
pub open spec fn path_joined(base: Seq<char>, path: Seq<char>) -> Seq<char> {
    if is_absolute(path) {
        path
    } else {
        pushed(base, path)
    }
}

/// Where a symbolic link with the given content leads. A relative link starts
/// from the directory that holds it, which needs the current directory where
/// the link itself is given by a relative path.
pub open spec fn link_end(
    link: Seq<char>,
    target: Seq<char>,
    current_dir: Option<Seq<char>>,
) -> Option<Seq<char>> {
    let home = match parent(link) {
        Some(directory) => directory,
        None => "."@,
    };
    if is_absolute(target) {
        Some(target)
    } else if is_absolute(home) {
        Some(path_joined(home, target))
    } else {
        match current_dir {
            Some(directory) => Some(path_joined(path_joined(directory, home), target)),
            None => None,
        }
    }
}

/// The ranges that a list of positions stands for.
pub open spec fn ranges(list: Seq<(usize, usize)>) -> Seq<(int, int)> {
    list.map_values(|part: (usize, usize)| (part.0 as int, part.1 as int))
}

proof fn lemma_parts_from_bounds(text: Seq<char>, from: int)
    requires
        0 <= from <= text.len(),
    ensures
        forall|i: int|
            0 <= i < parts_from(text, from).len() ==> from <= (#[trigger] parts_from(text, from)[i]).0
                < parts_from(text, from)[i].1 <= text.len(),
    decreases text.len() - from,
{
    if from < text.len() {
        if text[from] == '/' {
            lemma_parts_from_bounds(text, from + 1);
            assert(parts_from(text, from) == parts_from(text, from + 1));
        } else {
            let end = next_slash(text, from);
            lemma_next_slash(text, from + 1);
            lemma_parts_from_bounds(text, end);
            let rest = parts_from(text, end);
            assert forall|i: int| 0 <= i < parts_from(text, from).len() implies from <= (
            #[trigger] parts_from(text, from)[i]).0 < parts_from(text, from)[i].1 <= text.len() by {
                if parts_from(text, from).len() == rest.len() {
                    assert(parts_from(text, from) == rest);
                } else if i > 0 {
                    assert(parts_from(text, from)[i] == rest[i - 1]);
                }
            }
        }
    }
}

/// Every component stands inside the path and is not empty.
pub proof fn lemma_parts_bounds(path: Seq<char>)
    ensures
        components(path).len() == parts(path).len(),
        forall|i: int|
            0 <= i < parts(path).len() ==> 0 <= (#[trigger] parts(path)[i]).0 < parts(path)[i].1
                <= path.len(),
{
    if is_absolute(path) {
        lemma_parts_from_bounds(path, 1);
    } else {
        lemma_parts_from_bounds(path, 0);
    }
}

proof fn lemma_ranges_push(list: Seq<(usize, usize)>, part: (usize, usize))
    ensures
        ranges(list.push(part)) == ranges(list).push((part.0 as int, part.1 as int)),
{
    assert(ranges(list.push(part)) =~= ranges(list).push((part.0 as int, part.1 as int)));
}

fn find_slash(text: &[char], from: usize) -> (at: usize)
    requires
        from <= text@.len(),
    ensures
        at == next_slash(text@, from as int),
        from <= at <= text@.len(),
{
    let length: usize = text.len();
    let mut at: usize = from;
    while at < length && text[at] != '/'
        invariant
            from <= at <= length,
            length == text@.len(),
            next_slash(text@, from as int) == next_slash(text@, at as int),
        decreases length - at,
    {
        at += 1;
    }
    at
}

/// Find the components of a path.
fn parts_of(text: &[char]) -> (list: Vec<(usize, usize)>)
    ensures
        ranges(list@) == parts(text@),
{
    let length: usize = text.len();
    let mut list: Vec<(usize, usize)> = Vec::new();
    let mut at: usize = 0;
    if length > 0 && text[0] == '/' {
        proof {
            lemma_ranges_push(list@, (0usize, 1usize));
        }
        list.push((0, 1));
        at = 1;
    }
    assert(ranges(list@) + parts_from(text@, at as int) =~= parts(text@));
    while at < length
        invariant
            at <= length,
            length == text@.len(),
            ranges(list@) + parts_from(text@, at as int) == parts(text@),
        decreases length - at,
    {
        if text[at] == '/' {
            at += 1;
        } else {
            let end = find_slash(text, at);
            proof {
                lemma_next_slash(text@, at as int + 1);
            }
            if at == 0 || end > at + 1 || text[at] != '.' {
                proof {
                    lemma_ranges_push(list@, (at, end));
                    assert(ranges(list@).push((at as int, end as int)) + parts_from(
                        text@,
                        end as int,
                    ) =~= ranges(list@) + (seq![(at as int, end as int)] + parts_from(
                        text@,
                        end as int,
                    )));
                }
                list.push((at, end));
            }
            at = end;
        }
    }
    assert(parts_from(text@, at as int) =~= Seq::empty());
    assert(ranges(list@) + parts_from(text@, at as int) =~= ranges(list@));
    list
}

/// The texts of a list of owned strings.
pub open spec fn owned_texts(list: Seq<String>) -> Seq<Seq<char>> {
    list.map_values(|text: String| text@)
}

proof fn lemma_owned_texts_push(list: Seq<String>, last: String)
    ensures
        owned_texts(list.push(last)) == owned_texts(list).push(last@),
{
    assert(owned_texts(list.push(last)) =~= owned_texts(list).push(last@));
}

/// Take a path apart into its components.
pub fn components_of(path: &str) -> (list: Vec<String>)
    ensures
        owned_texts(list@) == components(path@),
{
    let text = chars_of(path);
    let places = parts_of(text.as_slice());
    proof {
        lemma_parts_bounds(path@);
    }
    let mut list: Vec<String> = Vec::new();
    let mut i: usize = 0;
    assert(owned_texts(list@) =~= components(path@).take(0));
    while i < places.len()
        invariant
            i <= places.len(),
            text@ == path@,
            ranges(places@) == parts(path@),
            owned_texts(list@) == components(path@).take(i as int),
        decreases places.len() - i,
    {
        proof {
            lemma_parts_bounds(path@);
            assert(ranges(places@)[i as int] == parts(path@)[i as int]);
            assert(components(path@).take(i + 1) =~= components(path@).take(i as int).push(
                components(path@)[i as int],
            ));
        }
        let component = string_of_range(text.as_slice(), places[i].0, places[i].1);
        proof {
            lemma_owned_texts_push(list@, component);
        }
        list.push(component);
        i += 1;
    }
    assert(components(path@).take(i as int) =~= components(path@));
    list
}

fn push_component(path: String, component: &str) -> (longer: String)
    ensures
        longer@ == pushed(path@, component@),
{
    let text = chars_of(path.as_str());
    let length: usize = text.len();
    if length == 0 || text[length - 1] == '/' {
        text2(path.as_str(), component)
    } else {
        text3(path.as_str(), "/", component)
    }
}

fn render(list: &Vec<String>) -> (path: String)
    ensures
        path@ == rendered(owned_texts(list@)),
{
    let mut path: String = owned("");
    let ghost all = owned_texts(list@);
    proof {
        reveal_strlit("");
        assert(path@ =~= rendered(all.take(0)));
    }
    let mut i: usize = 0;
    while i < list.len()
        invariant
            i <= list.len(),
            all == owned_texts(list@),
            path@ == rendered(all.take(i as int)),
        decreases list.len() - i,
    {
        assert(all.take(i + 1).drop_last() =~= all.take(i as int));
        path = push_component(path, list[i].as_str());
        i += 1;
    }
    assert(all.take(i as int) =~= all);
    path
}

/// Lexically normalize `path`: drop `.` components and resolve `..` against
/// the component before it. The file system is not consulted.
pub fn normalize_path(path: &str) -> (normal: String)
    ensures
        normal@ == rendered(normalized(components(path@))),
{
    let list = components_of(path);
    let mut kept: Vec<String> = Vec::new();
    let ghost all = components(path@);
    let mut i: usize = 0;
    assert(owned_texts(kept@) =~= normalized(all.take(0)));
    while i < list.len()
        invariant
            i <= list.len(),
            all == owned_texts(list@),
            owned_texts(kept@) == normalized(all.take(i as int)),
        decreases list.len() - i,
    {
        let component = list[i].as_str();
        assert(all.take(i + 1).drop_last() =~= all.take(i as int));
        if !text_eq(component, ".") {
            if text_eq(component, "..") {
                let length: usize = kept.len();
                if length > 0 && !text_eq(kept[length - 1].as_str(), "/") {
                    proof {
                        assert(owned_texts(kept@).last() == kept@.last()@);
                        assert(owned_texts(kept@.drop_last()) =~= owned_texts(kept@).drop_last());
                    }
                    kept.pop();
                } else {
                    proof {
                        if length > 0 {
                            assert(owned_texts(kept@).last() == kept@.last()@);
                        }
                    }
                }
            } else {
                let name = owned(component);
                proof {
                    lemma_owned_texts_push(kept@, name);
                }
                kept.push(name);
            }
        }
        i += 1;
    }
    assert(all.take(i as int) =~= all);
    render(&kept)
}

/// The number of components that two lists share.
fn shared_count(left: &Vec<String>, right: &Vec<String>) -> (count: usize)
    ensures
        count == shared(owned_texts(left@), owned_texts(right@), 0),
        count <= left@.len(),
        count <= right@.len(),
{
    let mut count: usize = 0;
    while count < left.len() && count < right.len() && text_eq(
        left[count].as_str(),
        right[count].as_str(),
    )
        invariant
            count <= left@.len(),
            count <= right@.len(),
            shared(owned_texts(left@), owned_texts(right@), 0) == shared(
                owned_texts(left@),
                owned_texts(right@),
                count as int,
            ),
        decreases left@.len() - count,
    {
        count += 1;
    }
    count
}

proof fn lemma_shared(left: Seq<Seq<char>>, right: Seq<Seq<char>>, from: int)
    requires
        0 <= from <= left.len(),
        from <= right.len(),
    ensures
        from <= shared(left, right, from) <= left.len(),
        shared(left, right, from) <= right.len(),
        forall|i: int| from <= i < shared(left, right, from) ==> left[i] == #[trigger] right[i],
        shared(left, right, from) < left.len() && shared(left, right, from) < right.len()
            ==> left[shared(left, right, from)] != right[shared(left, right, from)],
    decreases left.len() - from,
{
    if from < left.len() && from < right.len() && left[from] == right[from] {
        lemma_shared(left, right, from + 1);
    }
}

/// Whether the components of `base` are the first components of `path`.
pub fn path_starts_with(path: &str, base: &str) -> (holds: bool)
    ensures
        holds == is_under(path@, base@),
{
    let list = components_of(path);
    let prefix = components_of(base);
    let count = shared_count(&prefix, &list);
    proof {
        let p = components(path@);
        let b = components(base@);
        lemma_shared(b, p, 0);
        if count == b.len() {
            assert(p.take(count as int) =~= b);
        } else if is_under(path@, base@) {
            assert(p.take(b.len() as int)[count as int] == b[count as int]);
        }
    }
    count == prefix.len()
}

fn absolute(path: &str) -> (holds: bool)
    ensures
        holds == is_absolute(path@),
{
    let text = chars_of(path);
    text.len() > 0 && text[0] == '/'
}

fn remainder_of(path: &str, n: usize) -> (rest: String)
    ensures
        rest@ == remainder(path@, n as int),
{
    let text = chars_of(path);
    let places = parts_of(text.as_slice());
    proof {
        lemma_parts_bounds(path@);
        lemma_parts_ordered(path@);
        assert(forall|i: int| 0 <= i < places@.len() ==> ranges(places@)[i] == (
            #[trigger] places@[i].0 as int,
            places@[i].1 as int,
        ));
    }
    let count: usize = places.len();
    if n >= count {
        proof {
            reveal_strlit("");
            assert(""@ =~= Seq::<char>::empty());
        }
        return owned("");
    }
    let start: usize = if n == 0 {
        0
    } else {
        places[n].0
    };
    assert(parts(path@)[n as int].0 <= parts(path@)[count - 1].1);
    string_of_range(text.as_slice(), start, places[count - 1].1)
}

proof fn lemma_parts_from_ordered(text: Seq<char>, from: int)
    requires
        0 <= from <= text.len(),
    ensures
        forall|i: int, j: int|
            0 <= i < j < parts_from(text, from).len() ==> (#[trigger] parts_from(text, from)[i]).1
                < (#[trigger] parts_from(text, from)[j]).0,
    decreases text.len() - from,
{
    if from < text.len() {
        if text[from] == '/' {
            lemma_parts_from_ordered(text, from + 1);
            assert(parts_from(text, from) == parts_from(text, from + 1));
        } else {
            let end = next_slash(text, from);
            lemma_next_slash(text, from + 1);
            lemma_parts_from_ordered(text, end);
            if end < text.len() {
                assert(parts_from(text, end) == parts_from(text, end + 1));
                lemma_parts_from_bounds(text, end + 1);
            }
            let rest = parts_from(text, end);
            assert forall|i: int, j: int| 0 <= i < j < parts_from(text, from).len() implies (
            #[trigger] parts_from(text, from)[i]).1 < (#[trigger] parts_from(text, from)[j]).0 by {
                if parts_from(text, from).len() == rest.len() {
                    assert(parts_from(text, from) == rest);
                } else {
                    assert(parts_from(text, from)[j] == rest[j - 1]);
                    if i > 0 {
                        assert(parts_from(text, from)[i] == rest[i - 1]);
                    }
                }
            }
        }
    }
}

/// Components stand one behind the other.
proof fn lemma_parts_ordered(path: Seq<char>)
    ensures
        forall|i: int, j: int|
            0 <= i < j < parts(path).len() ==> (#[trigger] parts(path)[i]).1 <= (
            #[trigger] parts(path)[j]).0,
{
    if is_absolute(path) {
        lemma_parts_from_ordered(path, 1);
        lemma_parts_from_bounds(path, 1);
    } else {
        lemma_parts_from_ordered(path, 0);
    }
}

/// The last component, where it is a name, and the path itself otherwise.
fn short_name_of(path: &str) -> (name: String)
    ensures
        name@ == short_name(path@),
{
    let list = components_of(path);
    let count: usize = list.len();
    if count == 0 {
        return owned(path);
    }
    let last = list[count - 1].as_str();
    assert(components(path@).last() == last@);
    if text_eq(last, "/") || text_eq(last, ".") || text_eq(last, "..") {
        owned(path)
    } else {
        owned(last)
    }
}

/// The path that leads from `base` to `path`.
fn relative_path_from_base(base: &str, path: &str) -> (way: Option<String>)
    ensures
        match way {
            Some(text) => relative(base@, path@) == Some(text@),
            None => relative(base@, path@) is None,
        },
{
    if !absolute(base) || !absolute(path) {
        return None;
    }
    let from = components_of(base);
    let to = components_of(path);
    let common = shared_count(&from, &to);
    let ghost left = components(base@);
    let ghost right = components(path@);
    let ghost all = steps(left, right);
    let mut list: Vec<String> = Vec::new();
    let mut i: usize = common;
    assert(owned_texts(list@) =~= all.take(0));
    while i < from.len()
        invariant
            common <= i <= from.len(),
            common == shared(left, right, 0),
            common <= right.len(),
            left == components(base@),
            right == components(path@),
            owned_texts(from@) == left,
            all == steps(left, right),
            is_absolute(base@),
            is_absolute(path@),
            owned_texts(list@) == all.take(i - common),
            forall|j: int| common <= j < i ==> #[trigger] left[j] != ".."@,
        decreases from.len() - i,
    {
        if text_eq(from[i].as_str(), "..") {
            assert(left.skip(common as int)[i - common] == ".."@);
            return None;
        }
        let up = owned("..");
        proof {
            lemma_owned_texts_push(list@, up);
            assert(all.take(i - common + 1) =~= all.take(i - common).push(".."@));
        }
        list.push(up);
        i += 1;
    }
    proof {
        if left.skip(common as int).contains(".."@) {
            let k = choose|k: int|
                0 <= k < left.skip(common as int).len() && left.skip(common as int)[k] == ".."@;
            assert(left[common + k] == ".."@);
        }
    }
    let mut k: usize = common;
    while k < to.len()
        invariant
            common <= k <= to.len(),
            common == shared(left, right, 0),
            common <= left.len(),
            right == owned_texts(to@),
            all == steps(left, right),
            owned_texts(list@) == all.take(left.len() - common + (k - common)),
        decreases to.len() - k,
    {
        let component = owned(to[k].as_str());
        proof {
            lemma_owned_texts_push(list@, component);
            let at = left.len() - common + (k - common);
            assert(all[at] == right[k as int]);
            assert(all.take(at + 1) =~= all.take(at).push(right[k as int]));
        }
        list.push(component);
        k += 1;
    }
    assert(all.take(left.len() - common + (k - common)) =~= all);
    let way = render(&list);
    if chars_of(way.as_str()).len() == 0 {
        None
    } else {
        Some(way)
    }
}

/// Format `path` relative to `base`, file names untouched.
///
/// A path below the base loses the base; another absolute path is reached
/// through `..`; what cannot be reached is shown by its last component.
pub fn display_path(base: &str, path: &str) -> (text: String)
    ensures
        text@ == displayed(base@, path@),
{
    let shown = if path_starts_with(path, base) {
        let prefix = components_of(base);
        remainder_of(path, prefix.len())
    } else {
        match relative_path_from_base(base, path) {
            Some(way) => way,
            None => short_name_of(path),
        }
    };
    if chars_of(shown.as_str()).len() == 0 {
        short_name_of(path)
    } else {
        shown
    }
}

/// The path without its last component.
pub fn parent_of(path: &str) -> (directory: Option<String>)
    ensures
        match directory {
            Some(text) => parent(path@) == Some(text@),
            None => parent(path@) is None,
        },
{
    let text = chars_of(path);
    let places = parts_of(text.as_slice());
    let list = components_of(path);
    let count: usize = places.len();
    proof {
        lemma_parts_bounds(path@);
        assert(forall|i: int| 0 <= i < places@.len() ==> ranges(places@)[i] == (
            #[trigger] places@[i].0 as int,
            places@[i].1 as int,
        ));
        assert(owned_texts(list@).len() == list@.len());
    }
    if count == 0 {
        return None;
    }
    assert(components(path@).last() == list@[count - 1]@);
    if text_eq(list[count - 1].as_str(), "/") {
        return None;
    }
    if count == 1 {
        proof {
            reveal_strlit("");
            assert(""@ =~= Seq::<char>::empty());
        }
        return Some(owned(""));
    }
    assert(parts(path@)[count - 2].1 == places@[count - 2].1);
    let end: usize = places[count - 2].1;
    assert(text@.subrange(0, end as int) =~= path@.take(end as int));
    Some(string_of_range(text.as_slice(), 0, end))
}

/// Where `path` leads from `base`.
pub fn join_paths(base: &str, path: &str) -> (joined: String)
    ensures
        joined@ == path_joined(base@, path@),
{
    if absolute(path) {
        owned(path)
    } else {
        push_component(owned(base), path)
    }
}

/// Where the symbolic link `link` with the content `target` leads. Nothing
/// where that depends on a current directory that is not known.
pub fn link_target(link: &str, target: &str, current_dir: Option<&str>) -> (end: Option<String>)
    ensures
        match end {
            Some(text) => link_end(
                link@,
                target@,
                match current_dir {
                    Some(directory) => Some(directory@),
                    None => None,
                },
            ) == Some(text@),
            None => link_end(
                link@,
                target@,
                match current_dir {
                    Some(directory) => Some(directory@),
                    None => None,
                },
            ) is None,
        },
{
    if absolute(target) {
        return Some(owned(target));
    }
    let home = match parent_of(link) {
        Some(directory) => directory,
        None => owned("."),
    };
    if absolute(home.as_str()) {
        return Some(join_paths(home.as_str(), target));
    }
    match current_dir {
        Some(directory) => {
            let base = join_paths(directory, home.as_str());
            Some(join_paths(base.as_str(), target))
        },
        None => None,
    }
}

/// Whether the end of a symbolic link lies outside `canonical_root`: judged by
/// its physical place where that is known, and lexically otherwise.
pub fn target_outside_root(canonical_root: &str, canonical: Option<&str>, target: &str) -> (outside:
    bool)
    ensures
        outside == match canonical {
            Some(place) => !is_under(place@, canonical_root@),
            None => !is_under(rendered(normalized(components(target@))), canonical_root@),
        },
{
    match canonical {
        Some(place) => !path_starts_with(place, canonical_root),
        None => {
            let normal = normalize_path(target);
            !path_starts_with(normal.as_str(), canonical_root)
        },
    }
}

/// A list that can be the components of a path: the root stands only in front,
/// and so does `.`; every other component is a text without slashes.
pub open spec fn is_component_list(list: Seq<Seq<char>>) -> bool {
    forall|i: int|
        0 <= i < list.len() ==> {
            ||| i == 0 && (#[trigger] list[i] == "/"@ || list[i] == "."@)
            ||| is_step(list[i])
        }
}

/// A component that can stand anywhere behind the first.
pub open spec fn is_step(component: Seq<char>) -> bool {
    &&& component.len() > 0
    &&& component != "."@
    &&& forall|i: int| 0 <= i < component.len() ==> #[trigger] component[i] != '/'
}

/// A step that leads down.
pub open spec fn is_name(component: Seq<char>) -> bool {
    is_step(component) && component != ".."@
}

/// A list of names, with the root in front or not.
pub open spec fn is_normal_list(list: Seq<Seq<char>>) -> bool {
    forall|i: int|
        0 <= i < list.len() ==> (i == 0 && #[trigger] list[i] == "/"@) || is_name(list[i])
}

proof fn lemma_short_texts()
    ensures
        "/"@ == seq!['/'],
        "."@ == seq!['.'],
        ".."@ == seq!['.', '.'],
{
    reveal_strlit("/");
    reveal_strlit(".");
    reveal_strlit("..");
    assert("/"@ =~= seq!['/']);
    assert("."@ =~= seq!['.']);
    assert(".."@ =~= seq!['.', '.']);
}

proof fn lemma_next_slash_in_front(front: Seq<char>, whole: Seq<char>, from: int)
    requires
        0 <= from <= front.len() < whole.len(),
        whole.take(front.len() as int) == front,
        whole[front.len() as int] == '/',
    ensures
        next_slash(whole, from) == next_slash(front, from),
    decreases front.len() - from,
{
    if from < front.len() {
        assert(whole[from] == whole.take(front.len() as int)[from]);
        if front[from] != '/' {
            lemma_next_slash_in_front(front, whole, from + 1);
        }
    }
}

proof fn lemma_next_slash_none(text: Seq<char>, from: int)
    requires
        0 <= from <= text.len(),
        forall|i: int| from <= i < text.len() ==> #[trigger] text[i] != '/',
    ensures
        next_slash(text, from) == text.len(),
    decreases text.len() - from,
{
    if from < text.len() {
        lemma_next_slash_none(text, from + 1);
    }
}

proof fn lemma_parts_of_step(text: Seq<char>, from: int)
    requires
        0 <= from < text.len(),
        is_step(text.skip(from)),
    ensures
        parts_from(text, from) == seq![(from, text.len() as int)],
{
    lemma_short_texts();
    let step = text.skip(from);
    assert forall|i: int| from <= i < text.len() implies #[trigger] text[i] != '/' by {
        assert(step[i - from] == text[i]);
    }
    lemma_next_slash_none(text, from);
    assert(text[from] == step[0]);
    if text.len() == from + 1 && text[from] == '.' {
        assert(step =~= "."@);
    }
    assert(parts_from(text, text.len() as int) =~= Seq::empty());
    assert(parts_from(text, from) =~= seq![(from, text.len() as int)]);
}

proof fn lemma_parts_from_longer(front: Seq<char>, step: Seq<char>, from: int)
    requires
        0 <= from <= front.len(),
        is_step(step),
    ensures
        parts_from(front + "/"@ + step, from) == parts_from(front, from).push(
            (front.len() as int + 1, front.len() as int + 1 + step.len()),
        ),
    decreases front.len() - from,
{
    lemma_short_texts();
    let whole = front + "/"@ + step;
    let last = (front.len() as int + 1, front.len() as int + 1 + step.len());
    if from == front.len() {
        assert(whole[from] == '/');
        assert(whole.skip(from + 1) =~= step);
        lemma_parts_of_step(whole, from + 1);
        assert(parts_from(whole, from) == parts_from(whole, from + 1));
        assert(parts_from(front, from) =~= Seq::empty());
        assert(parts_from(whole, from) =~= parts_from(front, from).push(last));
    } else {
        assert(whole[from] == front[from]);
        if front[from] == '/' {
            lemma_parts_from_longer(front, step, from + 1);
            assert(parts_from(whole, from) == parts_from(whole, from + 1));
            assert(parts_from(front, from) == parts_from(front, from + 1));
        } else {
            assert(whole.take(front.len() as int) =~= front);
            lemma_next_slash_in_front(front, whole, from);
            lemma_next_slash(front, from + 1);
            let end = next_slash(front, from);
            lemma_parts_from_longer(front, step, end);
            let rest = parts_from(front, end);
            assert((seq![(from, end)] + rest).push(last) =~= seq![(from, end)] + rest.push(last));
        }
    }
}

/// One more step on a path is one more component.
proof fn lemma_components_pushed(path: Seq<char>, step: Seq<char>)
    requires
        is_step(step),
        path.len() > 0 && path.last() == '/' ==> path == "/"@,
    ensures
        components(pushed(path, step)) == components(path).push(step),
{
    lemma_short_texts();
    let whole = pushed(path, step);
    if path.len() == 0 {
        assert(whole =~= step);
        assert(whole.skip(0) =~= step);
        lemma_parts_of_step(whole, 0);
        assert(step[0] != '/');
        assert(parts(path) =~= Seq::empty());
        assert(whole.subrange(0, whole.len() as int) =~= step);
        assert(components(whole) =~= components(path).push(step));
    } else if path.last() == '/' {
        assert(whole =~= "/"@ + step);
        assert(whole.skip(1) =~= step);
        lemma_parts_of_step(whole, 1);
        assert(parts_from(path, 1) =~= Seq::empty());
        assert(parts(path) =~= seq![(0int, 1int)]);
        assert(parts(whole) =~= seq![(0int, 1int), (1int, whole.len() as int)]);
        assert(whole.subrange(0, 1) =~= path.subrange(0, 1));
        assert(whole.subrange(1, whole.len() as int) =~= step);
        assert(components(whole) =~= components(path).push(step));
    } else {
        assert(whole[0] == path[0]);
        let last = (path.len() as int + 1, path.len() as int + 1 + step.len());
        if is_absolute(path) {
            lemma_parts_from_longer(path, step, 1);
            assert(seq![(0int, 1int)] + parts_from(path, 1).push(last) =~= (seq![(0int, 1int)]
                + parts_from(path, 1)).push(last));
        } else {
            lemma_parts_from_longer(path, step, 0);
        }
        assert(parts(whole) == parts(path).push(last));
        lemma_parts_bounds(path);
        assert forall|i: int| 0 <= i < components(whole).len() implies #[trigger] components(
            whole,
        )[i] == components(path).push(step)[i] by {
            if i < parts(path).len() {
                let part = parts(path)[i];
                assert(parts(whole)[i] == part);
                assert(whole.subrange(part.0, part.1) =~= path.subrange(part.0, part.1));
            } else {
                assert(whole.subrange(last.0, last.1) =~= step);
            }
        }
        assert(components(whole) =~= components(path).push(step));
    }
}

/// The path made of a list of components has these components.
pub proof fn law_rendered_path_has_its_components(list: Seq<Seq<char>>)
    requires
        is_component_list(list),
    ensures
        components(rendered(list)) == list,
        rendered(list).len() > 0 && rendered(list).last() == '/' ==> rendered(list) == "/"@,
        rendered(list).len() == 0 <==> list.len() == 0,
    decreases list.len(),
{
    lemma_short_texts();
    if list.len() == 0 {
        assert(components(rendered(list)) =~= list);
    } else {
        let front = list.drop_last();
        let last = list.last();
        assert(forall|i: int| 0 <= i < front.len() ==> #[trigger] front[i] == list[i]);
        law_rendered_path_has_its_components(front);
        if is_step(last) {
            lemma_components_pushed(rendered(front), last);
            assert(front.push(last) =~= list);
            assert(pushed(rendered(front), last).last() == last.last());
        } else {
            assert(list[0] == last);
            assert(rendered(front) =~= Seq::empty());
            assert(rendered(list) =~= last);
            if last == "/"@ {
                assert(parts_from(last, 1) =~= Seq::empty());
                assert(parts(last) =~= seq![(0int, 1int)]);
            } else {
                lemma_next_slash_none(last, 0);
                assert(parts_from(last, 1) =~= Seq::empty());
                assert(parts(last) =~= seq![(0int, 1int)]);
            }
            assert(last.subrange(0, 1) =~= last);
            assert(components(last) =~= list);
        }
    }
}

proof fn lemma_parts_from_steps(text: Seq<char>, from: int)
    requires
        0 <= from <= text.len(),
    ensures
        forall|i: int|
            0 <= i < parts_from(text, from).len() ==> {
                let component = component_at(text, #[trigger] parts_from(text, from)[i]);
                is_step(component) || (i == 0 && from == 0 && component == "."@)
            },
    decreases text.len() - from,
{
    lemma_short_texts();
    if from < text.len() {
        if text[from] == '/' {
            lemma_parts_from_steps(text, from + 1);
            assert(parts_from(text, from) == parts_from(text, from + 1));
        } else {
            let end = next_slash(text, from);
            lemma_next_slash(text, from);
            lemma_next_slash(text, from + 1);
            lemma_parts_from_steps(text, end);
            let rest = parts_from(text, end);
            assert forall|i: int| 0 <= i < parts_from(text, from).len() implies {
                let component = component_at(text, #[trigger] parts_from(text, from)[i]);
                is_step(component) || (i == 0 && from == 0 && component == "."@)
            } by {
                if parts_from(text, from).len() == rest.len() {
                    assert(parts_from(text, from) == rest);
                } else if i > 0 {
                    assert(parts_from(text, from)[i] == rest[i - 1]);
                } else {
                    let component = component_at(text, (from, end));
                    assert(parts_from(text, from)[0] == (from, end));
                    if component == "."@ {
                        assert(component.len() == end - from);
                        assert(component[0] == text[from]);
                    }
                }
            }
        }
    }
}

/// The components of a path are a list that can be the components of a path.
pub proof fn lemma_components_are_listed(path: Seq<char>)
    ensures
        is_component_list(components(path)),
        is_absolute(path) ==> components(path).len() > 0 && components(path)[0] == "/"@,
{
    lemma_short_texts();
    if is_absolute(path) {
        lemma_parts_from_steps(path, 1);
        assert(path.subrange(0, 1) =~= "/"@);
        assert forall|i: int| 0 < i < components(path).len() implies is_step(
            #[trigger] components(path)[i],
        ) by {
            assert(parts(path)[i] == parts_from(path, 1)[i - 1]);
        }
    } else {
        lemma_parts_from_steps(path, 0);
        assert forall|i: int| 0 <= i < components(path).len() implies is_step(
            #[trigger] components(path)[i],
        ) || (i == 0 && components(path)[i] == "."@) by {
            assert(parts(path)[i] == parts_from(path, 0)[i]);
        }
    }
}

/// What normalizing leaves holds no `.` and no `..`.
pub proof fn law_normalized_list_is_normal(list: Seq<Seq<char>>)
    requires
        is_component_list(list),
    ensures
        is_normal_list(normalized(list)),
        normalized(list).len() <= list.len(),
    decreases list.len(),
{
    if list.len() > 0 {
        let front = list.drop_last();
        assert(forall|i: int| 0 <= i < front.len() ==> #[trigger] front[i] == list[i]);
        law_normalized_list_is_normal(front);
        let last = list.last();
        let before = normalized(front);
        if last == "."@ {
        } else if last == ".."@ {
            if before.len() > 0 {
                let less = before.drop_last();
                assert(forall|i: int| 0 <= i < less.len() ==> #[trigger] less[i] == before[i]);
            }
        } else {
            assert(list[list.len() - 1] == last);
            assert forall|i: int| 0 <= i < before.push(last).len() implies (i == 0
                && #[trigger] before.push(last)[i] == "/"@) || is_name(before.push(last)[i]) by {
                if i < before.len() {
                    assert(before.push(last)[i] == before[i]);
                }
            }
        }
    }
}

proof fn lemma_normal_list_stays(list: Seq<Seq<char>>)
    requires
        is_normal_list(list),
    ensures
        normalized(list) == list,
    decreases list.len(),
{
    lemma_short_texts();
    if list.len() > 0 {
        let front = list.drop_last();
        assert(forall|i: int| 0 <= i < front.len() ==> #[trigger] front[i] == list[i]);
        lemma_normal_list_stays(front);
        assert(list[list.len() - 1] == list.last());
        assert("/"@.len() != ".."@.len());
        assert("/"@[0] != "."@[0]);
        assert(front.push(list.last()) =~= list);
    } else {
        assert(normalized(list) =~= list);
    }
}

/// Normalizing a normalized path changes nothing.
pub proof fn law_normalizing_is_idempotent(path: Seq<char>)
    ensures
        ({
            let normal = rendered(normalized(components(path)));
            rendered(normalized(components(normal))) == normal
        }),
{
    let list = normalized(components(path));
    lemma_components_are_listed(path);
    law_normalized_list_is_normal(components(path));
    assert(is_component_list(list));
    law_rendered_path_has_its_components(list);
    lemma_normal_list_stays(list);
}

proof fn lemma_parts_from_component(text: Seq<char>, from: int, n: int)
    requires
        0 <= from <= text.len(),
        0 <= n < parts_from(text, from).len(),
    ensures
        parts_from(text, parts_from(text, from)[n].0) == parts_from(text, from).skip(n),
    decreases text.len() - from,
{
    if from < text.len() {
        if text[from] == '/' {
            assert(parts_from(text, from) == parts_from(text, from + 1));
            lemma_parts_from_component(text, from + 1, n);
        } else {
            let end = next_slash(text, from);
            lemma_next_slash(text, from + 1);
            let rest = parts_from(text, end);
            if parts_from(text, from).len() == rest.len() {
                assert(parts_from(text, from) == rest);
                lemma_parts_from_component(text, end, n);
            } else if n == 0 {
                assert(parts_from(text, from).skip(0) =~= parts_from(text, from));
            } else {
                lemma_parts_from_component(text, end, n - 1);
                assert(parts_from(text, from)[n] == rest[n - 1]);
                assert(parts_from(text, from).skip(n) =~= rest.skip(n - 1));
            }
        }
    }
}

proof fn lemma_parts_from_end(text: Seq<char>, from: int)
    requires
        0 <= from <= text.len(),
        parts_from(text, from).len() > 0,
    ensures
        ({
            let end = parts_from(text, from).last().1;
            &&& from < end <= text.len()
            &&& end == text.len() || text[end] == '/'
            &&& parts_from(text, end).len() == 0
        }),
    decreases text.len() - from,
{
    if from < text.len() {
        if text[from] == '/' {
            assert(parts_from(text, from) == parts_from(text, from + 1));
            lemma_parts_from_end(text, from + 1);
        } else {
            let end = next_slash(text, from);
            lemma_next_slash(text, from + 1);
            lemma_next_slash(text, from);
            let rest = parts_from(text, end);
            if rest.len() > 0 {
                lemma_parts_from_end(text, end);
                assert(parts_from(text, from).last() == rest.last());
            } else {
                assert(parts_from(text, from).last() == (from, end));
            }
        }
    }
}

proof fn lemma_next_slash_within(text: Seq<char>, start: int, end: int, from: int)
    requires
        0 <= start <= from <= end <= text.len(),
        end == text.len() || text[end] == '/',
    ensures
        next_slash(text.subrange(start, end), from - start) == next_slash(text, from) - start,
    decreases end - from,
{
    if from < end {
        assert(text.subrange(start, end)[from - start] == text[from]);
        if text[from] != '/' {
            lemma_next_slash_within(text, start, end, from + 1);
        }
    }
}

/// `list`, moved to the front by `start`.
spec fn moved(list: Seq<(int, int)>, start: int) -> Seq<(int, int)> {
    list.map_values(|part: (int, int)| (part.0 - start, part.1 - start))
}

proof fn lemma_parts_from_within(text: Seq<char>, start: int, end: int, from: int)
    requires
        0 <= start <= from <= end <= text.len(),
        end == text.len() || text[end] == '/',
        parts_from(text, end).len() == 0,
        from > start || start == 0,
    ensures
        parts_from(text.subrange(start, end), from - start) == moved(parts_from(text, from), start),
    decreases end - from,
{
    let inner = text.subrange(start, end);
    if from == end {
        assert(parts_from(inner, from - start) =~= moved(parts_from(text, from), start));
    } else {
        assert(inner[from - start] == text[from]);
        if text[from] == '/' {
            assert(parts_from(text, from) == parts_from(text, from + 1));
            assert(parts_from(inner, from - start) == parts_from(inner, from + 1 - start));
            lemma_parts_from_within(text, start, end, from + 1);
        } else {
            lemma_next_slash_within(text, start, end, from);
            lemma_next_slash(inner, from - start);
            lemma_next_slash(text, from + 1);
            let stop = next_slash(text, from);
            lemma_parts_from_within(text, start, end, stop);
            let rest = parts_from(text, stop);
            assert(moved(seq![(from, stop)] + rest, start) =~= seq![(from - start, stop - start)]
                + moved(rest, start));
            assert(parts_from(inner, from - start) =~= moved(parts_from(text, from), start));
        }
    }
}

/// The text of a path from a component on has the components from there on.
proof fn lemma_remainder_components(path: Seq<char>, n: int)
    requires
        0 <= n < components(path).len(),
    ensures
        components(remainder(path, n)) == components(path).skip(n),
        remainder(path, n).len() > 0,
{
    let places = parts(path);
    let first: int = if is_absolute(path) { 1 } else { 0 };
    lemma_parts_bounds(path);
    lemma_parts_ordered(path);
    let end = places.last().1;
    if parts_from(path, first).len() > 0 {
        lemma_parts_from_end(path, first);
        assert(places.last() == parts_from(path, first).last());
    } else {
        assert(places =~= seq![(0int, 1int)]);
        assert(parts_from(path, 1).len() == 0);
        if path.len() > 1 && path[1] != '/' {
            lemma_next_slash(path, 2);
        }
    }
    let start: int = if n == 0 { 0 } else { places[n].0 };
    let inner = path.subrange(start, end);
    assert(remainder(path, n) == inner);
    assert(start <= places[n].0 < places[n].1 <= end);
    lemma_short_texts();
    if n == 0 {
        assert(inner[0] == path[0]);
        if end == path.len() || path[end] == '/' {
            lemma_parts_from_within(path, 0, end, first);
        } else {
            // only a `.` can stand right behind the root
            assert(end == 1);
            assert(parts_from(inner, 1) =~= Seq::empty());
        }
        assert(moved(parts_from(path, first), 0) =~= parts_from(path, first));
        assert(parts(inner) =~= places);
        assert forall|i: int| 0 <= i < places.len() implies #[trigger] component_at(
            inner,
            places[i],
        ) == component_at(path, places[i]) by {
            assert(places[i].1 <= end);
            assert(component_at(inner, places[i]) =~= component_at(path, places[i]));
        }
        assert(components(inner) =~= components(path).skip(0));
    } else {
        let k = n - first;
        assert(places[n] == parts_from(path, first)[k]);
        lemma_parts_from_component(path, first, k);
        assert(parts_from(path, start) =~= places.skip(n));
        lemma_components_are_listed(path);
        assert(is_step(components(path)[n]));
        assert(component_at(path, places[n])[0] == path[start]);
        assert(path[start] != '/');
        let stop = next_slash(path, start);
        lemma_next_slash(path, start + 1);
        assert(parts_from(path, start)[0] == places[n]);
        assert(places[n].0 == start);
        lemma_part_is_kept(path, start);
        lemma_parts_from_within(path, start, end, stop);
        lemma_next_slash_within(path, start, end, start);
        assert(inner[0] == path[start]);
        assert(parts_from(inner, 0) =~= moved(parts_from(path, start), start));
        assert(parts(inner) =~= moved(places.skip(n), start));
        assert forall|i: int| 0 <= i < places.len() - n implies #[trigger] component_at(
            inner,
            parts(inner)[i],
        ) == component_at(path, places[n + i]) by {
            assert(parts(inner)[i] == (places[n + i].0 - start, places[n + i].1 - start));
            assert(places[n + i].1 <= end);
            assert(places[n + i].0 >= start);
            assert(component_at(inner, parts(inner)[i]) =~= component_at(path, places[n + i]));
        }
        assert(components(inner) =~= components(path).skip(n));
    }
}

/// Where the first component stands right at `from`, it is not skipped.
proof fn lemma_part_is_kept(text: Seq<char>, from: int)
    requires
        0 <= from < text.len(),
        text[from] != '/',
        parts_from(text, from).len() > 0,
        parts_from(text, from)[0].0 == from,
    ensures
        parts_from(text, from) == seq![(from, next_slash(text, from))] + parts_from(
            text,
            next_slash(text, from),
        ),
        next_slash(text, from) == parts_from(text, from)[0].1,
{
    let end = next_slash(text, from);
    lemma_next_slash(text, from + 1);
    let rest = parts_from(text, end);
    if from > 0 && end == from + 1 && text[from] == '.' {
        lemma_parts_from_bounds(text, end);
        assert(parts_from(text, from) == rest);
    }
}

/// A path below the base is shown by the components that the base lacks: the
/// base followed by what is shown leads to the path again.
pub proof fn law_display_strips_the_base(base: Seq<char>, path: Seq<char>)
    requires
        is_under(path, base),
        components(base).len() < components(path).len(),
    ensures
        components(base) + components(displayed(base, path)) == components(path),
{
    let n = components(base).len() as int;
    lemma_remainder_components(path, n);
    assert(components(path).take(n) + components(path).skip(n) =~= components(path));
}

proof fn lemma_normalized_behind(left: Seq<Seq<char>>, right: Seq<Seq<char>>, more: Seq<Seq<char>>)
    requires
        normalized(left) == normalized(right),
    ensures
        normalized(left + more) == normalized(right + more),
    decreases more.len(),
{
    if more.len() == 0 {
        assert(left + more =~= left);
        assert(right + more =~= right);
    } else {
        lemma_normalized_behind(left, right, more.drop_last());
        assert((left + more).drop_last() =~= left + more.drop_last());
        assert((right + more).drop_last() =~= right + more.drop_last());
        assert((left + more).last() == more.last());
        assert((right + more).last() == more.last());
    }
}

proof fn lemma_down_and_up(start: Seq<Seq<char>>, names: Seq<Seq<char>>)
    requires
        forall|i: int| 0 <= i < names.len() ==> is_name(#[trigger] names[i]),
    ensures
        normalized(start + names + Seq::new(names.len(), |i: int| ".."@)) == normalized(start),
    decreases names.len(),
{
    lemma_short_texts();
    let ups = Seq::new(names.len(), |i: int| ".."@);
    if names.len() == 0 {
        assert(start + names + ups =~= start);
    } else {
        let front = names.drop_last();
        assert(forall|i: int| 0 <= i < front.len() ==> #[trigger] front[i] == names[i]);
        lemma_down_and_up(start, front);
        let fewer = Seq::new(front.len(), |i: int| ".."@);
        let there = start + front;
        let back = start + names + seq![".."@];
        assert(back.last() == ".."@);
        assert(back.drop_last() =~= start + names);
        assert((start + names).last() == names.last());
        assert((start + names).drop_last() =~= there);
        let name = names[names.len() - 1];
        assert(is_name(name));
        assert("."@ != ".."@) by {
            assert("."@.len() != ".."@.len());
        }
        if name == "/"@ {
            assert(name[0] == '/');
        }
        assert(normalized(start + names) == normalized(there).push(name));
        assert(normalized(there).push(name).drop_last() =~= normalized(there));
        assert(normalized(back) == normalized(there));
        lemma_normalized_behind(back, there, fewer);
        assert(start + names + ups =~= back + fewer);
    }
}

/// A path that is shown through `..` is reached from the base: the base
/// followed by what is shown normalizes to what the path normalizes to.
pub proof fn law_relative_path_leads_there(base: Seq<char>, path: Seq<char>)
    requires
        !is_under(path, base),
        relative(base, path) is Some,
    ensures
        normalized(components(base) + components(displayed(base, path))) == normalized(
            components(path),
        ),
{
    lemma_short_texts();
    let from = components(base);
    let to = components(path);
    let common = shared(from, to, 0);
    lemma_components_are_listed(base);
    lemma_components_are_listed(path);
    lemma_shared(from, to, 0);
    assert(common >= 1);
    let names = from.skip(common);
    let ups = Seq::new(names.len(), |i: int| ".."@);
    assert forall|i: int| 0 <= i < names.len() implies is_name(#[trigger] names[i]) by {
        assert(names[i] == from[common + i]);
        if names[i] == ".."@ {
            assert(names.contains(".."@));
        }
    }
    let way = steps(from, to);
    assert(way =~= ups + to.skip(common));
    assert(is_step(".."@)) by {
        assert("."@.len() != ".."@.len());
    }
    assert forall|i: int| 0 <= i < way.len() implies is_step(#[trigger] way[i]) by {
        if i >= ups.len() {
            assert(way[i] == to[common + i - ups.len()]);
        }
    }
    law_rendered_path_has_its_components(way);
    let start = from.take(common);
    assert(start =~= to.take(common));
    lemma_down_and_up(start, names);
    assert(start + names =~= from);
    lemma_normalized_behind(from + ups, start, to.skip(common));
    assert(from + way =~= from + ups + to.skip(common));
    assert(start + to.skip(common) =~= to);
}

proof fn lemma_next_slash_in_longer(front: Seq<char>, whole: Seq<char>, from: int)
    requires
        0 <= from < front.len() <= whole.len(),
        whole.take(front.len() as int) == front,
        front.last() == '/',
    ensures
        next_slash(whole, from) == next_slash(front, from),
        from <= next_slash(front, from) < front.len(),
    decreases front.len() - from,
{
    assert(whole[from] == whole.take(front.len() as int)[from]);
    if front[from] != '/' {
        assert(from != front.len() - 1);
        lemma_next_slash_in_longer(front, whole, from + 1);
    }
}

/// Behind a slash the components go on on their own.
proof fn lemma_parts_from_split(front: Seq<char>, whole: Seq<char>, from: int)
    requires
        0 <= from <= front.len() <= whole.len(),
        whole.take(front.len() as int) == front,
        front.len() > 0,
        front.last() == '/',
    ensures
        parts_from(whole, from) == parts_from(front, from) + parts_from(whole, front.len() as int),
    decreases front.len() - from,
{
    let tail = parts_from(whole, front.len() as int);
    if from == front.len() {
        assert(parts_from(front, from) =~= Seq::empty());
        assert(parts_from(front, from) + tail =~= tail);
    } else {
        assert(whole[from] == whole.take(front.len() as int)[from]);
        if front[from] == '/' {
            lemma_parts_from_split(front, whole, from + 1);
            assert(parts_from(whole, from) == parts_from(whole, from + 1));
            assert(parts_from(front, from) == parts_from(front, from + 1));
        } else {
            lemma_next_slash_in_longer(front, whole, from);
            lemma_next_slash(front, from + 1);
            let end = next_slash(front, from);
            lemma_parts_from_split(front, whole, end);
            let rest = parts_from(front, end);
            assert(seq![(from, end)] + (rest + tail) =~= seq![(from, end)] + rest + tail);
        }
    }
}

/// A slash at the end changes no component.
proof fn lemma_closing_slash(path: Seq<char>)
    requires
        path.len() > 0,
    ensures
        components(path + seq!['/']) == components(path),
{
    let longer = path + seq!['/'];
    let first: int = if is_absolute(path) { 1 } else { 0 };
    assert(longer[0] == path[0]);
    lemma_parts_with_closing_slash(path, first);
    assert(parts(longer) == parts(path));
    lemma_parts_bounds(path);
    assert forall|i: int| 0 <= i < parts(path).len() implies #[trigger] component_at(
        longer,
        parts(path)[i],
    ) == component_at(path, parts(path)[i]) by {
        assert(component_at(longer, parts(path)[i]) =~= component_at(path, parts(path)[i]));
    }
    assert(components(longer) =~= components(path));
}

proof fn lemma_parts_with_closing_slash(path: Seq<char>, from: int)
    requires
        0 <= from <= path.len(),
    ensures
        parts_from(path + seq!['/'], from) == parts_from(path, from),
    decreases path.len() - from,
{
    let longer = path + seq!['/'];
    if from == path.len() {
        assert(longer[from] == '/');
        assert(parts_from(longer, from) == parts_from(longer, from + 1));
        assert(parts_from(longer, from + 1) =~= Seq::empty());
        assert(parts_from(path, from) =~= Seq::empty());
    } else {
        assert(longer[from] == path[from]);
        if path[from] == '/' {
            lemma_parts_with_closing_slash(path, from + 1);
            assert(parts_from(longer, from) == parts_from(longer, from + 1));
            assert(parts_from(path, from) == parts_from(path, from + 1));
        } else {
            assert(longer.take(path.len() as int) =~= path);
            lemma_next_slash_in_front(path, longer, from);
            lemma_next_slash(path, from + 1);
            lemma_parts_with_closing_slash(path, next_slash(path, from));
        }
    }
}

/// Two paths one behind the other have the components of both, where the first
/// ends in a slash and the second begins with a step.
proof fn lemma_components_appended(front: Seq<char>, tail: Seq<char>)
    requires
        front.len() > 0,
        front.last() == '/',
        tail.len() > 0,
        tail[0] != '/',
        components(tail).len() > 0,
        is_step(components(tail)[0]),
    ensures
        components(front + tail) == components(front) + components(tail),
{
    let whole = front + tail;
    let n = front.len() as int;
    let first: int = if is_absolute(front) { 1 } else { 0 };
    assert(whole.take(n) =~= front);
    assert(whole[0] == front[0]);
    lemma_parts_from_split(front, whole, first);
    assert(parts(whole) =~= parts(front) + parts_from(whole, n));
    // the first component of the tail is kept, in the tail as in the whole
    assert(whole.subrange(n, whole.len() as int) =~= tail);
    assert(whole[n] == tail[0]);
    let stop = next_slash(whole, n);
    lemma_next_slash(whole, n + 1);
    lemma_next_slash_within(whole, n, whole.len() as int, n);
    lemma_next_slash(tail, 1);
    let inner = next_slash(tail, 0);
    assert(inner == stop - n);
    assert(parts(tail)[0] == (0int, inner));
    let own = component_at(tail, (0int, inner));
    assert(own == components(tail)[0]);
    lemma_short_texts();
    if stop == n + 1 && whole[n] == '.' {
        assert(own =~= "."@);
    }
    assert(parts_from(whole, whole.len() as int) =~= Seq::empty());
    lemma_parts_from_within(whole, n, whole.len() as int, stop);
    let rest = parts_from(whole, stop);
    assert(parts_from(whole, n) == seq![(n, stop)] + rest);
    assert(parts_from(tail, 0) == seq![(0int, inner)] + parts_from(tail, inner));
    assert(parts_from(tail, 0) =~= moved(parts_from(whole, n), n));
    lemma_parts_bounds(front);
    lemma_parts_bounds(tail);
    assert forall|i: int| 0 <= i < components(whole).len() implies #[trigger] components(whole)[i]
        == (components(front) + components(tail))[i] by {
        if i < parts(front).len() {
            let part = parts(front)[i];
            assert(parts(whole)[i] == part);
            assert(whole.subrange(part.0, part.1) =~= front.subrange(part.0, part.1));
        } else {
            let k = i - parts(front).len();
            let part = parts(tail)[k];
            assert(parts(whole)[i] == parts_from(whole, n)[k]);
            assert(part == (parts_from(whole, n)[k].0 - n, parts_from(whole, n)[k].1 - n));
            assert(whole.subrange(part.0 + n, part.1 + n) =~= tail.subrange(part.0, part.1));
        }
    }
    assert(components(whole) =~= components(front) + components(tail));
}

/// A path that is joined to a directory has the components of both.
proof fn lemma_components_joined(base: Seq<char>, tail: Seq<char>)
    requires
        base.len() > 0,
        tail.len() > 0,
        tail[0] != '/',
        components(tail).len() > 0,
        is_step(components(tail)[0]),
    ensures
        components(path_joined(base, tail)) == components(base) + components(tail),
{
    lemma_short_texts();
    if base.last() == '/' {
        lemma_components_appended(base, tail);
    } else {
        let front = base + seq!['/'];
        lemma_closing_slash(base);
        lemma_components_appended(front, tail);
        assert(base + "/"@ + tail == front + tail);
    }
}

proof fn lemma_rendered_first(list: Seq<Seq<char>>)
    requires
        list.len() > 0,
        forall|i: int| 0 <= i < list.len() ==> (#[trigger] list[i]).len() > 0,
    ensures
        rendered(list).len() > 0,
        rendered(list)[0] == list[0][0],
    decreases list.len(),
{
    let front = list.drop_last();
    if front.len() > 0 {
        assert(forall|i: int| 0 <= i < front.len() ==> #[trigger] front[i] == list[i]);
        lemma_rendered_first(front);
    } else {
        assert(rendered(front) =~= Seq::empty());
        assert(list.last() == list[0]);
        assert(rendered(list) =~= list[0]);
    }
}

/// The path that is shown for a file leads back to the file: joined to the
/// base and normalized it has the components of the path, inside the base as
/// well as beside or above it. Both paths are absolute and free of `..`.
pub proof fn law_displayed_path_leads_back(base: Seq<char>, path: Seq<char>)
    requires
        is_absolute(base),
        is_absolute(path),
        !components(base).contains(".."@),
        !components(path).contains(".."@),
        components(base) != components(path),
    ensures
        !is_absolute(displayed(base, path)),
        components(rendered(normalized(components(path_joined(base, displayed(base, path))))))
            == components(path),
{
    lemma_short_texts();
    let from = components(base);
    let to = components(path);
    let shown = displayed(base, path);
    lemma_components_are_listed(base);
    lemma_components_are_listed(path);
    assert forall|i: int| 0 <= i < to.len() implies (i == 0 && #[trigger] to[i] == "/"@) || is_name(
        to[i],
    ) by {
        if i == 0 {
            assert(to[0] == "/"@);
        } else if to[i] == ".."@ {
            assert(to.contains(".."@));
        }
    }
    assert(is_normal_list(to));
    lemma_normal_list_stays(to);
    law_rendered_path_has_its_components(to);
    if is_under(path, base) {
        let n = from.len() as int;
        if n == to.len() {
            assert(to.take(n) =~= to);
        }
        lemma_remainder_components(path, n);
        lemma_parts_bounds(path);
        lemma_parts_ordered(path);
        let places = parts(path);
        assert(shown == path.subrange(places[n].0, places.last().1));
        assert(to.skip(n)[0] == to[n]);
        assert(is_step(to[n]));
        assert(component_at(path, places[n])[0] == path[places[n].0]);
        assert(places[n].1 <= places.last().1);
        assert(shown[0] == path[places[n].0]);
        lemma_components_joined(base, shown);
        assert(to.take(n) + to.skip(n) =~= to);
    } else {
        let common = shared(from, to, 0);
        lemma_shared(from, to, 0);
        assert(common >= 1);
        if common == from.len() {
            assert(to.take(common) =~= from);
        }
        if from.skip(common).contains(".."@) {
            let k = choose|k: int| 0 <= k < from.skip(common).len() && from.skip(common)[k] == ".."@;
            assert(from[common + k] == ".."@);
            assert(from.contains(".."@));
        }
        let way = steps(from, to);
        assert(is_step(".."@)) by {
            assert("."@.len() != ".."@.len());
        }
        let ups = Seq::new((from.len() - common) as nat, |i: int| ".."@);
        assert(way =~= ups + to.skip(common));
        assert forall|i: int| 0 <= i < way.len() implies is_step(#[trigger] way[i]) by {
            if i >= ups.len() {
                assert(way[i] == to[common + i - ups.len()]);
            }
        }
        law_rendered_path_has_its_components(way);
        lemma_rendered_first(way);
        assert(shown == rendered(way));
        lemma_components_joined(base, shown);
        law_relative_path_leads_there(base, path);
    }
}

} // verus!
