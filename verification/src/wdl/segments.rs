//! Segmentation of strings into expression bodies.

use vstd::prelude::*;

use crate::wdl::value::{is_root_expression, opens_with};

verus! {

/// Position of the next `@{` at or after `i` that no `@` escapes. The scan
/// began at `start`, and what stands in front of that escapes nothing.
pub open spec fn next_opening(text: Seq<char>, start: int, i: int) -> Option<int>
    decreases text.len() - i,
{
    if i < 0 || i + 1 >= text.len() {
        None
    } else if text[i] == '@' && text[i + 1] == '{' && !(i > start && i > 0 && text[i - 1] == '@') {
        Some(i)
    } else {
        next_opening(text, start, i + 1)
    }
}

/// Position of the `}` that closes `depth` braces, read from `i`; quoted
/// braces do not count.
pub open spec fn body_end(text: Seq<char>, i: int, quoted: bool, depth: int) -> Option<int>
    decreases text.len() - i,
{
    if i < 0 || i >= text.len() {
        None
    } else if text[i] == '\'' {
        if quoted && i + 1 < text.len() && text[i + 1] == '\'' {
            body_end(text, i + 2, quoted, depth)
        } else {
            body_end(text, i + 1, !quoted, depth)
        }
    } else if text[i] == '{' && !quoted {
        body_end(text, i + 1, quoted, depth + 1)
    } else if text[i] == '}' && !quoted {
        if depth == 1 {
            Some(i)
        } else {
            body_end(text, i + 1, quoted, depth - 1)
        }
    } else {
        body_end(text, i + 1, quoted, depth)
    }
}

/// The bodies of the interpolations from position `i` on, up to the first
/// that is not closed.
pub open spec fn interpolations(text: Seq<char>, i: int) -> Seq<Seq<char>>
    decreases text.len() - i,
{
    match next_opening(text, i, i) {
        Some(at) => match body_end(text, at + 2, false, 1) {
            Some(end) => if i <= at < end < text.len() {
                seq![text.subrange(at + 2, end)] + interpolations(text, end + 1)
            } else {
                Seq::empty()
            },
            None => Seq::empty(),
        },
        None => Seq::empty(),
    }
}

/// Where plain text begins: after a leading `@@` escape.
pub open spec fn plain_start(text: Seq<char>) -> int {
    if opens_with(text, '@', '@') {
        2
    } else {
        0
    }
}

/// The expression bodies in `text`, without their `@` or `@{...}` shell.
pub open spec fn expression_bodies(text: Seq<char>) -> Seq<Seq<char>> {
    if is_root_expression(text) {
        seq![text.skip(1)]
    } else {
        interpolations(text, plain_start(text))
    }
}

pub proof fn lemma_next_opening(text: Seq<char>, start: int, i: int)
    ensures
        match next_opening(text, start, i) {
            Some(at) => i <= at && at + 1 < text.len() && text[at] == '@' && text[at + 1] == '{',
            None => true,
        },
    decreases text.len() - i,
{
    if 0 <= i && i + 1 < text.len() && !(text[i] == '@' && text[i + 1] == '{' && !(i > start && i
        > 0 && text[i - 1] == '@')) {
        lemma_next_opening(text, start, i + 1);
    }
}

pub proof fn lemma_body_end(text: Seq<char>, i: int, quoted: bool, depth: int)
    ensures
        match body_end(text, i, quoted, depth) {
            Some(end) => i <= end < text.len(),
            None => true,
        },
    decreases text.len() - i,
{
    if 0 <= i < text.len() {
        if text[i] == '\'' {
            if quoted && i + 1 < text.len() && text[i + 1] == '\'' {
                lemma_body_end(text, i + 2, quoted, depth);
            } else {
                lemma_body_end(text, i + 1, !quoted, depth);
            }
        } else {
            lemma_body_end(text, i + 1, quoted, depth + 1);
            lemma_body_end(text, i + 1, quoted, depth - 1);
            lemma_body_end(text, i + 1, quoted, depth);
        }
    }
}

/// Locate the next unescaped `@{` at or after `from`. An `@` in front of
/// `from` escapes nothing.
pub fn find_next_interpolation_start(text: &[char], from: usize) -> (found: Option<usize>)
    ensures
        match found {
            Some(at) => next_opening(text@, from as int, from as int) == Some(at as int) && from
                <= at && at + 1 < text@.len(),
            None => next_opening(text@, from as int, from as int) is None,
        },
{
    let length: usize = text.len();
    let mut i: usize = from;
    while i < length && length - i > 1
        invariant
            from <= i,
            length == text@.len(),
            next_opening(text@, from as int, from as int) == next_opening(
                text@,
                from as int,
                i as int,
            ),
        decreases length - i,
    {
        if text[i] == '@' && text[i + 1] == '{' && !(i > from && text[i - 1] == '@') {
            return Some(i);
        }
        i += 1;
    }
    None
}

/// Position of the `}` that closes the interpolation body at `from`.
pub fn find_interpolation_end(text: &[char], from: usize) -> (found: Option<usize>)
    ensures
        match found {
            Some(end) => body_end(text@, from as int, false, 1) == Some(end as int) && from <= end
                < text@.len(),
            None => body_end(text@, from as int, false, 1) is None,
        },
{
    let length: usize = text.len();
    let mut quoted: bool = false;
    let mut depth: u128 = 1;
    let mut i: usize = from;
    while i < length
        invariant
            from <= i,
            length == text@.len(),
            1 <= depth <= i + 1,
            body_end(text@, from as int, false, 1) == body_end(
                text@,
                i as int,
                quoted,
                depth as int,
            ),
        decreases length - i,
    {
        let c = text[i];
        if c == '\'' {
            if quoted && length - i > 1 && text[i + 1] == '\'' {
                i += 2;
                continue;
            }
            quoted = !quoted;
        } else if c == '{' && !quoted {
            depth += 1;
        } else if c == '}' && !quoted {
            if depth == 1 {
                return Some(i);
            }
            depth -= 1;
        }
        i += 1;
    }
    None
}

/// The views of a list of character lists.
pub open spec fn bodies_of(list: Seq<Vec<char>>) -> Seq<Seq<char>> {
    Seq::new(list.len(), |i: int| list[i]@)
}

fn push_body(bodies: &mut Vec<Vec<char>>, text: &[char], start: usize, end: usize)
    requires
        start <= end <= text@.len(),
    ensures
        bodies_of(final(bodies)@) == bodies_of(old(bodies)@).push(
            text@.subrange(start as int, end as int),
        ),
{
    let body = vstd::slice::slice_to_vec(vstd::slice::slice_subrange(text, start, end));
    bodies.push(body);
    assert(bodies_of(bodies@) =~= bodies_of(old(bodies)@).push(
        text@.subrange(start as int, end as int),
    ));
}

/// `text` is a root expression.
pub fn root_expression(text: &[char]) -> (holds: bool)
    ensures
        holds == is_root_expression(text@),
{
    text.len() > 0 && text[0] == '@' && !(text.len() > 1 && (text[1] == '@' || text[1] == '{'))
}

/// The expression bodies in `text`, in order.
pub fn expression_segments(text: &[char]) -> (bodies: Vec<Vec<char>>)
    ensures
        bodies_of(bodies@) == expression_bodies(text@),
{
    let mut bodies: Vec<Vec<char>> = Vec::new();
    if root_expression(text) {
        push_body(&mut bodies, text, 1, text.len());
        assert(text@.subrange(1, text@.len() as int) =~= text@.skip(1));
        assert(bodies_of(bodies@) =~= seq![text@.skip(1)]);
        return bodies;
    }
    let mut index: usize = if text.len() > 1 && text[0] == '@' && text[1] == '@' {
        2
    } else {
        0
    };
    let length: usize = text.len();
    let ghost start = index as int;
    assert(bodies_of(bodies@) + interpolations(text@, start) =~= interpolations(text@, start));
    loop
        invariant
            length == text@.len(),
            index <= length,
            start == plain_start(text@),
            interpolations(text@, start) == bodies_of(bodies@) + interpolations(
                text@,
                index as int,
            ),
        ensures
            interpolations(text@, start) == bodies_of(bodies@),
        decreases text@.len() + 1 - index,
    {
        assert(bodies_of(bodies@) + Seq::<Seq<char>>::empty() =~= bodies_of(bodies@));
        match find_next_interpolation_start(text, index) {
            None => {
                break;
            },
            Some(at) => match find_interpolation_end(text, at + 2) {
                None => {
                    break;
                },
                Some(end) => {
                    let ghost before = bodies_of(bodies@);
                    push_body(&mut bodies, text, at + 2, end);
                    proof {
                        let body = text@.subrange(at + 2, end as int);
                        let rest = interpolations(text@, end + 1);
                        assert(before + (seq![body] + rest) =~= before.push(body) + rest);
                    }
                    index = end + 1;
                },
            },
        }
    }
    bodies
}

} // verus!
