//! What holds of JSON Pointers: tokens read back, pointers are unambiguous,
//! and the pointer that is joined for a member leads to that member.

use vstd::prelude::*;

use crate::json::{
    child, escaped, escaped_char, joined, member_named, node_from, slash_from, unescaped, Node,
};

verus! {

/// Escaping works character by character, from the front as from the back.
proof fn lemma_escaped_from_front(token: Seq<char>)
    requires
        token.len() > 0,
    ensures
        escaped(token) == escaped_char(token[0]) + escaped(token.skip(1)),
    decreases token.len(),
{
    if token.len() == 1 {
        assert(token.drop_last() =~= Seq::empty());
        assert(token.skip(1) =~= Seq::empty());
        assert(escaped(token) =~= escaped_char(token[0]) + escaped(token.skip(1)));
    } else {
        let front = token.drop_last();
        lemma_escaped_from_front(front);
        assert(token.skip(1).drop_last() =~= front.skip(1));
        assert(front[0] == token[0]);
        assert(escaped(token) =~= escaped_char(token[0]) + (escaped(front.skip(1)) + escaped_char(
            token.last(),
        )));
    }
}

/// A token reads back as it was before escaping.
pub proof fn law_escaped_token_reads_back(token: Seq<char>)
    ensures
        unescaped(escaped(token)) == token,
    decreases token.len(),
{
    if token.len() == 0 {
        assert(unescaped(escaped(token)) =~= token);
    } else {
        lemma_escaped_from_front(token);
        let rest = token.skip(1);
        law_escaped_token_reads_back(rest);
        let first = escaped_char(token[0]);
        let written = escaped(token);
        assert(written.skip(first.len() as int) =~= escaped(rest));
        assert(written[0] == first[0]);
        if first.len() == 2 {
            assert(written[1] == first[1]);
        }
        assert(seq![token[0]] + rest =~= token);
    }
}

/// An escaped token holds no slash.
pub proof fn law_escaped_token_holds_no_slash(token: Seq<char>)
    ensures
        forall|i: int| 0 <= i < escaped(token).len() ==> #[trigger] escaped(token)[i] != '/',
    decreases token.len(),
{
    if token.len() > 0 {
        law_escaped_token_holds_no_slash(token.drop_last());
        let front = escaped(token.drop_last());
        let last = escaped_char(token.last());
        assert forall|i: int| 0 <= i < escaped(token).len() implies #[trigger] escaped(token)[i]
            != '/' by {
            if i < front.len() {
                assert(escaped(token)[i] == front[i]);
            } else {
                assert(escaped(token)[i] == last[i - front.len()]);
            }
        }
    }
}

proof fn lemma_joined_shape(base: Seq<char>, token: Seq<char>)
    ensures
        joined(base, token) == base + seq!['/'] + escaped(token),
        joined(base, token).len() == base.len() + 1 + escaped(token).len(),
        joined(base, token)[base.len() as int] == '/',
        forall|i: int|
            base.len() < i < joined(base, token).len() ==> #[trigger] joined(base, token)[i] != '/',
{
    reveal_strlit("/");
    assert("/"@ =~= seq!['/']);
    law_escaped_token_holds_no_slash(token);
    let whole = joined(base, token);
    assert forall|i: int| base.len() < i < whole.len() implies #[trigger] whole[i] != '/' by {
        assert(whole[i] == escaped(token)[i - base.len() - 1]);
    }
}

/// Two joined pointers are the same only where both the bases and the tokens
/// are.
pub proof fn law_joined_pointer_is_unambiguous(
    base: Seq<char>,
    token: Seq<char>,
    other_base: Seq<char>,
    other_token: Seq<char>,
)
    requires
        joined(base, token) == joined(other_base, other_token),
    ensures
        base == other_base,
        token == other_token,
{
    lemma_joined_shape(base, token);
    lemma_joined_shape(other_base, other_token);
    let whole = joined(base, token);
    if base.len() < other_base.len() {
        assert(whole[other_base.len() as int] != '/');
    } else if base.len() > other_base.len() {
        assert(whole[base.len() as int] != '/');
    }
    assert(base =~= whole.take(base.len() as int));
    assert(other_base =~= whole.take(base.len() as int));
    assert(escaped(token) =~= whole.skip(base.len() as int + 1));
    assert(escaped(other_token) =~= whole.skip(base.len() as int + 1));
    law_escaped_token_reads_back(token);
    law_escaped_token_reads_back(other_token);
}

proof fn lemma_slash_from_end(path: Seq<char>, i: int)
    requires
        0 <= i <= path.len(),
        forall|k: int| i <= k < path.len() ==> #[trigger] path[k] != '/',
    ensures
        slash_from(path, i) == path.len(),
    decreases path.len() - i,
{
    if i < path.len() {
        lemma_slash_from_end(path, i + 1);
    }
}

proof fn lemma_slash_from_front(path: Seq<char>, whole: Seq<char>, i: int)
    requires
        0 <= i <= path.len() < whole.len(),
        whole.take(path.len() as int) == path,
        whole[path.len() as int] == '/',
    ensures
        slash_from(whole, i) == slash_from(path, i),
        i <= slash_from(path, i) <= path.len(),
    decreases path.len() - i,
{
    if i < path.len() {
        assert(whole[i] == whole.take(path.len() as int)[i]);
        if path[i] != '/' {
            lemma_slash_from_front(path, whole, i + 1);
        }
    }
}

/// The pointer joined of a node's pointer and a token leads to the child that
/// the token names.
pub proof fn law_joined_pointer_leads_to_child(value: &Node, base: Seq<char>, token: Seq<char>)
    requires
        base.len() > 0 ==> base[0] == '/',
    ensures
        node_from(value, joined(base, token)) == match node_from(value, base) {
            Some(node) => child(&node, token),
            None => None,
        },
    decreases base.len(),
{
    lemma_joined_shape(base, token);
    let whole = joined(base, token);
    if base.len() == 0 {
        lemma_slash_from_end(whole, 1);
        assert(whole.subrange(1, whole.len() as int) =~= escaped(token));
        law_escaped_token_reads_back(token);
        assert(whole[0] == '/');
        if let Some(next) = child(value, token) {
            assert(whole.skip(whole.len() as int) =~= Seq::empty());
            assert(node_from(&next, Seq::empty()) == Some(next));
        }
    } else {
        assert(whole.take(base.len() as int) =~= base);
        assert(whole[0] == base[0]);
        lemma_slash_from_front(base, whole, 1);
        let end = slash_from(base, 1);
        assert(whole.subrange(1, end) =~= base.subrange(1, end));
        if let Some(next) = child(value, unescaped(base.subrange(1, end))) {
            let rest = base.skip(end);
            assert(whole.skip(end) =~= joined(rest, token)) by {
                lemma_joined_shape(rest, token);
            }
            if rest.len() > 0 {
                lemma_slash_from_stops(base, 1);
                assert(rest[0] == base[end]);
            }
            law_joined_pointer_leads_to_child(&next, rest, token);
        }
    }
}

proof fn lemma_slash_from_stops(path: Seq<char>, i: int)
    requires
        0 <= i <= path.len(),
    ensures
        slash_from(path, i) < path.len() ==> path[slash_from(path, i)] == '/',
    decreases path.len() - i,
{
    if i < path.len() && path[i] != '/' {
        lemma_slash_from_stops(path, i + 1);
    }
}

/// The pointer joined for a member of an object leads to that member.
pub proof fn law_member_pointer_leads_to_member(value: &Node, key: Seq<char>)
    requires
        value.kind is Object,
    ensures
        node_from(value, joined(Seq::empty(), key)) == member_named(value.kind->Object_0@, key),
{
    law_joined_pointer_leads_to_child(value, Seq::empty(), key);
}

} // verus!
