//! What holds of the scanner as a whole: what is written can be read back, and
//! the different views of an expression agree.

use vstd::prelude::*;

use crate::text::{folded, same_ignoring_case};
use crate::wdl::arity::{accessor_end, closer_of, count_from, ArgumentIssue, Counting};
use crate::wdl::functions::{
    calls_from, calls_in_bodies, calls_without_arguments, function_calls, has_zero_argument_call,
    passes, suffixes_from, suffixes_in_bodies, CallFilter,
};
use crate::wdl::lex::{
    balanced_from, call_from, continues_ident, first_literal, ident_end, is_space, lemma_call_from,
    quoted_end, spaces_end, starts_ident, unquoted,
};
use crate::wdl::references::{
    action_helper_names, kind_of, reference_of, references_from, references_in_bodies,
};
use crate::wdl::segments::{
    body_end, expression_bodies, interpolations, next_opening, plain_start,
};
use crate::wdl::syntax::{plain_issues, text_issues};
use crate::wdl::value::{
    can_produce, classified, filled, folded_codes, folded_segments, is_root_expression, led_by,
    literal_pieces, may_match, may_match_ignoring_case, opens_with, plain_codes, plain_segments,
    Classified,
};
use crate::wdl::{FunctionCallView, ReferenceKind, ReferenceView};

verus! {

/// `text` with every `mark` written twice.
pub open spec fn doubled(text: Seq<char>, mark: char) -> Seq<char>
    decreases text.len(),
{
    if text.len() == 0 {
        Seq::empty()
    } else if text[0] == mark {
        seq![mark, mark] + doubled(text.skip(1), mark)
    } else {
        seq![text[0]] + doubled(text.skip(1), mark)
    }
}

/// A string literal reads as the text whose quotes were doubled in it.
pub proof fn lemma_literal_reads_back(e: Seq<char>, i: int, name: Seq<char>, tail: Seq<char>)
    requires
        0 <= i <= e.len(),
        e.skip(i) == doubled(name, '\'') + seq!['\''] + tail,
        tail.len() > 0 ==> tail[0] != '\'',
    ensures
        unquoted(e, i) == Some(name),
        quoted_end(e, i) == Some(i + doubled(name, '\'').len() + 1),
    decreases name.len(),
{
    let rest = e.skip(i);
    assert(rest[0] == e[i]);
    if name.len() == 0 {
        assert(doubled(name, '\'') =~= Seq::empty());
        if tail.len() > 0 {
            assert(rest[1] == tail[0]);
            assert(rest[1] == e[i + 1]);
        }
        assert(name =~= Seq::empty());
    } else {
        let later = name.skip(1);
        let c = name[0];
        let step: int = if c == '\'' { 2 } else { 1 };
        let front = if c == '\'' { seq!['\'', '\''] } else { seq![c] };
        assert(doubled(name, '\'') == front + doubled(later, '\''));
        assert(rest =~= front + (doubled(later, '\'') + seq!['\''] + tail));
        assert(rest[0] == front[0]);
        if c == '\'' {
            assert(rest[1] == front[1]);
            assert(rest[1] == e[i + 1]);
        }
        assert(e.skip(i + step) =~= rest.skip(step));
        assert(rest.skip(step) =~= doubled(later, '\'') + seq!['\''] + tail);
        lemma_literal_reads_back(e, i + step, later, tail);
        assert(seq![c] + later =~= name);
    }
}

/// A name that can stand in front of an argument list.
pub open spec fn is_identifier(name: Seq<char>) -> bool {
    &&& name.len() > 0
    &&& starts_ident(name[0])
    &&& forall|i: int| 0 <= i < name.len() ==> continues_ident(#[trigger] name[i])
}

pub proof fn lemma_ident_end_at(e: Seq<char>, i: int, end: int)
    requires
        0 <= i <= end < e.len(),
        forall|k: int| i <= k < end ==> continues_ident(#[trigger] e[k]),
        !continues_ident(e[end]),
    ensures
        ident_end(e, i) == end,
    decreases end - i,
{
    if i < end {
        lemma_ident_end_at(e, i + 1, end);
    }
}

/// The helpers that refer to something by name are identifiers.
proof fn lemma_helper_is_identifier(helper: Seq<char>)
    requires
        kind_of(helper) is Some,
    ensures
        is_identifier(helper),
        helper != "item"@,
{
    reveal_strlit("item");
    reveal_strlit("actions");
    reveal_strlit("body");
    reveal_strlit("formDataMultiValues");
    reveal_strlit("formDataValue");
    reveal_strlit("multipartBody");
    reveal_strlit("outputs");
    reveal_strlit("result");
    reveal_strlit("iterationIndexes");
    reveal_strlit("variables");
    reveal_strlit("parameters");
    reveal_strlit("items");
    let listed = action_helper_names();
    if listed.contains(helper) {
        let k = choose|k: int| 0 <= k < listed.len() && listed[k] == helper;
        assert(listed[k] == helper);
    }
    assert("actions"@ =~= seq!['a', 'c', 't', 'i', 'o', 'n', 's']);
    assert("actions"@.len() != "item"@.len());
    assert("body"@ =~= seq!['b', 'o', 'd', 'y']);
    assert("body"@[0] != "item"@[0]);
    assert("formDataMultiValues"@ =~= seq!['f', 'o', 'r', 'm', 'D', 'a', 't', 'a', 'M', 'u', 'l', 't', 'i', 'V', 'a', 'l', 'u', 'e', 's']);
    assert("formDataMultiValues"@.len() != "item"@.len());
    assert("formDataValue"@ =~= seq!['f', 'o', 'r', 'm', 'D', 'a', 't', 'a', 'V', 'a', 'l', 'u', 'e']);
    assert("formDataValue"@.len() != "item"@.len());
    assert("multipartBody"@ =~= seq!['m', 'u', 'l', 't', 'i', 'p', 'a', 'r', 't', 'B', 'o', 'd', 'y']);
    assert("multipartBody"@.len() != "item"@.len());
    assert("outputs"@ =~= seq!['o', 'u', 't', 'p', 'u', 't', 's']);
    assert("outputs"@.len() != "item"@.len());
    assert("result"@ =~= seq!['r', 'e', 's', 'u', 'l', 't']);
    assert("result"@.len() != "item"@.len());
    assert("iterationIndexes"@ =~= seq!['i', 't', 'e', 'r', 'a', 't', 'i', 'o', 'n', 'I', 'n', 'd', 'e', 'x', 'e', 's']);
    assert("iterationIndexes"@.len() != "item"@.len());
    assert("variables"@ =~= seq!['v', 'a', 'r', 'i', 'a', 'b', 'l', 'e', 's']);
    assert("variables"@.len() != "item"@.len());
    assert("parameters"@ =~= seq!['p', 'a', 'r', 'a', 'm', 'e', 't', 'e', 'r', 's']);
    assert("parameters"@.len() != "item"@.len());
    assert("items"@ =~= seq!['i', 't', 'e', 'm', 's']);
    assert("items"@.len() != "item"@.len());
}

/// A call of a helper with one string literal.
pub open spec fn helper_call(helper: Seq<char>, name: Seq<char>) -> Seq<char> {
    helper + seq!['(', '\''] + doubled(name, '\'') + seq!['\'', ')']
}

/// A root expression that refers to something by name refers to exactly that,
/// whatever the name holds, once its quotes are doubled. A name that begins
/// with a quote is left out: two quotes in front read as a literal whose
/// quotes a template has doubled.
pub proof fn law_quoted_name_is_referenced(helper: Seq<char>, name: Seq<char>)
    requires
        kind_of(helper) is Some,
        name.len() > 0 ==> name[0] != '\'',
    ensures
        references_in_bodies(expression_bodies(seq!['@'] + helper_call(helper, name))) == seq![
            ReferenceView { kind: kind_of(helper)->Some_0, name },
        ],
{
    lemma_helper_is_identifier(helper);
    let e = helper_call(helper, name);
    let text = seq!['@'] + e;
    let open = helper.len() as int;
    let literal = doubled(name, '\'');
    assert(e =~= helper + (seq!['(', '\''] + literal + seq!['\'', ')']));
    assert forall|i: int| 0 <= i < open implies #[trigger] e[i] == helper[i] by {}
    assert(e[open] == '(');
    assert(e[open + 1] == '\'');
    assert(continues_ident(helper[0]));
    assert forall|k: int| 1 <= k < open implies continues_ident(#[trigger] e[k]) by {
        assert(continues_ident(helper[k]));
    }
    lemma_ident_end_at(e, 1, open);
    assert(spaces_end(e, open) == open);
    assert(e[0] == helper[0]);
    assert(call_from(e, 0) == Some(
        crate::wdl::lex::CallSite { start: 0, end: open, open },
    ));
    assert(e.subrange(0, open) =~= helper);
    let from = open + 2;
    assert(e.skip(from) =~= literal + seq!['\''] + seq![')']);
    lemma_literal_reads_back(e, from, name, seq![')']);
    assert(spaces_end(e, open + 1) == open + 1);
    if name.len() > 0 {
        assert(literal[0] == name[0]);
        assert(e[from] == e.skip(from)[0]);
        assert(e.skip(from)[0] == literal[0]);
    } else {
        assert(literal =~= Seq::empty());
        assert(e[from] == '\'');
        assert(e[from + 1] == ')');
        assert(e.len() == from + 2);
        assert(crate::wdl::lex::doubled_quote(e, from + 1) is None);
    }
    assert(first_literal(e, open + 1) == Some(name));
    let end = from + literal.len() + 1;
    assert(quoted_end(e, from) == Some(end));
    assert(e.len() == end + 1);
    assert(e[end] == ')');
    assert(call_from(e, end + 1) is None);
    assert(call_from(e, end) is None);
    assert(call_from(e, open + 1) is None);
    assert(references_from(e, open + 1) =~= Seq::empty());
    assert(references_from(e, 0) =~= seq![
        ReferenceView { kind: kind_of(helper)->Some_0, name },
    ]);
    assert(text[1] == e[0]);
    assert(is_root_expression(text));
    assert(text.skip(1) =~= e);
    let bodies = expression_bodies(text);
    assert(bodies =~= seq![e]);
    assert(bodies.drop_last() =~= Seq::empty());
    assert(bodies.last() == e);
    assert(references_in_bodies(bodies.drop_last()) =~= Seq::empty());
    assert(references_in_bodies(bodies) =~= references_from(e, 0));
}

proof fn lemma_doubled_from(text: Seq<char>, written: Seq<char>, start: int, i: int)
    requires
        0 <= start <= i <= written.len(),
        written.skip(i) == doubled(text, '@'),
    ensures
        next_opening(written, start, i) is None,
        plain_issues(written, i).len() == 0,
    decreases text.len(),
{
    let rest = written.skip(i);
    if text.len() == 0 {
        assert(written.len() == i);
    } else {
        assert(rest[0] == written[i]);
        let later = text.skip(1);
        if text[0] == '@' {
            assert(doubled(text, '@') == seq!['@', '@'] + doubled(later, '@'));
            assert(rest[1] == written[i + 1]);
            assert(rest.skip(2) =~= doubled(later, '@'));
            assert(written.skip(i + 2) =~= rest.skip(2));
            lemma_doubled_from(later, written, start, i + 2);
            assert(written[i] == '@' && written[i + 1] == '@');
            assert(next_opening(written, start, i + 1) == next_opening(written, start, i + 2));
            assert(next_opening(written, start, i) == next_opening(written, start, i + 1));
        } else {
            assert(rest.skip(1) =~= doubled(later, '@'));
            assert(written.skip(i + 1) =~= rest.skip(1));
            lemma_doubled_from(later, written, start, i + 1);
        }
    }
}

proof fn lemma_doubled_pieces(text: Seq<char>)
    ensures
        literal_pieces(doubled(text, '@')) == Some(seq![text]),
    decreases text.len(),
{
    let written = doubled(text, '@');
    if text.len() == 0 {
        assert(text =~= Seq::empty());
    } else {
        let later = text.skip(1);
        lemma_doubled_pieces(later);
        let step: int = if text[0] == '@' { 2 } else { 1 };
        assert(written.skip(step) =~= doubled(later, '@'));
        if text[0] == '@' {
            assert(opens_with(written, '@', '@'));
        } else {
            assert(written[0] == text[0]);
        }
        assert(literal_pieces(written) == led_by(seq![text[0]], literal_pieces(written.skip(step))));
        assert(seq![text[0]] + later =~= text);
        assert(seq![later].update(0, text) =~= seq![text]);
    }
}

/// A text whose every `@` is doubled means that text: it is a literal, calls
/// nothing, refers to nothing, and has no syntax issue.
pub proof fn law_escaped_text_is_literal(text: Seq<char>)
    ensures
        classified(doubled(text, '@')) == Classified::Literal(text),
        expression_bodies(doubled(text, '@')).len() == 0,
        references_in_bodies(expression_bodies(doubled(text, '@'))).len() == 0,
        function_calls(doubled(text, '@')).len() == 0,
        text_issues(doubled(text, '@')).len() == 0,
{
    let written = doubled(text, '@');
    lemma_doubled_pieces(text);
    if text.len() > 0 {
        if text[0] == '@' {
            assert(opens_with(written, '@', '@'));
            let later = text.skip(1);
            assert(written.skip(2) =~= doubled(later, '@'));
            lemma_doubled_from(later, written, 2, 2);
        } else {
            assert(written[0] == text[0]);
            assert(written.skip(0) =~= written);
            lemma_doubled_from(text, written, 0, 0);
        }
    }
    assert(!is_root_expression(written));
    assert(interpolations(written, plain_start(written)) =~= Seq::empty());
}

/// The number of single quotes in a text.
pub open spec fn quotes(text: Seq<char>) -> nat
    decreases text.len(),
{
    if text.len() == 0 {
        0
    } else {
        quotes(text.skip(1)) + (if text[0] == '\'' {
            1nat
        } else {
            0
        })
    }
}

/// An expression without `@` and braces whose quotes come in pairs.
pub open spec fn is_plain_body(e: Seq<char>) -> bool {
    &&& quotes(e) % 2 == 0
    &&& forall|i: int|
        0 <= i < e.len() ==> #[trigger] e[i] != '@' && e[i] != '{' && e[i] != '}'
}

/// The scan of an interpolation body stops at the brace behind it.
proof fn lemma_body_is_closed(text: Seq<char>, from: int, e: Seq<char>, i: int, quoted: bool)
    requires
        0 <= from,
        from + e.len() < text.len(),
        text.subrange(from, from + e.len()) == e,
        text[from + e.len()] == '}',
        forall|k: int| 0 <= k < e.len() ==> #[trigger] e[k] != '{' && e[k] != '}',
        0 <= i <= e.len(),
        quoted == (quotes(e.skip(i)) % 2 == 1),
    ensures
        body_end(text, from + i, quoted, 1) == Some(from + e.len()),
    decreases e.len() - i,
{
    if i == e.len() {
        assert(e.skip(i).len() == 0);
    } else {
        let rest = e.skip(i);
        assert(text[from + i] == text.subrange(from, from + e.len())[i]);
        assert(rest[0] == e[i]);
        assert(rest.skip(1) =~= e.skip(i + 1));
        if e[i] == '\'' {
            if quoted && text[from + i + 1] == '\'' {
                assert(i + 1 < e.len());
                assert(text[from + i + 1] == text.subrange(from, from + e.len())[i + 1]);
                assert(e.skip(i + 1)[0] == e[i + 1]);
                assert(e.skip(i + 1).skip(1) =~= e.skip(i + 2));
                lemma_body_is_closed(text, from, e, i + 2, quoted);
            } else {
                lemma_body_is_closed(text, from, e, i + 1, !quoted);
            }
        } else {
            lemma_body_is_closed(text, from, e, i + 1, quoted);
        }
    }
}

proof fn lemma_opening_found(text: Seq<char>, start: int, i: int, at: int)
    requires
        0 <= start <= i <= at,
        at + 1 < text.len(),
        forall|k: int| i <= k < at ==> #[trigger] text[k] != '@',
        text[at] == '@',
        text[at + 1] == '{',
        at > start ==> text[at - 1] != '@',
    ensures
        next_opening(text, start, i) == Some(at),
    decreases at - i,
{
    if i < at {
        lemma_opening_found(text, start, i + 1, at);
    }
}

/// A root expression holds itself alone.
proof fn lemma_root_body(e: Seq<char>)
    requires
        is_plain_body(e),
    ensures
        expression_bodies(seq!['@'] + e) == seq![e],
        references_in_bodies(expression_bodies(seq!['@'] + e)) == references_from(e, 0),
        calls_in_bodies(expression_bodies(seq!['@'] + e)) == calls_from(e, 0),
{
    let text = seq!['@'] + e;
    if e.len() > 0 {
        assert(text[1] == e[0]);
    }
    assert(is_root_expression(text));
    assert(text.skip(1) =~= e);
    let bodies = expression_bodies(text);
    assert(bodies =~= seq![e]);
    assert(bodies.drop_last() =~= Seq::empty());
    assert(bodies.last() == e);
    assert(references_in_bodies(bodies.drop_last()) =~= Seq::empty());
    assert(calls_in_bodies(bodies.drop_last()) =~= Seq::empty());
    assert(references_in_bodies(bodies) =~= references_from(e, 0));
    assert(calls_in_bodies(bodies) =~= calls_from(e, 0));
}

/// A text with two interpolations.
pub open spec fn two_interpolations(
    first: Seq<char>,
    between: Seq<char>,
    second: Seq<char>,
) -> Seq<char> {
    seq!['@', '{'] + first + seq!['}'] + between + seq!['@', '{'] + second + seq!['}']
}

/// The references of a text with two interpolations are those of the two
/// expressions, one after the other, and so are its calls.
pub proof fn law_interpolations_are_read_one_by_one(
    first: Seq<char>,
    between: Seq<char>,
    second: Seq<char>,
)
    requires
        is_plain_body(first),
        is_plain_body(second),
        forall|i: int| 0 <= i < between.len() ==> #[trigger] between[i] != '@',
    ensures
        expression_bodies(two_interpolations(first, between, second)) == seq![first, second],
        references_in_bodies(expression_bodies(two_interpolations(first, between, second)))
            == references_in_bodies(expression_bodies(seq!['@'] + first)) + references_in_bodies(
            expression_bodies(seq!['@'] + second),
        ),
        calls_in_bodies(expression_bodies(two_interpolations(first, between, second)))
            == calls_in_bodies(expression_bodies(seq!['@'] + first)) + calls_in_bodies(
            expression_bodies(seq!['@'] + second),
        ),
{
    let text = two_interpolations(first, between, second);
    let close = 2 + first.len() as int;
    let scan = close + 1;
    let open = scan + between.len();
    let body = open + 2;
    let end = body + second.len();
    assert(text.len() == end + 1);
    assert(text[0] == '@' && text[1] == '{');
    assert(text.subrange(2, close) =~= first);
    assert(text[close] == '}');
    assert(text[open] == '@' && text[open + 1] == '{');
    assert(text.subrange(body, end) =~= second);
    assert(text[end] == '}');
    assert(first.skip(0) =~= first);
    assert(second.skip(0) =~= second);
    lemma_opening_found(text, 0, 0, 0);
    lemma_body_is_closed(text, 2, first, 0, false);
    assert forall|k: int| scan <= k < open implies #[trigger] text[k] != '@' by {
        assert(text[k] == between[k - scan]);
    }
    lemma_opening_found(text, scan, scan, open);
    lemma_body_is_closed(text, body, second, 0, false);
    assert(next_opening(text, end + 1, end + 1) is None);
    assert(interpolations(text, end + 1) =~= Seq::empty());
    assert(interpolations(text, scan) =~= seq![second]);
    assert(interpolations(text, 0) =~= seq![first, second]);
    let bodies = expression_bodies(text);
    assert(bodies =~= seq![first, second]);
    lemma_root_body(first);
    lemma_root_body(second);
    assert(bodies.drop_last() =~= seq![first]);
    assert(bodies.last() == second);
    assert(bodies.drop_last() == expression_bodies(seq!['@'] + first));
}

/// Once something stands among the arguments of a call, they are not none.
proof fn lemma_arguments_stay(e: Seq<char>, i: int, s: Counting)
    requires
        s.count >= 0,
        s.has_argument || s.count > 0,
    ensures
        count_from(e, i, s) != Ok::<int, ArgumentIssue>(0),
    decreases e.len() - i,
{
    let top = s.stack.len() == 1;
    if 0 <= i < e.len() {
        if e[i] == '\'' {
            if let Some(next) = quoted_end(e, i + 1) {
                if i < next <= e.len() {
                    lemma_arguments_stay(
                        e,
                        next,
                        Counting { has_argument: true, closed: top || s.closed, ..s },
                    );
                }
            }
        } else if e[i] == '(' || e[i] == '[' || e[i] == '{' {
            lemma_arguments_stay(
                e,
                i + 1,
                Counting {
                    stack: s.stack.push(closer_of(e[i])),
                    has_argument: top || s.has_argument,
                    ..s
                },
            );
        } else if e[i] == ')' || e[i] == ']' || e[i] == '}' {
            if s.stack.len() > 0 {
                lemma_arguments_stay(
                    e,
                    i + 1,
                    Counting {
                        stack: s.stack.drop_last(),
                        closed: s.stack.len() == 2 || s.closed,
                        ..s
                    },
                );
            }
        } else if e[i] == ',' && top {
            lemma_arguments_stay(
                e,
                i + 1,
                Counting { count: s.count + 1, has_argument: false, closed: false, ..s },
            );
        } else if !is_space(e[i]) && top {
            if s.closed {
                if let Some(next) = accessor_end(e, i) {
                    if i < next <= e.len() {
                        lemma_arguments_stay(e, next, s);
                    }
                }
            } else {
                lemma_arguments_stay(e, i + 1, Counting { has_argument: true, ..s });
            }
        } else {
            lemma_arguments_stay(e, i + 1, s);
        }
    }
}

/// An argument list without arguments is closed.
proof fn lemma_no_arguments_are_closed(e: Seq<char>, i: int)
    requires
        count_from(
            e,
            i,
            Counting { stack: seq![')'], count: 0, has_argument: false, closed: false },
        ) == Ok::<int, ArgumentIssue>(0),
    ensures
        balanced_from(e, i, 1, '(', ')') is Some,
    decreases e.len() - i,
{
    let s = Counting { stack: seq![')'], count: 0, has_argument: false, closed: false };
    if e[i] == '\'' {
        if let Some(next) = quoted_end(e, i + 1) {
            if i < next <= e.len() {
                lemma_arguments_stay(
                    e,
                    next,
                    Counting { has_argument: true, closed: true, ..s },
                );
            }
        }
    } else if e[i] == '(' || e[i] == '[' || e[i] == '{' {
        lemma_arguments_stay(
            e,
            i + 1,
            Counting { stack: s.stack.push(closer_of(e[i])), has_argument: true, ..s },
        );
    } else if e[i] == ')' || e[i] == ']' || e[i] == '}' {
    } else if e[i] == ',' {
    } else if !is_space(e[i]) {
        lemma_arguments_stay(e, i + 1, Counting { has_argument: true, ..s });
    } else {
        lemma_no_arguments_are_closed(e, i + 1);
    }
}

/// What follows calls without arguments is found in an expression exactly
/// where it calls the function without arguments.
proof fn lemma_zero_argument_suffixes(e: Seq<char>, i: int, name: Seq<char>)
    requires
        0 <= i <= e.len(),
    ensures
        suffixes_from(e, i, name, CallFilter::ZeroArguments).len() > 0 <==> has_zero_argument_call(
            e,
            i,
            name,
        ),
    decreases e.len() - i,
{
    lemma_call_from(e, i);
    if let Some(call) = call_from(e, i) {
        if i <= call.open < e.len() {
            lemma_zero_argument_suffixes(e, call.open + 1, name);
            if passes(e, call.open, CallFilter::ZeroArguments) {
                lemma_no_arguments_are_closed(e, call.open + 1);
            }
        }
    }
}

proof fn lemma_zero_argument_suffixes_in(bodies: Seq<Seq<char>>, name: Seq<char>)
    ensures
        suffixes_in_bodies(bodies, name, CallFilter::ZeroArguments).len() > 0 <==> exists|k: int|
            0 <= k < bodies.len() && has_zero_argument_call(#[trigger] bodies[k], 0, name),
    decreases bodies.len(),
{
    if bodies.len() > 0 {
        let front = bodies.drop_last();
        lemma_zero_argument_suffixes_in(front, name);
        lemma_zero_argument_suffixes(bodies.last(), 0, name);
        if suffixes_in_bodies(front, name, CallFilter::ZeroArguments).len() > 0 {
            let k = choose|k: int|
                0 <= k < front.len() && has_zero_argument_call(#[trigger] front[k], 0, name);
            assert(bodies[k] == front[k]);
        } else if suffixes_from(bodies.last(), 0, name, CallFilter::ZeroArguments).len() > 0 {
            assert(has_zero_argument_call(bodies[bodies.len() - 1], 0, name));
        } else {
            assert forall|k: int| 0 <= k < bodies.len() implies !has_zero_argument_call(
                #[trigger] bodies[k],
                0,
                name,
            ) by {
                if k < front.len() {
                    assert(front[k] == bodies[k]);
                }
            }
        }
    }
}

/// What follows calls without arguments is found exactly where the text calls
/// the function without arguments.
pub proof fn law_zero_argument_suffixes_tell_of_calls(text: Seq<char>, name: Seq<char>)
    ensures
        suffixes_in_bodies(expression_bodies(text), name, CallFilter::ZeroArguments).len() > 0
            <==> calls_without_arguments(text, name),
{
    lemma_zero_argument_suffixes_in(expression_bodies(text), name);
}

proof fn lemma_same_name(found: Seq<char>, left: Seq<char>, right: Seq<char>)
    requires
        same_ignoring_case(left, right),
    ensures
        same_ignoring_case(found, left) == same_ignoring_case(found, right),
{
    if same_ignoring_case(found, left) {
        assert forall|i: int| 0 <= i < found.len() implies #[trigger] folded(found[i]) == folded(
            right[i],
        ) by {
            assert(folded(left[i]) == folded(right[i]));
        }
    }
    if same_ignoring_case(found, right) {
        assert forall|i: int| 0 <= i < found.len() implies #[trigger] folded(found[i]) == folded(
            left[i],
        ) by {
            assert(folded(left[i]) == folded(right[i]));
        }
    }
}

proof fn lemma_names_ignore_case(
    e: Seq<char>,
    i: int,
    left: Seq<char>,
    right: Seq<char>,
    filter: CallFilter,
)
    requires
        0 <= i <= e.len(),
        same_ignoring_case(left, right),
    ensures
        suffixes_from(e, i, left, filter) == suffixes_from(e, i, right, filter),
        has_zero_argument_call(e, i, left) == has_zero_argument_call(e, i, right),
    decreases e.len() - i,
{
    lemma_call_from(e, i);
    if let Some(call) = call_from(e, i) {
        if i <= call.open < e.len() {
            lemma_names_ignore_case(e, call.open + 1, left, right, filter);
            lemma_same_name(e.subrange(call.start, call.end), left, right);
        }
    }
}

proof fn lemma_suffixes_ignore_case(
    bodies: Seq<Seq<char>>,
    left: Seq<char>,
    right: Seq<char>,
    filter: CallFilter,
)
    requires
        same_ignoring_case(left, right),
    ensures
        suffixes_in_bodies(bodies, left, filter) == suffixes_in_bodies(bodies, right, filter),
    decreases bodies.len(),
{
    if bodies.len() > 0 {
        lemma_suffixes_ignore_case(bodies.drop_last(), left, right, filter);
        lemma_names_ignore_case(bodies.last(), 0, left, right, filter);
    }
}

/// The case of a function's name does not matter: neither for what follows its
/// calls, nor for whether it is called without arguments.
pub proof fn law_function_names_ignore_case(
    text: Seq<char>,
    left: Seq<char>,
    right: Seq<char>,
    filter: CallFilter,
)
    requires
        same_ignoring_case(left, right),
    ensures
        suffixes_in_bodies(expression_bodies(text), left, filter) == suffixes_in_bodies(
            expression_bodies(text),
            right,
            filter,
        ),
        calls_without_arguments(text, left) == calls_without_arguments(text, right),
{
    lemma_suffixes_ignore_case(expression_bodies(text), left, right, filter);
    lemma_suffixes_ignore_case(expression_bodies(text), left, right, CallFilter::ZeroArguments);
    law_zero_argument_suffixes_tell_of_calls(text, left);
    law_zero_argument_suffixes_tell_of_calls(text, right);
}

/// Some call of `calls` can make the reference.
pub open spec fn made_by(calls: Seq<FunctionCallView>, reference: ReferenceView) -> bool {
    exists|k: int|
        0 <= k < calls.len() && (#[trigger] calls[k]).parenthesized && (kind_of(calls[k].name)
            == Some(reference.kind) || (calls[k].name == "item"@ && reference.kind
            == ReferenceKind::CurrentItem))
}

proof fn lemma_made_by_longer(
    calls: Seq<FunctionCallView>,
    front: Seq<FunctionCallView>,
    back: Seq<FunctionCallView>,
    reference: ReferenceView,
)
    requires
        made_by(calls, reference),
    ensures
        made_by(front + calls + back, reference),
{
    let k = choose|k: int|
        0 <= k < calls.len() && (#[trigger] calls[k]).parenthesized && (kind_of(calls[k].name)
            == Some(reference.kind) || (calls[k].name == "item"@ && reference.kind
            == ReferenceKind::CurrentItem));
    assert((front + calls + back)[front.len() + k] == calls[k]);
}

proof fn lemma_references_are_calls(e: Seq<char>, i: int)
    requires
        0 <= i <= e.len(),
    ensures
        forall|k: int|
            0 <= k < references_from(e, i).len() ==> made_by(
                calls_from(e, i),
                #[trigger] references_from(e, i)[k],
            ),
    decreases e.len() - i,
{
    lemma_call_from(e, i);
    if let Some(call) = call_from(e, i) {
        if i <= call.open < e.len() {
            lemma_references_are_calls(e, call.open + 1);
            let name = e.subrange(call.start, call.end);
            let here = reference_of(e, name, call.open);
            let first = seq![FunctionCallView { name, parenthesized: true }];
            let later = calls_from(e, call.open + 1);
            assert forall|k: int| 0 <= k < references_from(e, i).len() implies made_by(
                calls_from(e, i),
                #[trigger] references_from(e, i)[k],
            ) by {
                let reference = references_from(e, i)[k];
                if k < here.len() {
                    assert(reference == here[k]);
                    assert(calls_from(e, i)[0] == first[0]);
                } else {
                    assert(reference == references_from(e, call.open + 1)[k - here.len()]);
                    lemma_made_by_longer(later, first, Seq::empty(), reference);
                    assert(first + later + Seq::empty() =~= calls_from(e, i));
                }
            }
        }
    }
}

/// Every reference in a string is made by a call in that string.
pub proof fn law_references_are_calls(bodies: Seq<Seq<char>>)
    ensures
        forall|k: int|
            0 <= k < references_in_bodies(bodies).len() ==> made_by(
                calls_in_bodies(bodies),
                #[trigger] references_in_bodies(bodies)[k],
            ),
    decreases bodies.len(),
{
    if bodies.len() > 0 {
        let front = bodies.drop_last();
        let last = bodies.last();
        law_references_are_calls(front);
        lemma_references_are_calls(last, 0);
        let before = references_in_bodies(front);
        assert forall|k: int| 0 <= k < references_in_bodies(bodies).len() implies made_by(
            calls_in_bodies(bodies),
            #[trigger] references_in_bodies(bodies)[k],
        ) by {
            let reference = references_in_bodies(bodies)[k];
            if k < before.len() {
                assert(reference == before[k]);
                lemma_made_by_longer(
                    calls_in_bodies(front),
                    Seq::empty(),
                    calls_from(last, 0),
                    reference,
                );
                assert(Seq::empty() + calls_in_bodies(front) + calls_from(last, 0)
                    =~= calls_in_bodies(bodies));
            } else {
                assert(reference == references_from(last, 0)[k - before.len()]);
                lemma_made_by_longer(
                    calls_from(last, 0),
                    calls_in_bodies(front),
                    Seq::empty(),
                    reference,
                );
                assert(calls_in_bodies(front) + calls_from(last, 0) + Seq::empty()
                    =~= calls_in_bodies(bodies));
            }
        }
    }
}

/// A code point after ASCII letters are lowered.
spec fn lowered(code: u32) -> u32 {
    if 65 <= code <= 90 {
        (code + 32) as u32
    } else {
        code
    }
}

spec fn lowered_text(codes: Seq<u32>) -> Seq<u32> {
    codes.map_values(|code: u32| lowered(code))
}

spec fn lowered_list(list: Seq<Seq<u32>>) -> Seq<Seq<u32>> {
    list.map_values(|codes: Seq<u32>| lowered_text(codes))
}

proof fn lemma_filled_lowered(segments: Seq<Seq<u32>>, fills: Seq<Seq<u32>>)
    ensures
        filled(lowered_list(segments), lowered_list(fills)) == lowered_text(
            filled(segments, fills),
        ),
    decreases segments.len(),
{
    if segments.len() == 0 {
        assert(filled(lowered_list(segments), lowered_list(fills)) =~= lowered_text(
            filled(segments, fills),
        ));
    } else if segments.len() == 1 || fills.len() == 0 {
    } else {
        lemma_filled_lowered(segments.drop_last(), fills.drop_last());
        assert(lowered_list(segments).drop_last() =~= lowered_list(segments.drop_last()));
        assert(lowered_list(fills).drop_last() =~= lowered_list(fills.drop_last()));
        let front = filled(segments.drop_last(), fills.drop_last());
        assert(lowered_text(front + fills.last() + segments.last()) =~= lowered_text(front)
            + lowered_text(fills.last()) + lowered_text(segments.last()));
    }
}

proof fn lemma_codes_lowered(text: Seq<char>)
    ensures
        lowered_text(plain_codes(text)) == folded_codes(text),
{
    assert forall|i: int| 0 <= i < text.len() implies #[trigger] lowered(text[i] as u32) == folded(
        text[i],
    ) as u32 by {
        lemma_code_lowered(text[i]);
    }
    assert(lowered_text(plain_codes(text)) =~= folded_codes(text));
}

proof fn lemma_code_lowered(c: char)
    ensures
        lowered(c as u32) == folded(c) as u32,
{
}

/// A value that may equal one of a list may equal it whatever its case.
pub proof fn law_exact_match_is_a_match(value: Classified, allowed: Seq<Seq<char>>)
    requires
        may_match(value, allowed),
    ensures
        may_match_ignoring_case(value, allowed),
{
    match value {
        Classified::Literal(text) => {
            let i = choose|i: int| 0 <= i < allowed.len() && allowed[i] == text;
            assert(same_ignoring_case(text, allowed[i]));
        },
        Classified::Template(segments) => {
            let i = choose|i: int|
                0 <= i < allowed.len() && can_produce(
                    plain_segments(segments),
                    plain_codes(#[trigger] allowed[i]),
                );
            let plain = plain_segments(segments);
            let fills = choose|fills: Seq<Seq<u32>>|
                fills.len() + 1 == plain.len() && #[trigger] filled(plain, fills) == plain_codes(
                    allowed[i],
                );
            lemma_filled_lowered(plain, fills);
            assert forall|k: int| 0 <= k < segments.len() implies #[trigger] lowered_list(plain)[k]
                == folded_segments(segments)[k] by {
                lemma_codes_lowered(segments[k]);
            }
            assert(lowered_list(plain) =~= folded_segments(segments));
            lemma_codes_lowered(allowed[i]);
            assert(filled(folded_segments(segments), lowered_list(fills)) == folded_codes(
                allowed[i],
            ));
        },
        _ => {},
    }
}

} // verus!
