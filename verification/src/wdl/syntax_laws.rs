//! What the syntax of expressions is judged by: texts are put together from
//! their pieces, and told apart by how the pieces fit.

use vstd::prelude::*;

use crate::wdl::arity::{accessor_end, arity_issues};
use crate::wdl::laws::lemma_ident_end_at;
use crate::wdl::lex::{
    balanced_end, balanced_from, char_at, continues_ident, ident_end, quoted_end, spaces_end,
};
use crate::wdl::segments::{body_end, plain_start};
use crate::wdl::syntax::{
    expression_issues, has_plain_suffix, is_plain_suffix, plain_issues, scan_from, text_issues,
    unbraced_call, Scan,
};
use crate::wdl::value::is_root_expression;

verus! {

/// An expression whose delimiters fit: characters, quoted texts and groups.
pub enum Fit {
    End,
    Plain(char, Box<Fit>),
    Quoted(Seq<char>, Box<Fit>),
    Group(char, Box<Fit>, Box<Fit>),
}

/// The delimiter that closes what another opens.
pub open spec fn closing(open: char) -> char {
    if open == '(' {
        ')'
    } else if open == '[' {
        ']'
    } else {
        '}'
    }
}

/// A delimiter that opens a group.
pub open spec fn opens(c: char) -> bool {
    c == '(' || c == '[' || c == '{'
}

/// A delimiter that closes a group.
pub open spec fn closes(c: char) -> bool {
    c == ')' || c == ']' || c == '}'
}

/// A text without single quotes.
pub open spec fn is_unquoted(text: Seq<char>) -> bool {
    forall|i: int| 0 <= i < text.len() ==> #[trigger] text[i] != '\''
}

/// A text without `@`.
pub open spec fn has_no_mark(text: Seq<char>) -> bool {
    forall|i: int| 0 <= i < text.len() ==> #[trigger] text[i] != '@'
}

/// The pieces are what they are called, and no quoted text follows another.
pub open spec fn is_fit(fit: Fit) -> bool
    decreases fit,
{
    match fit {
        Fit::End => true,
        Fit::Plain(c, rest) => !opens(c) && !closes(c) && c != '\'' && c != '"' && is_fit(*rest),
        Fit::Quoted(text, rest) => is_unquoted(text) && !(*rest is Quoted) && is_fit(*rest),
        Fit::Group(open, inner, rest) => opens(open) && is_fit(*inner) && is_fit(*rest),
    }
}

/// The pieces put together.
pub open spec fn written(fit: Fit) -> Seq<char>
    decreases fit,
{
    match fit {
        Fit::End => Seq::empty(),
        Fit::Plain(c, rest) => seq![c] + written(*rest),
        Fit::Quoted(text, rest) => seq!['\''] + text + seq!['\''] + written(*rest),
        Fit::Group(open, inner, rest) => seq![open] + written(*inner) + seq![closing(open)]
            + written(*rest),
    }
}

proof fn lemma_first(fit: Fit, after: Seq<char>)
    requires
        is_fit(fit),
        !(fit is Quoted),
        after.len() > 0 ==> after[0] != '\'',
    ensures
        (written(fit) + after).len() > 0 ==> (written(fit) + after)[0] != '\'',
{
    match fit {
        Fit::End => {
            assert(written(fit) + after =~= after);
        },
        _ => {},
    }
}

proof fn lemma_quoted_end(e: Seq<char>, i: int, end: int)
    requires
        0 <= i <= end < e.len(),
        forall|k: int| i <= k < end ==> #[trigger] e[k] != '\'',
        e[end] == '\'',
        end + 1 < e.len() ==> e[end + 1] != '\'',
    ensures
        quoted_end(e, i) == Some(end + 1),
    decreases end - i,
{
    if i < end {
        lemma_quoted_end(e, i + 1, end);
    }
}

proof fn lemma_no_quoted_end(e: Seq<char>, i: int)
    requires
        0 <= i,
        forall|k: int| i <= k < e.len() ==> #[trigger] e[k] != '\'',
    ensures
        quoted_end(e, i) is None,
    decreases e.len() - i,
{
    if i < e.len() {
        lemma_no_quoted_end(e, i + 1);
    }
}

/// Where the quoted text in front of what follows ends.
proof fn lemma_quoted_piece(
    e: Seq<char>,
    before: Seq<char>,
    text: Seq<char>,
    rest: Fit,
    after: Seq<char>,
)
    requires
        is_unquoted(text),
        is_fit(rest),
        !(rest is Quoted),
        after.len() > 0 ==> after[0] != '\'',
        e == before + (seq!['\''] + text + seq!['\''] + written(rest)) + after,
    ensures
        e[before.len() as int] == '\'',
        quoted_end(e, before.len() as int + 1) == Some(before.len() as int + text.len() + 2),
        e == (before + seq!['\''] + text + seq!['\'']) + written(rest) + after,
{
    let at = before.len() as int;
    let end = at + 1 + text.len();
    let tail = written(rest) + after;
    lemma_first(rest, after);
    assert(e =~= before + seq!['\''] + text + seq!['\''] + tail);
    assert forall|k: int| at + 1 <= k < end implies #[trigger] e[k] != '\'' by {
        assert(e[k] == text[k - at - 1]);
    }
    assert(e[end] == '\'');
    if end + 1 < e.len() {
        assert(e[end + 1] == tail[0]);
    }
    lemma_quoted_end(e, at + 1, end);
    assert(e =~= (before + seq!['\''] + text + seq!['\'']) + written(rest) + after);
}

/// Reading pieces that fit changes nothing in what is open.
proof fn lemma_scan(
    fit: Fit,
    before: Seq<char>,
    after: Seq<char>,
    open: Seq<char>,
    error: bool,
    quote: bool,
)
    requires
        is_fit(fit),
        after.len() > 0 ==> after[0] != '\'',
    ensures
        scan_from(before + written(fit) + after, before.len() as int, open, error, quote)
            == scan_from(
            before + written(fit) + after,
            before.len() as int + written(fit).len(),
            open,
            error,
            quote,
        ),
    decreases fit,
{
    let e = before + written(fit) + after;
    let at = before.len() as int;
    match fit {
        Fit::End => {},
        Fit::Plain(c, rest) => {
            assert(e =~= before.push(c) + written(*rest) + after);
            assert(e[at] == c);
            lemma_scan(*rest, before.push(c), after, open, error, quote);
        },
        Fit::Quoted(text, rest) => {
            lemma_quoted_piece(e, before, text, *rest, after);
            lemma_scan(
                *rest,
                before + seq!['\''] + text + seq!['\''],
                after,
                open,
                error,
                quote,
            );
        },
        Fit::Group(c, inner, rest) => {
            let close = closing(c);
            let tail = seq![close] + written(*rest) + after;
            assert(e =~= before.push(c) + written(*inner) + tail);
            assert(e[at] == c);
            assert(tail[0] == close);
            lemma_scan(*inner, before.push(c), tail, open.push(c), error, quote);
            let middle = before.push(c) + written(*inner);
            assert(e[middle.len() as int] == close);
            assert(e =~= middle.push(close) + written(*rest) + after);
            assert(open.push(c).drop_last() =~= open);
            lemma_scan(*rest, middle.push(close), after, open, error, quote);
        },
    }
}

proof fn lemma_scan_whole(fit: Fit)
    requires
        is_fit(fit),
    ensures
        scan_from(written(fit), 0, Seq::empty(), false, false) == (Scan {
            issues: Seq::empty(),
            countable: true,
        }),
{
    let nothing = Seq::<char>::empty();
    lemma_scan(fit, nothing, nothing, Seq::empty(), false, false);
    assert(nothing + written(fit) + nothing =~= written(fit));
}

/// An expression whose delimiters fit is judged by its calls alone.
pub proof fn law_fitting_expressions_are_judged_by_their_calls(fit: Fit)
    requires
        is_fit(fit),
    ensures
        expression_issues(written(fit)) == arity_issues(written(fit), 0),
{
    lemma_scan_whole(fit);
    assert(Seq::<Seq<char>>::empty() + arity_issues(written(fit), 0) =~= arity_issues(
        written(fit),
        0,
    ));
}

/// A delimiter that nothing closes is reported once, and nothing else is.
pub proof fn law_unclosed_delimiters_are_reported(first: Fit, open: char, second: Fit)
    requires
        is_fit(first),
        opens(open),
        is_fit(second),
    ensures
        expression_issues(written(first) + seq![open] + written(second)) == seq![
            "WDL expression has an unclosed delimiter"@,
        ],
{
    let nothing = Seq::<char>::empty();
    let e = written(first) + seq![open] + written(second);
    let tail = seq![open] + written(second);
    assert(e =~= nothing + written(first) + tail);
    lemma_scan(first, nothing, tail, Seq::empty(), false, false);
    let front = written(first).push(open);
    assert(e =~= front + written(second) + nothing);
    assert(e[written(first).len() as int] == open);
    lemma_scan(second, front, nothing, seq![open], false, false);
    assert(Seq::<char>::empty().push(open) =~= seq![open]);
}

/// A delimiter that closes nothing is reported.
pub proof fn law_unmatched_delimiters_are_reported(first: Fit, close: char, second: Fit)
    requires
        is_fit(first),
        closes(close),
        is_fit(second),
    ensures
        expression_issues(written(first) + seq![close] + written(second)) == seq![
            "WDL expression has an unmatched closing delimiter"@,
        ],
{
    let nothing = Seq::<char>::empty();
    let e = written(first) + seq![close] + written(second);
    let tail = seq![close] + written(second);
    assert(e =~= nothing + written(first) + tail);
    lemma_scan(first, nothing, tail, Seq::empty(), false, false);
    let front = written(first).push(close);
    assert(e =~= front + written(second) + nothing);
    assert(e[written(first).len() as int] == close);
    lemma_scan(second, front, nothing, Seq::empty(), true, false);
    let rest = scan_from(e, front.len() as int, Seq::empty(), true, false);
    assert(rest.issues =~= Seq::empty());
    assert(expression_issues(e) =~= seq!["WDL expression has an unmatched closing delimiter"@]);
}

/// A group that another delimiter closes is reported.
pub proof fn law_mismatched_delimiters_are_reported(open: char, inner: Fit, close: char)
    requires
        opens(open),
        is_fit(inner),
        closes(close),
        close != closing(open),
    ensures
        expression_issues(seq![open] + written(inner) + seq![close]) == seq![
            "WDL expression has mismatched delimiters"@,
        ],
{
    let e = seq![open] + written(inner) + seq![close];
    assert(e[0] == open);
    assert(Seq::<char>::empty().push(open) =~= seq![open]);
    lemma_scan(inner, seq![open], seq![close], seq![open], false, false);
    let at = 1 + written(inner).len() as int;
    assert(e[at] == close);
    let rest = scan_from(e, at + 1, seq![open], true, false);
    assert(rest.issues =~= Seq::empty());
    assert(scan_from(e, 0, Seq::empty(), false, false) == scan_from(e, 1, seq![open], false, false));
    assert(expression_issues(e) =~= seq!["WDL expression has mismatched delimiters"@]);
}

/// A quoted text that does not end is reported, and nothing else is.
pub proof fn law_unclosed_literals_are_reported(first: Fit, text: Seq<char>)
    requires
        is_fit(first),
        is_unquoted(text),
    ensures
        expression_issues(written(first) + seq![' ', '\''] + text) == seq![
            "WDL expression has an unclosed string literal"@,
        ],
{
    let nothing = Seq::<char>::empty();
    let e = written(first) + seq![' ', '\''] + text;
    let tail = seq![' ', '\''] + text;
    assert(e =~= nothing + written(first) + tail);
    lemma_scan(first, nothing, tail, Seq::empty(), false, false);
    let at = written(first).len() as int;
    assert(e[at] == ' ' && e[at + 1] == '\'');
    assert forall|k: int| at + 2 <= k < e.len() implies #[trigger] e[k] != '\'' by {
        assert(e[k] == text[k - at - 2]);
    }
    lemma_no_quoted_end(e, at + 2);
    assert(scan_from(e, at, Seq::empty(), false, false) == scan_from(
        e,
        at + 1,
        Seq::empty(),
        false,
        false,
    ));
}

/// A double quote is reported once, and the calls are judged all the same.
pub proof fn law_double_quotes_are_reported(first: Fit, second: Fit, third: Fit)
    requires
        is_fit(first),
        is_fit(second),
        is_fit(third),
    ensures
        ({
            let e = written(first) + seq!['"'] + written(second) + seq!['"'] + written(third);
            expression_issues(e) == seq!["WDL expression uses a double-quoted string literal"@]
                + arity_issues(e, 0)
        }),
{
    let nothing = Seq::<char>::empty();
    let e = written(first) + seq!['"'] + written(second) + seq!['"'] + written(third);
    let tail = seq!['"'] + written(second) + seq!['"'] + written(third);
    assert(e =~= nothing + written(first) + tail);
    lemma_scan(first, nothing, tail, Seq::empty(), false, false);
    let one = written(first).push('"');
    let after = seq!['"'] + written(third);
    assert(e =~= one + written(second) + after);
    assert(e[written(first).len() as int] == '"');
    lemma_scan(second, one, after, Seq::empty(), false, true);
    let two = (one + written(second)).push('"');
    assert(e =~= two + written(third) + nothing);
    assert(e[two.len() as int - 1] == '"');
    lemma_scan(third, two, nothing, Seq::empty(), false, true);
    let rest = scan_from(e, one.len() as int, Seq::empty(), false, true);
    assert(rest == scan_from(e, two.len() as int, Seq::empty(), false, true));
    assert(rest.issues =~= Seq::empty());
    let scan = scan_from(e, 0, Seq::empty(), false, false);
    assert(scan.issues =~= seq!["WDL expression uses a double-quoted string literal"@]);
}

/// Reading pieces that fit stays at the same depth of braces.
proof fn lemma_body(fit: Fit, before: Seq<char>, after: Seq<char>, depth: int)
    requires
        is_fit(fit),
        depth > 0,
        after.len() > 0 ==> after[0] != '\'',
    ensures
        body_end(before + written(fit) + after, before.len() as int, false, depth) == body_end(
            before + written(fit) + after,
            before.len() as int + written(fit).len(),
            false,
            depth,
        ),
    decreases fit,
{
    let e = before + written(fit) + after;
    let at = before.len() as int;
    match fit {
        Fit::End => {},
        Fit::Plain(c, rest) => {
            assert(e =~= before.push(c) + written(*rest) + after);
            assert(e[at] == c);
            lemma_body(*rest, before.push(c), after, depth);
        },
        Fit::Quoted(text, rest) => {
            lemma_quoted_piece(e, before, text, *rest, after);
            let front = before + seq!['\''] + text + seq!['\''];
            let end = at + 1 + text.len();
            assert forall|k: int| at + 1 <= k < end implies #[trigger] e[k] != '\'' by {
                assert(e[k] == text[k - at - 1]);
            }
            assert(e[end] == '\'');
            lemma_first(*rest, after);
            if end + 1 < e.len() {
                assert(e[end + 1] == (written(*rest) + after)[0]);
            }
            assert(at + 1 < e.len());
            if text.len() == 0 {
                assert(e[at + 1] == '\'');
            } else {
                assert(e[at + 1] == text[0]);
            }
            lemma_quoted_body(e, at + 1, end, depth);
            lemma_body(*rest, front, after, depth);
        },
        Fit::Group(c, inner, rest) => {
            let close = closing(c);
            let tail = seq![close] + written(*rest) + after;
            assert(e =~= before.push(c) + written(*inner) + tail);
            assert(e[at] == c);
            assert(tail[0] == close);
            let within = if c == '{' {
                depth + 1
            } else {
                depth
            };
            lemma_body(*inner, before.push(c), tail, within);
            let middle = before.push(c) + written(*inner);
            assert(e[middle.len() as int] == close);
            assert(e =~= middle.push(close) + written(*rest) + after);
            lemma_body(*rest, middle.push(close), after, depth);
        },
    }
}

proof fn lemma_quoted_body(e: Seq<char>, i: int, end: int, depth: int)
    requires
        0 <= i <= end < e.len(),
        forall|k: int| i <= k < end ==> #[trigger] e[k] != '\'',
        e[end] == '\'',
        end + 1 < e.len() ==> e[end + 1] != '\'',
    ensures
        body_end(e, i, true, depth) == body_end(e, end + 1, false, depth),
    decreases end - i,
{
    if i < end {
        lemma_quoted_body(e, i + 1, end, depth);
    }
}

proof fn lemma_plain_issues(text: Seq<char>, i: int, end: int)
    requires
        0 <= i <= end <= text.len(),
        forall|k: int| i <= k < end ==> #[trigger] text[k] != '@',
    ensures
        plain_issues(text, i) == plain_issues(text, end),
    decreases end - i,
{
    if i < end {
        lemma_plain_issues(text, i + 1, end);
    }
}

/// An interpolation is judged as the expression in it, and the text around it
/// is not.
pub proof fn law_interpolations_are_judged_by_their_expression(
    front: Seq<char>,
    fit: Fit,
    back: Seq<char>,
)
    requires
        has_no_mark(front),
        is_fit(fit),
        has_no_mark(back),
    ensures
        text_issues(front + seq!['@', '{'] + written(fit) + seq!['}'] + back) == expression_issues(
            written(fit),
        ),
{
    let text = front + seq!['@', '{'] + written(fit) + seq!['}'] + back;
    let before = front + seq!['@', '{'];
    let after = seq!['}'] + back;
    let n = front.len() as int;
    let end = n + 2 + written(fit).len();
    assert(text =~= before + written(fit) + after);
    assert(text[n] == '@' && text[n + 1] == '{');
    assert(text[end] == '}');
    lemma_body(fit, before, after, 1);
    assert(body_end(text, n + 2, false, 1) == Some(end));
    assert(text.subrange(n + 2, end) =~= written(fit));
    assert forall|k: int| 0 <= k < n implies #[trigger] text[k] != '@' by {
        assert(text[k] == front[k]);
    }
    assert forall|k: int| end + 1 <= k < text.len() implies #[trigger] text[k] != '@' by {
        assert(text[k] == back[k - end - 1]);
    }
    assert(!is_root_expression(text)) by {
        if n > 0 {
            assert(text[0] == front[0]);
        }
    }
    assert(plain_start(text) == 0) by {
        if n > 0 {
            assert(text[0] == front[0]);
        }
    }
    lemma_plain_issues(text, 0, n);
    lemma_plain_issues(text, end + 1, text.len() as int);
    assert(plain_issues(text, text.len() as int).len() == 0);
    assert(text_issues(text) =~= expression_issues(written(fit)));
}

/// An interpolation that nothing closes is reported.
pub proof fn law_unclosed_interpolations_are_reported(front: Seq<char>, fit: Fit)
    requires
        has_no_mark(front),
        is_fit(fit),
    ensures
        text_issues(front + seq!['@', '{'] + written(fit)) == seq![
            "WDL interpolation is missing a closing '}'"@,
        ],
{
    let text = front + seq!['@', '{'] + written(fit);
    let before = front + seq!['@', '{'];
    let n = front.len() as int;
    let nothing = Seq::<char>::empty();
    assert(text =~= before + written(fit) + nothing);
    assert(text[n] == '@' && text[n + 1] == '{');
    lemma_body(fit, before, nothing, 1);
    assert(body_end(text, n + 2, false, 1) is None);
    assert forall|k: int| 0 <= k < n implies #[trigger] text[k] != '@' by {
        assert(text[k] == front[k]);
    }
    assert(!is_root_expression(text) && plain_start(text) == 0) by {
        if n > 0 {
            assert(text[0] == front[0]);
        }
    }
    lemma_plain_issues(text, 0, n);
}

/// A call in the middle of a text without braces is reported.
pub proof fn law_bare_calls_are_reported(front: Seq<char>, name: Seq<char>, back: Seq<char>)
    requires
        front.len() > 0,
        has_no_mark(front),
        name.len() > 0,
        forall|i: int| 0 <= i < name.len() ==> 'a' <= #[trigger] name[i] <= 'z',
        has_no_mark(back),
    ensures
        text_issues(front + seq!['@'] + name + seq!['('] + back) == seq![
            "WDL expression inside plain text must use interpolation with @{...}"@,
        ],
{
    let text = front + seq!['@'] + name + seq!['('] + back;
    let n = front.len() as int;
    let end = n + 1 + name.len();
    assert(text[n] == '@');
    assert(text[end] == '(');
    assert forall|k: int| n + 1 <= k < end implies #[trigger] text[k] == name[k - n - 1] by {}
    assert(text[n + 1] == name[0]);
    assert forall|k: int| n + 2 <= k < end implies continues_ident(#[trigger] text[k]) by {
        assert(text[k] == name[k - n - 1]);
    }
    lemma_ident_end_at(text, n + 2, end);
    assert(spaces_end(text, end) == end);
    assert(unbraced_call(text, n));
    assert forall|k: int| 0 <= k < n implies #[trigger] text[k] != '@' by {
        assert(text[k] == front[k]);
    }
    assert forall|k: int| n + 1 <= k < text.len() implies #[trigger] text[k] != '@' by {
        if k < end {
            assert(text[k] == name[k - n - 1]);
        } else if k > end {
            assert(text[k] == back[k - end - 1]);
        }
    }
    assert(text[0] == front[0]);
    assert(!is_root_expression(text) && plain_start(text) == 0);
    lemma_plain_issues(text, 0, n);
    lemma_plain_issues(text, n + 1, text.len() as int);
    assert(plain_issues(text, text.len() as int).len() == 0);
    assert(text_issues(text) =~= seq![
        "WDL expression inside plain text must use interpolation with @{...}"@,
    ]);
}

/// Reading pieces that fit stays at the same depth of parentheses.
proof fn lemma_balanced(fit: Fit, before: Seq<char>, after: Seq<char>, depth: int)
    requires
        is_fit(fit),
        depth > 0,
        after.len() > 0 ==> after[0] != '\'',
    ensures
        balanced_from(before + written(fit) + after, before.len() as int, depth, '(', ')')
            == balanced_from(
            before + written(fit) + after,
            before.len() as int + written(fit).len(),
            depth,
            '(',
            ')',
        ),
    decreases fit,
{
    let e = before + written(fit) + after;
    let at = before.len() as int;
    match fit {
        Fit::End => {},
        Fit::Plain(c, rest) => {
            assert(e =~= before.push(c) + written(*rest) + after);
            assert(e[at] == c);
            lemma_balanced(*rest, before.push(c), after, depth);
        },
        Fit::Quoted(text, rest) => {
            lemma_quoted_piece(e, before, text, *rest, after);
            lemma_balanced(*rest, before + seq!['\''] + text + seq!['\''], after, depth);
        },
        Fit::Group(c, inner, rest) => {
            let close = closing(c);
            let tail = seq![close] + written(*rest) + after;
            assert(e =~= before.push(c) + written(*inner) + tail);
            assert(e[at] == c);
            assert(tail[0] == close);
            let within = if c == '(' {
                depth + 1
            } else {
                depth
            };
            lemma_balanced(*inner, before.push(c), tail, within);
            let middle = before.push(c) + written(*inner);
            assert(e[middle.len() as int] == close);
            assert(e =~= middle.push(close) + written(*rest) + after);
            lemma_balanced(*rest, middle.push(close), after, depth);
        },
    }
}

/// A call that makes up a text is judged as the expression that it is, and
/// plain text behind the call is reported.
pub proof fn law_text_behind_calls_is_reported(name: Seq<char>, fit: Fit, back: Seq<char>)
    requires
        name.len() > 0,
        forall|i: int| 0 <= i < name.len() ==> 'a' <= #[trigger] name[i] <= 'z',
        is_fit(fit),
        back.len() > 0 ==> back[0] != '.' && back[0] != '?' && back[0] != '[' && back[0] != '\'',
    ensures
        ({
            let call = name + seq!['('] + written(fit) + seq![')'] + back;
            text_issues(seq!['@'] + call) == expression_issues(call) + (if back.len() > 0 {
                seq![
                    "WDL root expression has plain text after the expression; use interpolation with @{...}"@,
                ]
            } else {
                Seq::empty()
            })
        }),
{
    let call = name + seq!['('] + written(fit) + seq![')'] + back;
    let text = seq!['@'] + call;
    let n = name.len() as int;
    assert(text.skip(1) =~= call);
    assert(call[0] == name[0]);
    assert(text[1] == call[0]);
    assert(is_root_expression(text));
    assert forall|k: int| 0 <= k < n implies #[trigger] call[k] == name[k] by {}
    assert(call[n] == '(');
    assert forall|k: int| 1 <= k < n implies continues_ident(#[trigger] call[k]) by {
        assert(call[k] == name[k]);
    }
    lemma_ident_end_at(call, 1, n);
    assert(spaces_end(call, 0) == 0);
    assert(spaces_end(call, n) == n);
    let before = name.push('(');
    let after = seq![')'] + back;
    assert(call =~= before + written(fit) + after);
    lemma_balanced(fit, before, after, 1);
    let end = n + 1 + written(fit).len();
    assert(call[end] == ')');
    assert(balanced_end(call, n, '(', ')') == Some(end + 1));
    if back.len() > 0 {
        assert(call[end + 1] == back[0]);
    }
    assert(is_plain_suffix(call, end + 1) == (back.len() > 0));
    assert(has_plain_suffix(call) == (back.len() > 0));
    if back.len() == 0 {
        assert(expression_issues(call) + Seq::<Seq<char>>::empty() =~= expression_issues(call));
    }
}

/// A name of letters.
pub open spec fn is_lower_word(name: Seq<char>) -> bool {
    name.len() > 0 && forall|i: int| 0 <= i < name.len() ==> 'a' <= #[trigger] name[i] <= 'z'
}

proof fn lemma_ident_to_end(e: Seq<char>, i: int)
    requires
        0 <= i <= e.len(),
        forall|k: int| i <= k < e.len() ==> 'a' <= #[trigger] e[k] <= 'z',
    ensures
        ident_end(e, i) == e.len(),
    decreases e.len() - i,
{
    if i < e.len() {
        lemma_ident_to_end(e, i + 1);
    }
}

proof fn lemma_call_end(name: Seq<char>, fit: Fit, back: Seq<char>)
    requires
        is_lower_word(name),
        is_fit(fit),
    ensures
        ({
            let call = name + seq!['('] + written(fit) + seq![')'] + back;
            let end = name.len() + written(fit).len() + 2;
            &&& is_root_expression(seq!['@'] + call)
            &&& (seq!['@'] + call).skip(1) == call
            &&& has_plain_suffix(call) == is_plain_suffix(call, end as int)
            &&& call.skip(end as int) == back
            &&& call.len() == end + back.len()
        }),
{
    let call = name + seq!['('] + written(fit) + seq![')'] + back;
    let text = seq!['@'] + call;
    let n = name.len() as int;
    assert(text.skip(1) =~= call);
    assert(call[0] == name[0]);
    assert(text[1] == call[0]);
    assert forall|k: int| 0 <= k < n implies #[trigger] call[k] == name[k] by {}
    assert(call[n] == '(');
    assert forall|k: int| 1 <= k < n implies continues_ident(#[trigger] call[k]) by {
        assert(call[k] == name[k]);
    }
    lemma_ident_end_at(call, 1, n);
    assert(spaces_end(call, 0) == 0);
    assert(spaces_end(call, n) == n);
    let before = name.push('(');
    let after = seq![')'] + back;
    assert(call =~= before + written(fit) + after);
    lemma_balanced(fit, before, after, 1);
    let end = n + 1 + written(fit).len();
    assert(call[end] == ')');
    assert(balanced_end(call, n, '(', ')') == Some(end + 1));
    assert(call.skip(end + 1) =~= back);
}

proof fn lemma_accessor_suffix(e: Seq<char>, n: int)
    requires
        0 <= n < e.len(),
        accessor_end(e, n) == Some(e.len() as int),
        e[n] == '.' || (e[n] == '?' && n + 1 < e.len() && e[n + 1] == '.'),
    ensures
        !is_plain_suffix(e, n),
{
    assert(!is_plain_suffix(e, e.len() as int));
    assert(e[n] == '?' ==> char_at(e, n + 1, '.'));
}

proof fn lemma_plain_member(call: Seq<char>, member: Seq<char>)
    requires
        is_lower_word(member),
    ensures
        !is_plain_suffix(call + (seq!['.'] + member), call.len() as int),
        !is_plain_suffix(call + (seq!['?', '.'] + member), call.len() as int),
{
    let n = call.len() as int;
    let plain = call + (seq!['.'] + member);
    assert(plain[n] == '.' && plain[n + 1] == member[0]);
    assert forall|k: int| n + 2 <= k < plain.len() implies 'a' <= #[trigger] plain[k] <= 'z' by {
        assert(plain[k] == member[k - n - 1]);
    }
    lemma_ident_to_end(plain, n + 2);
    lemma_accessor_suffix(plain, n);
    let asked = call + (seq!['?', '.'] + member);
    assert(asked[n] == '?' && asked[n + 1] == '.' && asked[n + 2] == member[0]);
    assert forall|k: int| n + 3 <= k < asked.len() implies 'a' <= #[trigger] asked[k] <= 'z' by {
        assert(asked[k] == member[k - n - 2]);
    }
    lemma_ident_to_end(asked, n + 3);
    assert(char_at(asked, n, '?') && char_at(asked, n + 1, '.') && !char_at(asked, n + 1, '['));
    lemma_accessor_suffix(asked, n);
}

proof fn lemma_read_behind(name: Seq<char>, fit: Fit, back: Seq<char>, plain: bool)
    requires
        is_lower_word(name),
        is_fit(fit),
        ({
            let call = name + seq!['('] + written(fit) + seq![')'];
            is_plain_suffix(call + back, call.len() as int) == plain
        }),
    ensures
        ({
            let call = name + seq!['('] + written(fit) + seq![')'] + back;
            text_issues(seq!['@'] + call) == (if plain {
                expression_issues(call) + seq![
                    "WDL root expression has plain text after the expression; use interpolation with @{...}"@,
                ]
            } else {
                expression_issues(call)
            })
        }),
{
    lemma_call_end(name, fit, back);
}

proof fn lemma_bare_dot(call: Seq<char>, first: char, member: Seq<char>)
    requires
        !('a' <= first <= 'z') && !('A' <= first <= 'Z') && first != '_',
    ensures
        is_plain_suffix(call + (seq!['.', first] + member), call.len() as int),
{
    let n = call.len() as int;
    let bare = call + (seq!['.', first] + member);
    assert(bare[n] == '.' && bare[n + 1] == first);
    assert(accessor_end(bare, n) is None);
}

/// A member that is read of the result of a call is no text behind the call,
/// whether or not the result may be missing; a dot with no name behind it is.
#[verifier::rlimit(40)]
pub proof fn law_members_of_results_may_be_read(
    name: Seq<char>,
    fit: Fit,
    member: Seq<char>,
    first: char,
)
    requires
        is_lower_word(name),
        is_fit(fit),
        is_lower_word(member),
        !('a' <= first <= 'z') && !('A' <= first <= 'Z') && first != '_',
    ensures
        ({
            let call = name + seq!['('] + written(fit) + seq![')'];
            let plain = call + (seq!['.'] + member);
            let asked = call + (seq!['?', '.'] + member);
            let bare = call + (seq!['.', first] + member);
            &&& text_issues(seq!['@'] + plain) == expression_issues(plain)
            &&& text_issues(seq!['@'] + asked) == expression_issues(asked)
            &&& text_issues(seq!['@'] + bare) == expression_issues(bare) + seq![
                "WDL root expression has plain text after the expression; use interpolation with @{...}"@,
            ]
        }),
{
    let call = name + seq!['('] + written(fit) + seq![')'];
    lemma_plain_member(call, member);
    lemma_bare_dot(call, first, member);
    lemma_read_behind(name, fit, seq!['.'] + member, false);
    lemma_read_behind(name, fit, seq!['?', '.'] + member, false);
    lemma_read_behind(name, fit, seq!['.', first] + member, true);
}

} // verus!
