//! Syntax-level checks over strings that hold expressions.
//!
//! Only issues that can be confirmed without evaluation are reported. A
//! delimiter error suppresses the arity checks of its expression, so that one
//! missing bracket does not fan out into misleading arity messages.

use vstd::prelude::*;

use crate::text::{chars_of, owned};
use crate::wdl::arity::{
    accessor_end, arity_issues, messages, push_issue, reference_call_syntax_issues, skip_accessor,
};
use crate::wdl::lex::{
    balanced_end, char_at, consume_balanced, holds_after, holds_at, ident_end, ident_start,
    quoted_end, skip_ident, skip_spaces, skip_string_literal, spaces_end, starts_ident,
};
use crate::wdl::segments::{body_end, find_interpolation_end, plain_start, root_expression};
use crate::wdl::value::is_root_expression;
use crate::wdl::SyntaxIssue;

verus! {

/// `open` and `close` form a bracket pair.
pub open spec fn pair(open: char, close: char) -> bool {
    (open == '(' && close == ')') || (open == '[' && close == ']') || (open == '{' && close == '}')
}

/// What a scan of delimiters and literals finds: its messages, and whether
/// the arguments of calls can be counted.
pub struct Scan {
    pub issues: Seq<Seq<char>>,
    pub countable: bool,
}

pub open spec fn found(message: Seq<char>, rest: Scan) -> Scan {
    Scan { issues: seq![message] + rest.issues, countable: rest.countable }
}

/// Scan an expression from `i`, with the brackets that are open, whether a
/// delimiter error was seen, and whether a double quote was reported.
pub open spec fn scan_from(e: Seq<char>, i: int, open: Seq<char>, error: bool, quote: bool) -> Scan
    decreases e.len() - i,
{
    if i < 0 || i >= e.len() {
        if open.len() == 0 {
            Scan { issues: Seq::empty(), countable: !error }
        } else if error {
            Scan { issues: Seq::empty(), countable: false }
        } else {
            Scan { issues: seq!["WDL expression has an unclosed delimiter"@], countable: false }
        }
    } else if e[i] == '\'' {
        match quoted_end(e, i + 1) {
            Some(next) => if i < next <= e.len() {
                scan_from(e, next, open, error, quote)
            } else {
                Scan { issues: Seq::empty(), countable: false }
            },
            None => Scan {
                issues: seq!["WDL expression has an unclosed string literal"@],
                countable: false,
            },
        }
    } else if e[i] == '"' {
        if quote {
            scan_from(e, i + 1, open, error, quote)
        } else {
            found(
                "WDL expression uses a double-quoted string literal"@,
                scan_from(e, i + 1, open, error, true),
            )
        }
    } else if e[i] == '(' || e[i] == '[' || e[i] == '{' {
        scan_from(e, i + 1, open.push(e[i]), error, quote)
    } else if e[i] == ')' || e[i] == ']' || e[i] == '}' {
        if open.len() == 0 {
            found(
                "WDL expression has an unmatched closing delimiter"@,
                scan_from(e, i + 1, open, true, quote),
            )
        } else if !pair(open.last(), e[i]) {
            found(
                "WDL expression has mismatched delimiters"@,
                scan_from(e, i + 1, open, true, quote),
            )
        } else {
            scan_from(e, i + 1, open.drop_last(), error, quote)
        }
    } else {
        scan_from(e, i + 1, open, error, quote)
    }
}

/// The issues of one expression body.
pub open spec fn expression_issues(e: Seq<char>) -> Seq<Seq<char>> {
    let scan = scan_from(e, 0, Seq::empty(), false, false);
    if scan.countable {
        scan.issues + arity_issues(e, 0)
    } else {
        scan.issues
    }
}

/// The text of a root expression from `at` on is more than accessors. A space
/// is no accessor: what follows an expression follows it at once.
pub open spec fn is_plain_suffix(e: Seq<char>, at: int) -> bool
    decreases e.len() - at,
{
    if at < 0 || at >= e.len() {
        false
    } else if (e[at] == '?' && (char_at(e, at + 1, '[') || char_at(e, at + 1, '.'))) || e[at] == '['
        || e[at] == '.' {
        match accessor_end(e, at) {
            Some(next) => if at < next <= e.len() {
                is_plain_suffix(e, next)
            } else {
                false
            },
            None => e[at] == '.' || (e[at] == '?' && char_at(e, at + 1, '.')),
        }
    } else {
        true
    }
}

/// A root expression starts with a call that plain text follows.
pub open spec fn has_plain_suffix(e: Seq<char>) -> bool {
    let start = spaces_end(e, 0);
    if 0 <= start < e.len() && starts_ident(e[start]) {
        let open = spaces_end(e, ident_end(e, start + 1));
        match balanced_end(e, open, '(', ')') {
            Some(end) => is_plain_suffix(e, end),
            None => false,
        }
    } else {
        false
    }
}

/// `@identifier(` stands at `at` without braces.
pub open spec fn unbraced_call(text: Seq<char>, at: int) -> bool {
    &&& char_at(text, at, '@')
    &&& at + 1 < text.len()
    &&& starts_ident(text[at + 1])
    &&& char_at(text, spaces_end(text, ident_end(text, at + 2)), '(')
}

/// The issues of plain text with interpolations, from `i` on.
pub open spec fn plain_issues(text: Seq<char>, i: int) -> Seq<Seq<char>>
    decreases text.len() - i,
{
    if i < 0 || i >= text.len() {
        Seq::empty()
    } else if text[i] != '@' {
        plain_issues(text, i + 1)
    } else if char_at(text, i + 1, '@') {
        plain_issues(text, i + 2)
    } else if char_at(text, i + 1, '{') {
        match body_end(text, i + 2, false, 1) {
            Some(end) => if i + 2 <= end < text.len() {
                expression_issues(text.subrange(i + 2, end)) + plain_issues(text, end + 1)
            } else {
                Seq::empty()
            },
            None => seq!["WDL interpolation is missing a closing '}'"@],
        }
    } else if unbraced_call(text, i) {
        seq!["WDL expression inside plain text must use interpolation with @{...}"@]
            + plain_issues(text, i + 1)
    } else {
        plain_issues(text, i + 1)
    }
}

/// The syntax issues of a string, in order.
pub open spec fn text_issues(text: Seq<char>) -> Seq<Seq<char>> {
    if is_root_expression(text) {
        if has_plain_suffix(text.skip(1)) {
            expression_issues(text.skip(1)) + seq![
                "WDL root expression has plain text after the expression; use interpolation with @{...}"@,
            ]
        } else {
            expression_issues(text.skip(1))
        }
    } else {
        plain_issues(text, plain_start(text))
    }
}

fn delimiters_match(open: char, close: char) -> (holds: bool)
    ensures
        holds == pair(open, close),
{
    (open == '(' && close == ')') || (open == '[' && close == ']') || (open == '{' && close == '}')
}

/// Append the issues of a single expression body.
fn syntax_issues_in_expr(e: &[char], issues: &mut Vec<SyntaxIssue>)
    ensures
        messages(final(issues)@) == messages(old(issues)@) + expression_issues(e@),
{
    let length: usize = e.len();
    let ghost before = messages(issues@);
    let ghost scan = scan_from(e@, 0, Seq::empty(), false, false);
    let mut stack: Vec<char> = Vec::new();
    let mut error: bool = false;
    let mut quote: bool = false;
    let mut index: usize = 0;
    assert(stack@ =~= Seq::<char>::empty());
    while index < length
        invariant
            length == e@.len(),
            before == messages(old(issues)@),
            scan.countable == scan_from(e@, index as int, stack@, error, quote).countable,
            before + scan.issues == messages(issues@) + scan_from(
                e@,
                index as int,
                stack@,
                error,
                quote,
            ).issues,
            scan == scan_from(e@, 0, Seq::empty(), false, false),
        decreases length - index,
    {
        let c = e[index];
        let ghost now = messages(issues@);
        if c == '\'' {
            match skip_string_literal(e, index) {
                None => {
                    push_issue(issues, owned("WDL expression has an unclosed string literal"));
                    return;
                },
                Some(next) => {
                    index = next;
                    continue;
                },
            }
        } else if c == '"' {
            if !quote {
                push_issue(issues, owned("WDL expression uses a double-quoted string literal"));
                quote = true;
                proof {
                    let rest = scan_from(e@, index + 1, stack@, error, true).issues;
                    let m = "WDL expression uses a double-quoted string literal"@;
                    assert(now + (seq![m] + rest) =~= now + seq![m] + rest);
                }
            }
        } else if c == '(' || c == '[' || c == '{' {
            stack.push(c);
        } else if c == ')' || c == ']' || c == '}' {
            if stack.len() == 0 {
                push_issue(issues, owned("WDL expression has an unmatched closing delimiter"));
                error = true;
                proof {
                    let rest = scan_from(e@, index + 1, stack@, true, quote).issues;
                    let m = "WDL expression has an unmatched closing delimiter"@;
                    assert(now + (seq![m] + rest) =~= now + seq![m] + rest);
                }
            } else if !delimiters_match(stack[stack.len() - 1], c) {
                push_issue(issues, owned("WDL expression has mismatched delimiters"));
                error = true;
                proof {
                    let rest = scan_from(e@, index + 1, stack@, true, quote).issues;
                    let m = "WDL expression has mismatched delimiters"@;
                    assert(now + (seq![m] + rest) =~= now + seq![m] + rest);
                }
            } else {
                stack.pop();
            }
        }
        index += 1;
    }
    let ghost now = messages(issues@);
    assert(now + Seq::<Seq<char>>::empty() =~= now);
    if stack.len() > 0 {
        if !error {
            push_issue(issues, owned("WDL expression has an unclosed delimiter"));
        }
        return;
    }
    if !error {
        reference_call_syntax_issues(e, issues);
        assert(before + scan.issues + arity_issues(e@, 0) =~= before + (scan.issues
            + arity_issues(e@, 0)));
    }
}

/// Return true when a root expression is followed by text that is not a
/// valid accessor chain.
fn root_expression_has_plain_text_suffix(e: &[char]) -> (holds: bool)
    ensures
        holds == has_plain_suffix(e@),
{
    let length: usize = e.len();
    let start = skip_spaces(e, 0);
    if start >= length || !ident_start(e[start]) {
        return false;
    }
    let open = skip_spaces(e, skip_ident(e, start + 1));
    let mut cursor: usize = match consume_balanced(e, open, '(', ')') {
        Some(end) => end,
        None => {
            return false;
        },
    };
    loop
        invariant
            length == e@.len(),
            cursor <= length,
            has_plain_suffix(e@) == is_plain_suffix(e@, cursor as int),
        decreases length - cursor,
    {
        if cursor >= length {
            return false;
        }
        let c = e[cursor];
        let dotted = c == '.' || (c == '?' && holds_after(e, cursor, '.'));
        let bracketed = c == '[' || (c == '?' && holds_after(e, cursor, '['));
        if !dotted && !bracketed {
            return true;
        }
        match skip_accessor(e, cursor) {
            Some(next) => {
                cursor = next;
            },
            None => {
                return dotted;
            },
        }
    }
}

/// Detect an unbraced `@identifier(` inside plain text.
fn unbraced_expression_at(text: &[char], at: usize) -> (holds: bool)
    requires
        at < text@.len(),
    ensures
        holds == unbraced_call(text@, at as int),
{
    let length: usize = text.len();
    if text[at] != '@' || length - at < 2 || !ident_start(text[at + 1]) {
        return false;
    }
    let open = skip_spaces(text, skip_ident(text, at + 2));
    holds_at(text, open, '(')
}

/// Report syntax issues in `text`.
pub fn syntax_issues_in_string(text: &str) -> (issues: Vec<SyntaxIssue>)
    ensures
        messages(issues@) == text_issues(text@),
{
    let chars = chars_of(text);
    let chars = chars.as_slice();
    let length: usize = chars.len();
    let mut issues: Vec<SyntaxIssue> = Vec::new();
    assert(messages(issues@) =~= Seq::<Seq<char>>::empty());
    if root_expression(chars) {
        let body = vstd::slice::slice_subrange(chars, 1, length);
        assert(body@ =~= text@.skip(1));
        syntax_issues_in_expr(body, &mut issues);
        assert(Seq::<Seq<char>>::empty() + expression_issues(body@) =~= expression_issues(body@));
        if root_expression_has_plain_text_suffix(body) {
            push_issue(
                &mut issues,
                owned(
                    "WDL root expression has plain text after the expression; use interpolation with @{...}",
                ),
            );
        }
        return issues;
    }
    let mut index: usize = if length > 1 && chars[0] == '@' && chars[1] == '@' {
        2
    } else {
        0
    };
    let ghost all = plain_issues(text@, index as int);
    assert(messages(issues@) + all =~= all);
    while index < length
        invariant
            length == chars@.len(),
            chars@ == text@,
            all == text_issues(text@),
            all == messages(issues@) + plain_issues(text@, index as int),
        decreases length - index,
    {
        let ghost now = messages(issues@);
        if chars[index] != '@' {
            index += 1;
            continue;
        }
        if holds_after(chars, index, '@') {
            index += 2;
            continue;
        }
        if holds_after(chars, index, '{') {
            match find_interpolation_end(chars, index + 2) {
                None => {
                    push_issue(&mut issues, owned("WDL interpolation is missing a closing '}'"));
                    return issues;
                },
                Some(end) => {
                    let body = vstd::slice::slice_subrange(chars, index + 2, end);
                    syntax_issues_in_expr(body, &mut issues);
                    proof {
                        let own = expression_issues(body@);
                        let rest = plain_issues(text@, end + 1);
                        assert(now + (own + rest) =~= now + own + rest);
                    }
                    index = end + 1;
                    continue;
                },
            }
        }
        if unbraced_expression_at(chars, index) {
            push_issue(
                &mut issues,
                owned("WDL expression inside plain text must use interpolation with @{...}"),
            );
            proof {
                let m = "WDL expression inside plain text must use interpolation with @{...}"@;
                let rest = plain_issues(text@, index + 1);
                assert(now + (seq![m] + rest) =~= now + seq![m] + rest);
            }
        }
        index += 1;
    }
    assert(messages(issues@) + Seq::<Seq<char>>::empty() =~= messages(issues@));
    issues
}

} // verus!
