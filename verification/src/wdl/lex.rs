//! Low-level lexing primitives shared by the scanner modules.
//!
//! Every syntactic mark of the language is an ASCII character, so positions
//! are counted in characters and literals may hold any text.

use vstd::prelude::*;

use crate::text::string_of_range;

verus! {

pub open spec fn is_space(c: char) -> bool {
    c == ' ' || c == '\t' || c == '\n' || c == '\r' || c == '\x0C'
}

pub open spec fn is_letter(c: char) -> bool {
    ('a' <= c && c <= 'z') || ('A' <= c && c <= 'Z')
}

/// First character of an identifier: a letter or `_`.
pub open spec fn starts_ident(c: char) -> bool {
    is_letter(c) || c == '_'
}

/// Later characters of an identifier: letters, digits and `_`.
pub open spec fn continues_ident(c: char) -> bool {
    is_letter(c) || ('0' <= c && c <= '9') || c == '_'
}

/// `e` holds `c` at `i`.
pub open spec fn char_at(e: Seq<char>, i: int, c: char) -> bool {
    0 <= i < e.len() && e[i] == c
}

/// First position at or after `i` that holds no whitespace.
pub open spec fn spaces_end(e: Seq<char>, i: int) -> int
    decreases e.len() - i,
{
    if 0 <= i < e.len() && is_space(e[i]) {
        spaces_end(e, i + 1)
    } else {
        i
    }
}

/// First position at or after `i` that continues no identifier.
pub open spec fn ident_end(e: Seq<char>, i: int) -> int
    decreases e.len() - i,
{
    if 0 <= i < e.len() && continues_ident(e[i]) {
        ident_end(e, i + 1)
    } else {
        i
    }
}

/// Position after the quote that ends a string literal whose text is being
/// read at `i`; a doubled quote belongs to the text.
pub open spec fn quoted_end(e: Seq<char>, i: int) -> Option<int>
    decreases e.len() - i,
{
    if i < 0 || i >= e.len() {
        None
    } else if e[i] == '\'' {
        if char_at(e, i + 1, '\'') {
            quoted_end(e, i + 2)
        } else {
            Some(i + 1)
        }
    } else {
        quoted_end(e, i + 1)
    }
}

/// Position after the `"` that ends a double-quoted text being read at `i`;
/// a backslash escapes the next character.
pub open spec fn double_quoted_end(e: Seq<char>, i: int) -> Option<int>
    decreases e.len() - i,
{
    if i < 0 || i >= e.len() {
        None
    } else if e[i] == '\\' {
        if i + 2 <= e.len() {
            double_quoted_end(e, i + 2)
        } else {
            None
        }
    } else if e[i] == '"' {
        Some(i + 1)
    } else {
        double_quoted_end(e, i + 1)
    }
}

/// A call in an expression: the identifier from `start` up to `end`, and its
/// opening parenthesis.
pub struct CallSite {
    pub start: int,
    pub end: int,
    pub open: int,
}

/// The first `identifier(` pair at or after `i` that stands in no literal.
pub open spec fn call_from(e: Seq<char>, i: int) -> Option<CallSite>
    decreases e.len() - i,
{
    if i < 0 || i >= e.len() {
        None
    } else if e[i] == '\'' {
        match quoted_end(e, i + 1) {
            Some(next) => if i < next <= e.len() {
                call_from(e, next)
            } else {
                None
            },
            None => None,
        }
    } else if e[i] == '"' {
        match double_quoted_end(e, i + 1) {
            Some(next) => if i < next <= e.len() {
                call_from(e, next)
            } else {
                None
            },
            None => None,
        }
    } else if starts_ident(e[i]) {
        let end = ident_end(e, i + 1);
        let open = spaces_end(e, end);
        if char_at(e, open, '(') {
            Some(CallSite { start: i, end, open })
        } else if i < end <= e.len() {
            call_from(e, end)
        } else {
            None
        }
    } else {
        call_from(e, i + 1)
    }
}

/// Position after the `close` that balances `depth` open groups, read from
/// `i`; string literals are skipped.
pub open spec fn balanced_from(e: Seq<char>, i: int, depth: int, open: char, close: char) -> Option<
    int,
>
    decreases e.len() - i,
{
    if i < 0 || i >= e.len() {
        None
    } else if e[i] == '\'' {
        match quoted_end(e, i + 1) {
            Some(next) => if i < next <= e.len() {
                balanced_from(e, next, depth, open, close)
            } else {
                None
            },
            None => None,
        }
    } else if e[i] == open {
        balanced_from(e, i + 1, depth + 1, open, close)
    } else if e[i] == close {
        if depth == 1 {
            Some(i + 1)
        } else {
            balanced_from(e, i + 1, depth - 1, open, close)
        }
    } else {
        balanced_from(e, i + 1, depth, open, close)
    }
}

/// Position after the group that `open` begins at `at`.
pub open spec fn balanced_end(e: Seq<char>, at: int, open: char, close: char) -> Option<int> {
    if char_at(e, at, open) {
        balanced_from(e, at + 1, 1, open, close)
    } else {
        None
    }
}

/// The text of a string literal being read at `i`, doubled quotes unfolded.
pub open spec fn unquoted(e: Seq<char>, i: int) -> Option<Seq<char>>
    decreases e.len() - i,
{
    if i < 0 || i >= e.len() {
        None
    } else if e[i] == '\'' {
        if char_at(e, i + 1, '\'') {
            match unquoted(e, i + 2) {
                Some(rest) => Some(seq!['\''] + rest),
                None => None,
            }
        } else {
            Some(Seq::empty())
        }
    } else {
        match unquoted(e, i + 1) {
            Some(rest) => Some(seq![e[i]] + rest),
            None => None,
        }
    }
}

/// Position of the first doubled quote at or after `i`.
pub open spec fn doubled_quote(e: Seq<char>, i: int) -> Option<int>
    decreases e.len() - i,
{
    if i < 0 || i + 1 >= e.len() {
        None
    } else if e[i] == '\'' && e[i + 1] == '\'' {
        Some(i)
    } else {
        doubled_quote(e, i + 1)
    }
}

/// The nonempty text up to the next doubled quote, for literals whose quotes
/// a template has doubled.
pub open spec fn doubly_quoted(e: Seq<char>, from: int) -> Option<Seq<char>> {
    match doubled_quote(e, from) {
        Some(end) => if end > from {
            Some(e.subrange(from, end))
        } else {
            None
        },
        None => None,
    }
}

/// The first argument of a call, where it is a string literal.
pub open spec fn first_literal(e: Seq<char>, from: int) -> Option<Seq<char>> {
    let i = spaces_end(e, from);
    if !char_at(e, i, '\'') {
        None
    } else if char_at(e, i + 1, '\'') && doubly_quoted(e, i + 2) is Some {
        doubly_quoted(e, i + 2)
    } else {
        unquoted(e, i + 1)
    }
}

pub proof fn lemma_spaces_end(e: Seq<char>, i: int)
    requires
        0 <= i <= e.len(),
    ensures
        i <= spaces_end(e, i) <= e.len(),
    decreases e.len() - i,
{
    if i < e.len() && is_space(e[i]) {
        lemma_spaces_end(e, i + 1);
    }
}

pub proof fn lemma_ident_end(e: Seq<char>, i: int)
    requires
        0 <= i <= e.len(),
    ensures
        i <= ident_end(e, i) <= e.len(),
    decreases e.len() - i,
{
    if i < e.len() && continues_ident(e[i]) {
        lemma_ident_end(e, i + 1);
    }
}

pub proof fn lemma_quoted_end(e: Seq<char>, i: int)
    ensures
        match quoted_end(e, i) {
            Some(end) => i < end <= e.len(),
            None => true,
        },
    decreases e.len() - i,
{
    if 0 <= i < e.len() {
        if e[i] == '\'' {
            if char_at(e, i + 1, '\'') {
                lemma_quoted_end(e, i + 2);
            }
        } else {
            lemma_quoted_end(e, i + 1);
        }
    }
}

pub proof fn lemma_double_quoted_end(e: Seq<char>, i: int)
    ensures
        match double_quoted_end(e, i) {
            Some(end) => i < end <= e.len(),
            None => true,
        },
    decreases e.len() - i,
{
    if 0 <= i < e.len() {
        if e[i] == '\\' {
            if i + 2 <= e.len() {
                lemma_double_quoted_end(e, i + 2);
            }
        } else if e[i] != '"' {
            lemma_double_quoted_end(e, i + 1);
        }
    }
}

pub proof fn lemma_call_from(e: Seq<char>, i: int)
    requires
        0 <= i,
    ensures
        match call_from(e, i) {
            Some(call) => i <= call.start < call.end <= call.open < e.len() && char_at(
                e,
                call.open,
                '(',
            ),
            None => true,
        },
    decreases e.len() - i,
{
    if i < e.len() {
        if e[i] == '\'' {
            lemma_quoted_end(e, i + 1);
            match quoted_end(e, i + 1) {
                Some(next) => {
                    lemma_call_from(e, next);
                },
                None => {},
            }
        } else if e[i] == '"' {
            lemma_double_quoted_end(e, i + 1);
            match double_quoted_end(e, i + 1) {
                Some(next) => {
                    lemma_call_from(e, next);
                },
                None => {},
            }
        } else if starts_ident(e[i]) {
            lemma_ident_end(e, i + 1);
            lemma_spaces_end(e, ident_end(e, i + 1));
            if !char_at(e, spaces_end(e, ident_end(e, i + 1)), '(') {
                lemma_call_from(e, ident_end(e, i + 1));
            }
        } else {
            lemma_call_from(e, i + 1);
        }
    }
}

pub proof fn lemma_balanced_from(e: Seq<char>, i: int, depth: int, open: char, close: char)
    ensures
        match balanced_from(e, i, depth, open, close) {
            Some(end) => i < end <= e.len(),
            None => true,
        },
    decreases e.len() - i,
{
    if 0 <= i < e.len() {
        if e[i] == '\'' {
            lemma_quoted_end(e, i + 1);
            match quoted_end(e, i + 1) {
                Some(next) => {
                    lemma_balanced_from(e, next, depth, open, close);
                },
                None => {},
            }
        } else {
            lemma_balanced_from(e, i + 1, depth + 1, open, close);
            lemma_balanced_from(e, i + 1, depth - 1, open, close);
            lemma_balanced_from(e, i + 1, depth, open, close);
        }
    }
}

pub fn space(c: char) -> (holds: bool)
    ensures
        holds == is_space(c),
{
    c == ' ' || c == '\t' || c == '\n' || c == '\r' || c == '\x0C'
}

pub fn ident_start(c: char) -> (holds: bool)
    ensures
        holds == starts_ident(c),
{
    ('a' <= c && c <= 'z') || ('A' <= c && c <= 'Z') || c == '_'
}

pub fn ident_continue(c: char) -> (holds: bool)
    ensures
        holds == continues_ident(c),
{
    ('a' <= c && c <= 'z') || ('A' <= c && c <= 'Z') || ('0' <= c && c <= '9') || c == '_'
}

/// `e` holds `c` at `i`.
pub fn holds_at(e: &[char], i: usize, c: char) -> (holds: bool)
    ensures
        holds == char_at(e@, i as int, c),
{
    i < e.len() && e[i] == c
}

/// `e` holds `c` right after `i`.
pub fn holds_after(e: &[char], i: usize, c: char) -> (holds: bool)
    requires
        i < e@.len(),
    ensures
        holds == char_at(e@, i + 1, c),
{
    let length: usize = e.len();
    length - i > 1 && e[i + 1] == c
}

/// Skip whitespace from `from`.
pub fn skip_spaces(e: &[char], from: usize) -> (end: usize)
    requires
        from <= e@.len(),
    ensures
        end == spaces_end(e@, from as int),
        from <= end <= e@.len(),
{
    let mut i: usize = from;
    while i < e.len() && space(e[i])
        invariant
            from <= i <= e@.len(),
            spaces_end(e@, from as int) == spaces_end(e@, i as int),
        decreases e@.len() - i,
    {
        i += 1;
    }
    i
}

/// Skip the rest of an identifier from `from`.
pub fn skip_ident(e: &[char], from: usize) -> (end: usize)
    requires
        from <= e@.len(),
    ensures
        end == ident_end(e@, from as int),
        from <= end <= e@.len(),
{
    let mut i: usize = from;
    while i < e.len() && ident_continue(e[i])
        invariant
            from <= i <= e@.len(),
            ident_end(e@, from as int) == ident_end(e@, i as int),
        decreases e@.len() - i,
    {
        i += 1;
    }
    i
}

/// Skip a string literal whose opening quote stands at `from`.
pub fn skip_string_literal(e: &[char], from: usize) -> (end: Option<usize>)
    requires
        from < e@.len(),
    ensures
        match end {
            Some(next) => quoted_end(e@, from + 1) == Some(next as int) && from + 1 < next
                <= e@.len(),
            None => quoted_end(e@, from + 1) is None,
        },
{
    let length: usize = e.len();
    let mut i: usize = from + 1;
    while i < length
        invariant
            from + 1 <= i,
            length == e@.len(),
            quoted_end(e@, from + 1) == quoted_end(e@, i as int),
        decreases length - i,
    {
        if e[i] == '\'' {
            if length - i > 1 && e[i + 1] == '\'' {
                i += 2;
                continue;
            }
            return Some(i + 1);
        }
        i += 1;
    }
    None
}

/// Skip a double-quoted text whose opening quote stands at `from`.
fn skip_double_quoted_literal(e: &[char], from: usize) -> (end: Option<usize>)
    requires
        from < e@.len(),
    ensures
        match end {
            Some(next) => double_quoted_end(e@, from + 1) == Some(next as int) && from + 1 < next
                <= e@.len(),
            None => double_quoted_end(e@, from + 1) is None,
        },
{
    let length: usize = e.len();
    let mut i: usize = from + 1;
    while i < length
        invariant
            from + 1 <= i,
            length == e@.len(),
            double_quoted_end(e@, from + 1) == double_quoted_end(e@, i as int),
        decreases length - i,
    {
        if e[i] == '\\' {
            if length - i < 2 {
                return None;
            }
            i += 2;
        } else if e[i] == '"' {
            return Some(i + 1);
        } else {
            i += 1;
        }
    }
    None
}

/// A call as positions: identifier start and end, opening parenthesis.
pub struct Call {
    pub start: usize,
    pub end: usize,
    pub open: usize,
}

impl View for Call {
    type V = CallSite;

    open spec fn view(&self) -> CallSite {
        CallSite { start: self.start as int, end: self.end as int, open: self.open as int }
    }
}

/// Find the next `identifier(` pair at or after `from`, skipping literals.
pub fn next_call(e: &[char], from: usize) -> (found: Option<Call>)
    ensures
        match found {
            Some(call) => call_from(e@, from as int) == Some(call@) && from <= call.start
                < call.end <= call.open < e@.len() && char_at(e@, call.open as int, '('),
            None => call_from(e@, from as int) is None,
        },
{
    let mut i: usize = from;
    while i < e.len()
        invariant
            from <= i,
            call_from(e@, from as int) == call_from(e@, i as int),
        decreases e@.len() - i,
    {
        let c = e[i];
        if c == '\'' {
            match skip_string_literal(e, i) {
                Some(next) => {
                    i = next;
                },
                None => {
                    return None;
                },
            }
        } else if c == '"' {
            match skip_double_quoted_literal(e, i) {
                Some(next) => {
                    i = next;
                },
                None => {
                    return None;
                },
            }
        } else if ident_start(c) {
            let end = skip_ident(e, i + 1);
            let open = skip_spaces(e, end);
            if holds_at(e, open, '(') {
                return Some(Call { start: i, end, open });
            }
            i = end;
        } else {
            i += 1;
        }
    }
    None
}

/// Advance past a balanced group that begins at `at`.
pub fn consume_balanced(e: &[char], at: usize, open: char, close: char) -> (end: Option<usize>)
    ensures
        match end {
            Some(next) => balanced_end(e@, at as int, open, close) == Some(next as int) && at
                < next <= e@.len(),
            None => balanced_end(e@, at as int, open, close) is None,
        },
{
    if !holds_at(e, at, open) {
        return None;
    }
    let length: usize = e.len();
    let mut depth: usize = 1;
    let mut i: usize = at + 1;
    while i < length
        invariant
            at < i,
            length == e@.len(),
            1 <= depth <= i,
            char_at(e@, at as int, open),
            balanced_end(e@, at as int, open, close) == balanced_from(
                e@,
                i as int,
                depth as int,
                open,
                close,
            ),
        decreases length - i,
    {
        let c = e[i];
        if c == '\'' {
            match skip_string_literal(e, i) {
                Some(next) => {
                    i = next;
                },
                None => {
                    return None;
                },
            }
        } else {
            if c == open {
                depth += 1;
            } else if c == close {
                if depth == 1 {
                    return Some(i + 1);
                }
                depth -= 1;
            }
            i += 1;
        }
    }
    None
}

/// The text up to the next doubled quote after `from`.
fn first_doubly_quoted(e: &[char], from: usize) -> (text: Option<String>)
    requires
        from <= e@.len(),
    ensures
        match text {
            Some(found) => doubly_quoted(e@, from as int) == Some(found@),
            None => doubly_quoted(e@, from as int) is None,
        },
{
    let length: usize = e.len();
    let mut i: usize = from;
    while i < length && length - i > 1
        invariant
            from <= i <= length,
            length == e@.len(),
            doubled_quote(e@, from as int) == doubled_quote(e@, i as int),
        decreases length - i,
    {
        if e[i] == '\'' && e[i + 1] == '\'' {
            if i == from {
                return None;
            }
            return Some(string_of_range(e, from, i));
        }
        i += 1;
    }
    None
}

/// The text of the string literal being read at `from`.
fn unquote(e: &[char], from: usize) -> (text: Option<Vec<char>>)
    requires
        from <= e@.len(),
    ensures
        match text {
            Some(found) => unquoted(e@, from as int) == Some(found@),
            None => unquoted(e@, from as int) is None,
        },
{
    let length: usize = e.len();
    let mut out: Vec<char> = Vec::new();
    let mut i: usize = from;
    proof {
        if unquoted(e@, from as int) is Some {
            let rest = unquoted(e@, from as int)->Some_0;
            assert(out@ + rest =~= rest);
        }
    }
    while i < length
        invariant
            from <= i,
            length == e@.len(),
            unquoted(e@, from as int) == (match unquoted(e@, i as int) {
                Some(rest) => Some(out@ + rest),
                None => None,
            }),
        decreases length - i,
    {
        let c = e[i];
        let ghost before = out@;
        if c == '\'' {
            if length - i > 1 && e[i + 1] == '\'' {
                out.push('\'');
                proof {
                    if unquoted(e@, i + 2) is Some {
                        let rest = unquoted(e@, i + 2)->Some_0;
                        assert(before + (seq!['\''] + rest) =~= out@ + rest);
                    }
                }
                i += 2;
                continue;
            }
            assert(out@ + Seq::<char>::empty() =~= out@);
            return Some(out);
        }
        out.push(c);
        proof {
            if unquoted(e@, i + 1) is Some {
                let rest = unquoted(e@, i + 1)->Some_0;
                assert(before + (seq![c] + rest) =~= out@ + rest);
            }
        }
        i += 1;
    }
    None
}

/// Decode the first argument of a call as a string literal.
pub fn first_string_arg(e: &[char], from: usize) -> (text: Option<String>)
    requires
        from <= e@.len(),
    ensures
        match text {
            Some(found) => first_literal(e@, from as int) == Some(found@),
            None => first_literal(e@, from as int) is None,
        },
{
    let length: usize = e.len();
    let i = skip_spaces(e, from);
    if !holds_at(e, i, '\'') {
        return None;
    }
    assert(i < length);
    if holds_after(e, i, '\'') {
        if let Some(text) = first_doubly_quoted(e, i + 2) {
            return Some(text);
        }
    }
    match unquote(e, i + 1) {
        Some(chars) => Some(crate::text::string_of(chars.as_slice())),
        None => None,
    }
}

} // verus!
