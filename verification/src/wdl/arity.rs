//! Arity checks for the helper functions that the scanner recognizes.
//!
//! The table is curated: anything not in it is accepted, so new expression
//! functions never cause false positives.

use vstd::prelude::*;

use crate::text::{decimal, decimal_of_usize, in_list, names, one_of, string_of_range, text3, text6};
use crate::wdl::lex::{
    balanced_end, call_from, char_at, consume_balanced, holds_after, holds_at, ident_end,
    ident_start, is_space, next_call, quoted_end, skip_ident, skip_string_literal, space,
    starts_ident,
};
use crate::wdl::SyntaxIssue;

verus! {

/// How many arguments a helper takes.
#[derive(Debug, Clone, Copy, PartialEq, Eq, Structural)]
pub enum FunctionArity {
    Exact(usize),
    AtLeast(usize),
}

/// Why the arguments of a call cannot be counted.
#[derive(Debug, Clone, Copy, PartialEq, Eq, Structural)]
pub enum ArgumentIssue {
    /// An argument without text, as in `foo(,)`.
    Empty,
    /// Mismatched brackets, an unclosed literal, or text after a closed argument.
    Malformed,
}

pub open spec fn one_argument_names() -> Seq<Seq<char>> {
    seq![
        "actions"@,
        "body"@,
        "iterationIndexes"@,
        "items"@,
        "outputs"@,
        "parameters"@,
        "result"@,
        "variables"@,
        "appsetting"@,
        "triggerFormDataMultiValues"@,
        "triggerFormDataValue"@,
        "triggerMultipartBody"@,
    ]
}

pub open spec fn two_argument_names() -> Seq<Seq<char>> {
    seq!["formDataMultiValues"@, "formDataValue"@, "multipartBody"@]
}

pub open spec fn no_argument_names() -> Seq<Seq<char>> {
    seq![
        "action"@,
        "item"@,
        "listCallbackUrl"@,
        "trigger"@,
        "triggerBody"@,
        "triggerOutputs"@,
        "triggerbody"@,
        "workflow"@,
    ]
}

/// The arity of a recognized helper.
pub open spec fn arity_of(name: Seq<char>) -> Option<FunctionArity> {
    if one_of(name, one_argument_names()) {
        Some(FunctionArity::Exact(1))
    } else if one_of(name, two_argument_names()) {
        Some(FunctionArity::Exact(2))
    } else if one_of(name, no_argument_names()) {
        Some(FunctionArity::Exact(0))
    } else if name == "concat"@ {
        Some(FunctionArity::AtLeast(2))
    } else {
        None
    }
}

pub open spec fn accepted(arity: FunctionArity, actual: int) -> bool {
    match arity {
        FunctionArity::Exact(expected) => actual == expected,
        FunctionArity::AtLeast(minimum) => actual >= minimum,
    }
}

/// The message for a call with the wrong number of arguments.
pub open spec fn arity_message(arity: FunctionArity, name: Seq<char>, actual: int) -> Seq<char> {
    match arity {
        FunctionArity::Exact(expected) => "WDL function '"@ + name + "' expects "@ + decimal(
            expected as int,
        ) + " argument(s), found "@ + decimal(actual),
        FunctionArity::AtLeast(minimum) => "WDL function '"@ + name + "' expects at least "@
            + decimal(minimum as int) + " argument(s), found "@ + decimal(actual),
    }
}

/// Position after one accessor (`.field`, `?.field`, `[...]`, `?[...]`) at `i`.
pub open spec fn accessor_end(e: Seq<char>, i: int) -> Option<int> {
    if char_at(e, i, '.') {
        if 0 <= i + 1 < e.len() && starts_ident(e[i + 1]) {
            Some(ident_end(e, i + 2))
        } else {
            None
        }
    } else if char_at(e, i, '?') && char_at(e, i + 1, '[') {
        balanced_end(e, i + 1, '[', ']')
    } else if char_at(e, i, '?') && char_at(e, i + 1, '.') {
        if 0 <= i + 2 < e.len() && starts_ident(e[i + 2]) {
            Some(ident_end(e, i + 3))
        } else {
            None
        }
    } else if char_at(e, i, '[') {
        balanced_end(e, i, '[', ']')
    } else {
        None
    }
}

pub open spec fn closer_of(open: char) -> char {
    if open == '(' {
        ')'
    } else if open == '[' {
        ']'
    } else {
        '}'
    }
}

/// Counting state: the closers still expected, the arguments already counted,
/// whether the current argument has text, and whether it is complete.
pub struct Counting {
    pub stack: Seq<char>,
    pub count: int,
    pub has_argument: bool,
    pub closed: bool,
}

/// Count the remaining arguments of a call, read from `i`.
pub open spec fn count_from(e: Seq<char>, i: int, s: Counting) -> Result<int, ArgumentIssue>
    decreases e.len() - i,
{
    let top = s.stack.len() == 1;
    if i < 0 || i >= e.len() {
        Err(ArgumentIssue::Malformed)
    } else if e[i] == '\'' {
        if top && s.closed {
            Err(ArgumentIssue::Malformed)
        } else {
            match quoted_end(e, i + 1) {
                Some(next) => if i < next <= e.len() {
                    count_from(e, next, Counting { has_argument: true, closed: top || s.closed, ..s })
                } else {
                    Err(ArgumentIssue::Malformed)
                },
                None => Err(ArgumentIssue::Malformed),
            }
        }
    } else if e[i] == '(' || e[i] == '[' || e[i] == '{' {
        if e[i] == '(' && top && s.closed {
            Err(ArgumentIssue::Malformed)
        } else {
            count_from(
                e,
                i + 1,
                Counting {
                    stack: s.stack.push(closer_of(e[i])),
                    has_argument: top || s.has_argument,
                    ..s
                },
            )
        }
    } else if e[i] == ')' || e[i] == ']' || e[i] == '}' {
        if s.stack.len() == 0 || e[i] != s.stack.last() {
            Err(ArgumentIssue::Malformed)
        } else if top {
            if !s.has_argument && s.count > 0 {
                Err(ArgumentIssue::Empty)
            } else {
                Ok(
                    s.count + (if s.has_argument {
                        1int
                    } else {
                        0
                    }),
                )
            }
        } else {
            count_from(
                e,
                i + 1,
                Counting {
                    stack: s.stack.drop_last(),
                    closed: s.stack.len() == 2 || s.closed,
                    ..s
                },
            )
        }
    } else if e[i] == ',' && top {
        if !s.has_argument {
            Err(ArgumentIssue::Empty)
        } else {
            count_from(
                e,
                i + 1,
                Counting { count: s.count + 1, has_argument: false, closed: false, ..s },
            )
        }
    } else if !is_space(e[i]) && top {
        if s.closed {
            match accessor_end(e, i) {
                Some(next) => if i < next <= e.len() {
                    count_from(e, next, s)
                } else {
                    Err(ArgumentIssue::Malformed)
                },
                None => Err(ArgumentIssue::Malformed),
            }
        } else {
            count_from(e, i + 1, Counting { has_argument: true, ..s })
        }
    } else {
        count_from(e, i + 1, s)
    }
}

/// The number of top-level arguments of the call whose `(` stands at `open`.
pub open spec fn arguments_of(e: Seq<char>, open: int) -> Result<int, ArgumentIssue> {
    if char_at(e, open, '(') {
        count_from(
            e,
            open + 1,
            Counting { stack: seq![')'], count: 0, has_argument: false, closed: false },
        )
    } else {
        Err(ArgumentIssue::Malformed)
    }
}

/// What is wrong with the arguments of one call.
pub open spec fn call_issues(e: Seq<char>, name: Seq<char>, open: int) -> Seq<Seq<char>> {
    match arity_of(name) {
        Some(arity) => match arguments_of(e, open) {
            Ok(actual) => if accepted(arity, actual) {
                Seq::empty()
            } else {
                seq![arity_message(arity, name, actual)]
            },
            Err(ArgumentIssue::Empty) => seq![
                "WDL function '"@ + name + "' has an empty argument"@,
            ],
            Err(ArgumentIssue::Malformed) => seq![
                "WDL function '"@ + name + "' has malformed arguments"@,
            ],
        },
        None => Seq::empty(),
    }
}

/// What is wrong with the arguments of the calls from `i` on, nested calls
/// after the calls they stand in.
pub open spec fn arity_issues(e: Seq<char>, i: int) -> Seq<Seq<char>>
    decreases e.len() - i,
{
    match call_from(e, i) {
        Some(call) => if i <= call.open < e.len() {
            call_issues(e, e.subrange(call.start, call.end), call.open) + arity_issues(
                e,
                call.open + 1,
            )
        } else {
            Seq::empty()
        },
        None => Seq::empty(),
    }
}

impl FunctionArity {
    pub fn accepts(self, actual: usize) -> (holds: bool)
        ensures
            holds == accepted(self, actual as int),
    {
        match self {
            FunctionArity::Exact(expected) => actual == expected,
            FunctionArity::AtLeast(minimum) => actual >= minimum,
        }
    }

    pub fn message(self, name: &str, actual: usize) -> (text: String)
        ensures
            text@ == arity_message(self, name@, actual as int),
    {
        let found = decimal_of_usize(actual);
        match self {
            FunctionArity::Exact(expected) => text6(
                "WDL function '",
                name,
                "' expects ",
                decimal_of_usize(expected).as_str(),
                " argument(s), found ",
                found.as_str(),
            ),
            FunctionArity::AtLeast(minimum) => text6(
                "WDL function '",
                name,
                "' expects at least ",
                decimal_of_usize(minimum).as_str(),
                " argument(s), found ",
                found.as_str(),
            ),
        }
    }
}

fn one_argument_list() -> (list: Vec<&'static str>)
    ensures
        names(list@) == one_argument_names(),
{
    let list = vec![
        "actions",
        "body",
        "iterationIndexes",
        "items",
        "outputs",
        "parameters",
        "result",
        "variables",
        "appsetting",
        "triggerFormDataMultiValues",
        "triggerFormDataValue",
        "triggerMultipartBody",
    ];
    assert(names(list@) =~= one_argument_names());
    list
}

fn two_argument_list() -> (list: Vec<&'static str>)
    ensures
        names(list@) == two_argument_names(),
{
    let list = vec!["formDataMultiValues", "formDataValue", "multipartBody"];
    assert(names(list@) =~= two_argument_names());
    list
}

fn no_argument_list() -> (list: Vec<&'static str>)
    ensures
        names(list@) == no_argument_names(),
{
    let list = vec![
        "action",
        "item",
        "listCallbackUrl",
        "trigger",
        "triggerBody",
        "triggerOutputs",
        "triggerbody",
        "workflow",
    ];
    assert(names(list@) =~= no_argument_names());
    list
}

/// The arity of a recognized helper.
pub fn reference_function_arity(name: &str) -> (arity: Option<FunctionArity>)
    ensures
        arity == arity_of(name@),
{
    if in_list(name, one_argument_list().as_slice()) {
        Some(FunctionArity::Exact(1))
    } else if in_list(name, two_argument_list().as_slice()) {
        Some(FunctionArity::Exact(2))
    } else if in_list(name, no_argument_list().as_slice()) {
        Some(FunctionArity::Exact(0))
    } else if crate::text::text_eq(name, "concat") {
        Some(FunctionArity::AtLeast(2))
    } else {
        None
    }
}

/// Consume one accessor that trails a closed argument.
pub fn skip_accessor(e: &[char], index: usize) -> (end: Option<usize>)
    requires
        index < e@.len(),
    ensures
        match end {
            Some(next) => accessor_end(e@, index as int) == Some(next as int) && index < next
                <= e@.len(),
            None => accessor_end(e@, index as int) is None,
        },
{
    let length: usize = e.len();
    let c = e[index];
    if c == '.' {
        if length - index > 1 && ident_start(e[index + 1]) {
            Some(skip_ident(e, index + 2))
        } else {
            None
        }
    } else if c == '?' && holds_after(e, index, '[') {
        consume_balanced(e, index + 1, '[', ']')
    } else if c == '?' && holds_after(e, index, '.') {
        if length - index > 2 && ident_start(e[index + 2]) {
            Some(skip_ident(e, index + 3))
        } else {
            None
        }
    } else if c == '[' {
        consume_balanced(e, index, '[', ']')
    } else {
        None
    }
}

/// Count top-level arguments of the call whose `(` stands at `args_start`.
pub fn argument_count(e: &[char], args_start: usize) -> (result: Result<usize, ArgumentIssue>)
    ensures
        match result {
            Ok(count) => arguments_of(e@, args_start as int) == Ok::<int, ArgumentIssue>(
                count as int,
            ),
            Err(issue) => arguments_of(e@, args_start as int) == Err::<int, ArgumentIssue>(issue),
        },
{
    let length: usize = e.len();
    if !holds_at(e, args_start, '(') {
        return Err(ArgumentIssue::Malformed);
    }
    let mut stack: Vec<char> = Vec::new();
    stack.push(')');
    assert(stack@ =~= seq![')']);
    let mut count: usize = 0;
    let mut has_argument: bool = false;
    let mut closed: bool = false;
    let mut index: usize = args_start + 1;
    while index < length
        invariant
            length == e@.len(),
            count < index,
            char_at(e@, args_start as int, '('),
            arguments_of(e@, args_start as int) == count_from(
                e@,
                index as int,
                Counting { stack: stack@, count: count as int, has_argument, closed },
            ),
        decreases length - index,
    {
        let c = e[index];
        let top: bool = stack.len() == 1;
        if c == '\'' {
            if top && closed {
                return Err(ArgumentIssue::Malformed);
            }
            has_argument = true;
            match skip_string_literal(e, index) {
                Some(next) => {
                    index = next;
                },
                None => {
                    return Err(ArgumentIssue::Malformed);
                },
            }
            if top {
                closed = true;
            }
            continue;
        } else if c == '(' || c == '[' || c == '{' {
            if c == '(' && top && closed {
                return Err(ArgumentIssue::Malformed);
            }
            if top {
                has_argument = true;
            }
            let closer: char = if c == '(' {
                ')'
            } else if c == '[' {
                ']'
            } else {
                '}'
            };
            stack.push(closer);
        } else if c == ')' || c == ']' || c == '}' {
            match stack.pop() {
                None => {
                    return Err(ArgumentIssue::Malformed);
                },
                Some(expected) => {
                    if c != expected {
                        return Err(ArgumentIssue::Malformed);
                    }
                },
            }
            if stack.len() == 0 {
                if !has_argument && count > 0 {
                    return Err(ArgumentIssue::Empty);
                }
                return Ok(
                    if has_argument {
                        count + 1
                    } else {
                        count
                    },
                );
            }
            if stack.len() == 1 {
                closed = true;
            }
        } else if c == ',' && top {
            if !has_argument {
                return Err(ArgumentIssue::Empty);
            }
            count += 1;
            has_argument = false;
            closed = false;
        } else if !space(c) && top {
            if closed {
                match skip_accessor(e, index) {
                    Some(next) => {
                        index = next;
                        continue;
                    },
                    None => {
                        return Err(ArgumentIssue::Malformed);
                    },
                }
            }
            has_argument = true;
        }
        index += 1;
    }
    Err(ArgumentIssue::Malformed)
}

/// The messages of a list of issues.
pub open spec fn messages(list: Seq<SyntaxIssue>) -> Seq<Seq<char>> {
    Seq::new(list.len(), |i: int| list[i]@)
}

pub fn push_issue(issues: &mut Vec<SyntaxIssue>, message: String)
    ensures
        messages(final(issues)@) == messages(old(issues)@) + seq![message@],
{
    issues.push(SyntaxIssue { message });
    assert(messages(issues@) =~= messages(old(issues)@) + seq![message@]);
}

fn check_call(e: &[char], name: &str, open: usize, issues: &mut Vec<SyntaxIssue>)
    ensures
        messages(final(issues)@) == messages(old(issues)@) + call_issues(e@, name@, open as int),
{
    assert(messages(issues@) + Seq::<Seq<char>>::empty() =~= messages(issues@));
    match reference_function_arity(name) {
        None => {},
        Some(arity) => match argument_count(e, open) {
            Ok(actual) => {
                if !arity.accepts(actual) {
                    push_issue(issues, arity.message(name, actual));
                }
            },
            Err(ArgumentIssue::Empty) => {
                push_issue(issues, text3("WDL function '", name, "' has an empty argument"));
            },
            Err(ArgumentIssue::Malformed) => {
                push_issue(issues, text3("WDL function '", name, "' has malformed arguments"));
            },
        },
    }
}

/// Append the arity and argument issues of the known helpers called in `e`.
pub fn reference_call_syntax_issues(e: &[char], issues: &mut Vec<SyntaxIssue>)
    ensures
        messages(final(issues)@) == messages(old(issues)@) + arity_issues(e@, 0),
{
    let length: usize = e.len();
    let ghost before = messages(issues@);
    let mut index: usize = 0;
    loop
        invariant
            length == e@.len(),
            index <= length,
            before + arity_issues(e@, 0) == messages(issues@) + arity_issues(e@, index as int),
        ensures
            before + arity_issues(e@, 0) == messages(issues@),
        decreases length - index,
    {
        assert(messages(issues@) + Seq::<Seq<char>>::empty() =~= messages(issues@));
        match next_call(e, index) {
            None => {
                break;
            },
            Some(call) => {
                let name = string_of_range(e, call.start, call.end);
                let ghost now = messages(issues@);
                check_call(e, name.as_str(), call.open, issues);
                proof {
                    let own = call_issues(e@, name@, call.open as int);
                    let rest = arity_issues(e@, call.open + 1);
                    assert(now + (own + rest) =~= now + own + rest);
                }
                index = call.open + 1;
            },
        }
    }
}

} // verus!
