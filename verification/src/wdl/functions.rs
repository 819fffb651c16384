//! Function-call discovery for shape-level checks.
//!
//! Callers ask whether an expression calls a function, what follows the
//! call, or which functions are called at all.

use vstd::prelude::*;

use crate::text::{chars_of, eq_ignoring_case, same_ignoring_case, string_of_range, text_eq, texts};
use crate::wdl::arity::{argument_count, arguments_of, ArgumentIssue};
use crate::wdl::lex::{
    balanced_end, call_from, char_at, consume_balanced, first_literal, first_string_arg, holds_at,
    ident_end, ident_start, next_call, skip_ident, skip_spaces, spaces_end, starts_ident,
    CallSite,
};
use crate::wdl::segments::{
    bodies_of, expression_bodies, expression_segments, root_expression,
};
use crate::wdl::value::is_root_expression;
use crate::wdl::{FunctionCall, FunctionCallView};

verus! {

/// What a list of calls says, in order.
pub open spec fn calls_of(list: Seq<FunctionCall>) -> Seq<FunctionCallView> {
    Seq::new(list.len(), |i: int| list[i]@)
}

/// The parenthesized calls of an expression from position `i` on.
pub open spec fn calls_from(e: Seq<char>, i: int) -> Seq<FunctionCallView>
    decreases e.len() - i,
{
    match call_from(e, i) {
        Some(call) => if i <= call.open < e.len() {
            seq![
                FunctionCallView { name: e.subrange(call.start, call.end), parenthesized: true },
            ] + calls_from(e, call.open + 1)
        } else {
            Seq::empty()
        },
        None => Seq::empty(),
    }
}

/// The calls of each of `bodies`, one after the other.
pub open spec fn calls_in_bodies(bodies: Seq<Seq<char>>) -> Seq<FunctionCallView>
    decreases bodies.len(),
{
    if bodies.len() == 0 {
        Seq::empty()
    } else {
        calls_in_bodies(bodies.drop_last()) + calls_from(bodies.last(), 0)
    }
}

/// The identifier an expression starts with, where no argument list follows.
pub open spec fn bare_identifier(e: Seq<char>) -> Option<Seq<char>> {
    let start = spaces_end(e, 0);
    if 0 <= start < e.len() && starts_ident(e[start]) {
        let end = ident_end(e, start + 1);
        if char_at(e, spaces_end(e, end), '(') {
            None
        } else {
            Some(e.subrange(start, end))
        }
    } else {
        None
    }
}

/// Every call in `text`, and the bare identifier of a root expression last.
pub open spec fn function_calls(text: Seq<char>) -> Seq<FunctionCallView> {
    let calls = calls_in_bodies(expression_bodies(text));
    if is_root_expression(text) {
        match bare_identifier(text.skip(1)) {
            Some(name) => calls.push(FunctionCallView { name, parenthesized: false }),
            None => calls,
        }
    } else {
        calls
    }
}

/// Which calls of a function are meant.
pub enum CallFilter {
    Any,
    ZeroArguments,
    FirstArgument(Seq<char>),
}

/// The call whose `(` stands at `open` passes the filter.
pub open spec fn passes(e: Seq<char>, open: int, filter: CallFilter) -> bool {
    match filter {
        CallFilter::Any => true,
        CallFilter::ZeroArguments => arguments_of(e, open) == Ok::<int, ArgumentIssue>(0),
        CallFilter::FirstArgument(text) => first_literal(e, open + 1) == Some(text),
    }
}

/// What follows the call whose `(` stands at `open`, where it is a call of
/// `name` that passes the filter and its argument list is closed.
pub open spec fn suffix_of(
    e: Seq<char>,
    call: CallSite,
    name: Seq<char>,
    filter: CallFilter,
) -> Seq<Seq<char>> {
    if same_ignoring_case(e.subrange(call.start, call.end), name) && passes(e, call.open, filter) {
        match balanced_end(e, call.open, '(', ')') {
            Some(end) => seq![e.skip(end)],
            None => Seq::empty(),
        }
    } else {
        Seq::empty()
    }
}

/// What follows each call of `name` that passes the filter, from `i` on, those
/// in the arguments of other calls included.
pub open spec fn suffixes_from(
    e: Seq<char>,
    i: int,
    name: Seq<char>,
    filter: CallFilter,
) -> Seq<Seq<char>>
    decreases e.len() - i,
{
    match call_from(e, i) {
        Some(call) => if i <= call.open < e.len() {
            suffix_of(e, call, name, filter) + suffixes_from(e, call.open + 1, name, filter)
        } else {
            Seq::empty()
        },
        None => Seq::empty(),
    }
}

/// What follows such calls in each of `bodies`.
pub open spec fn suffixes_in_bodies(
    bodies: Seq<Seq<char>>,
    name: Seq<char>,
    filter: CallFilter,
) -> Seq<Seq<char>>
    decreases bodies.len(),
{
    if bodies.len() == 0 {
        Seq::empty()
    } else {
        suffixes_in_bodies(bodies.drop_last(), name, filter) + suffixes_from(
            bodies.last(),
            0,
            name,
            filter,
        )
    }
}

/// An expression calls `name` without arguments, at or after `i`.
pub open spec fn has_zero_argument_call(e: Seq<char>, i: int, name: Seq<char>) -> bool
    decreases e.len() - i,
{
    match call_from(e, i) {
        Some(call) => i <= call.open < e.len() && ((same_ignoring_case(
            e.subrange(call.start, call.end),
            name,
        ) && passes(e, call.open, CallFilter::ZeroArguments)) || has_zero_argument_call(
            e,
            call.open + 1,
            name,
        )),
        None => false,
    }
}

/// Some expression of `text` calls `name` without arguments.
pub open spec fn calls_without_arguments(text: Seq<char>, name: Seq<char>) -> bool {
    exists|k: int|
        0 <= k < expression_bodies(text).len() && has_zero_argument_call(
            #[trigger] expression_bodies(text)[k],
            0,
            name,
        )
}

fn push_call(calls: &mut Vec<FunctionCall>, name: String, parenthesized: bool)
    ensures
        calls_of(final(calls)@) == calls_of(old(calls)@).push(
            FunctionCallView { name: name@, parenthesized },
        ),
{
    calls.push(FunctionCall { name, parenthesized });
    assert(calls_of(calls@) =~= calls_of(old(calls)@).push(
        FunctionCallView { name: name@, parenthesized },
    ));
}

/// Append every parenthesized call of an expression.
fn extract_function_calls(e: &[char], calls: &mut Vec<FunctionCall>)
    ensures
        calls_of(final(calls)@) == calls_of(old(calls)@) + calls_from(e@, 0),
{
    let length: usize = e.len();
    let ghost before = calls_of(calls@);
    let mut index: usize = 0;
    loop
        invariant
            length == e@.len(),
            index <= length,
            before + calls_from(e@, 0) == calls_of(calls@) + calls_from(e@, index as int),
        ensures
            before + calls_from(e@, 0) == calls_of(calls@),
        decreases length - index,
    {
        assert(calls_of(calls@) + Seq::<FunctionCallView>::empty() =~= calls_of(calls@));
        match next_call(e, index) {
            None => {
                break;
            },
            Some(call) => {
                let ghost now = calls_of(calls@);
                push_call(calls, string_of_range(e, call.start, call.end), true);
                proof {
                    let own = FunctionCallView {
                        name: e@.subrange(call.start as int, call.end as int),
                        parenthesized: true,
                    };
                    let rest = calls_from(e@, call.open + 1);
                    assert(now + (seq![own] + rest) =~= now.push(own) + rest);
                }
                index = call.open + 1;
            },
        }
    }
}

/// The identifier at the start of a root expression that no argument list follows.
fn bare_root_expression_identifier(e: &[char]) -> (name: Option<String>)
    ensures
        match name {
            Some(found) => bare_identifier(e@) == Some(found@),
            None => bare_identifier(e@) is None,
        },
{
    let start = skip_spaces(e, 0);
    if start < e.len() && ident_start(e[start]) {
        let end = skip_ident(e, start + 1);
        if holds_at(e, skip_spaces(e, end), '(') {
            None
        } else {
            Some(string_of_range(e, start, end))
        }
    } else {
        None
    }
}

/// Return every function call (and bare root identifier) discovered in `text`.
pub fn function_calls_in_string(text: &str) -> (calls: Vec<FunctionCall>)
    ensures
        calls_of(calls@) == function_calls(text@),
{
    let chars = chars_of(text);
    let bodies = expression_segments(chars.as_slice());
    let mut calls: Vec<FunctionCall> = Vec::new();
    let ghost all = expression_bodies(text@);
    assert(calls_of(calls@) =~= calls_in_bodies(all.take(0)));
    let mut k: usize = 0;
    while k < bodies.len()
        invariant
            k <= bodies@.len(),
            all == bodies_of(bodies@),
            calls_of(calls@) == calls_in_bodies(all.take(k as int)),
        decreases bodies@.len() - k,
    {
        extract_function_calls(bodies[k].as_slice(), &mut calls);
        assert(all.take(k + 1).drop_last() =~= all.take(k as int));
        k += 1;
    }
    assert(all.take(k as int) =~= all);
    if root_expression(chars.as_slice()) {
        assert(bodies_of(bodies@)[0] == text@.skip(1));
        if let Some(name) = bare_root_expression_identifier(bodies[0].as_slice()) {
            push_call(&mut calls, name, false);
        }
    }
    calls
}

/// An expression calls `name` without arguments.
fn expr_has_zero_arg_function_call(e: &[char], function_name: &str) -> (found: bool)
    ensures
        found == has_zero_argument_call(e@, 0, function_name@),
{
    let length: usize = e.len();
    let mut index: usize = 0;
    loop
        invariant
            length == e@.len(),
            index <= length,
            has_zero_argument_call(e@, 0, function_name@) == has_zero_argument_call(
                e@,
                index as int,
                function_name@,
            ),
        decreases length - index,
    {
        match next_call(e, index) {
            None => {
                return false;
            },
            Some(call) => {
                let name = string_of_range(e, call.start, call.end);
                if eq_ignoring_case(name.as_str(), function_name) {
                    if let Ok(0) = argument_count(e, call.open) {
                        return true;
                    }
                }
                index = call.open + 1;
            },
        }
    }
}

/// Return whether a string contains a zero-argument call to `function_name`.
pub fn zero_arg_function_call_in_string(text: &str, function_name: &str) -> (found: bool)
    ensures
        found == calls_without_arguments(text@, function_name@),
{
    let chars = chars_of(text);
    let bodies = expression_segments(chars.as_slice());
    let ghost all = expression_bodies(text@);
    let mut k: usize = 0;
    while k < bodies.len()
        invariant
            k <= bodies@.len(),
            all == bodies_of(bodies@),
            all == expression_bodies(text@),
            forall|j: int|
                0 <= j < k ==> !has_zero_argument_call(#[trigger] all[j], 0, function_name@),
        decreases bodies@.len() - k,
    {
        assert(all[k as int] == bodies@[k as int]@);
        if expr_has_zero_arg_function_call(bodies[k].as_slice(), function_name) {
            return true;
        }
        k += 1;
    }
    false
}

/// Which calls of a function are meant.
pub enum Filter<'a> {
    Any,
    ZeroArguments,
    FirstArgument(&'a str),
}

impl<'a> View for Filter<'a> {
    type V = CallFilter;

    open spec fn view(&self) -> CallFilter {
        match self {
            Filter::Any => CallFilter::Any,
            Filter::ZeroArguments => CallFilter::ZeroArguments,
            Filter::FirstArgument(text) => CallFilter::FirstArgument(text@),
        }
    }
}

fn call_arguments_match(e: &[char], open: usize, filter: &Filter<'_>) -> (holds: bool)
    requires
        open < e@.len(),
    ensures
        holds == passes(e@, open as int, filter@),
{
    let length: usize = e.len();
    assert(open < length);
    match filter {
        Filter::Any => true,
        Filter::ZeroArguments => match argument_count(e, open) {
            Ok(count) => count == 0,
            Err(_) => false,
        },
        Filter::FirstArgument(expected) => match first_string_arg(e, open + 1) {
            Some(actual) => text_eq(actual.as_str(), expected),
            None => false,
        },
    }
}

fn collect_function_call_suffixes(
    e: &[char],
    function_name: &str,
    filter: &Filter<'_>,
    suffixes: &mut Vec<String>,
)
    ensures
        texts(final(suffixes)@) == texts(old(suffixes)@) + suffixes_from(
            e@,
            0,
            function_name@,
            filter@,
        ),
{
    let length: usize = e.len();
    let ghost before = texts(suffixes@);
    let mut index: usize = 0;
    loop
        invariant
            length == e@.len(),
            index <= length,
            before + suffixes_from(e@, 0, function_name@, filter@) == texts(suffixes@)
                + suffixes_from(e@, index as int, function_name@, filter@),
        ensures
            before + suffixes_from(e@, 0, function_name@, filter@) == texts(suffixes@),
        decreases length - index,
    {
        assert(texts(suffixes@) + Seq::<Seq<char>>::empty() =~= texts(suffixes@));
        match next_call(e, index) {
            None => {
                break;
            },
            Some(call) => {
                let name = string_of_range(e, call.start, call.end);
                index = call.open + 1;
                let ghost now = texts(suffixes@);
                let ghost site = CallSite {
                    start: call.start as int,
                    end: call.end as int,
                    open: call.open as int,
                };
                let ghost own = suffix_of(e@, site, function_name@, filter@);
                if eq_ignoring_case(name.as_str(), function_name) && call_arguments_match(
                    e,
                    call.open,
                    filter,
                ) {
                    if let Some(end) = consume_balanced(e, call.open, '(', ')') {
                        let suffix = string_of_range(e, end, length);
                        suffixes.push(suffix);
                        assert(e@.subrange(end as int, length as int) =~= e@.skip(end as int));
                    }
                }
                proof {
                    let rest = suffixes_from(e@, call.open + 1, function_name@, filter@);
                    assert(texts(suffixes@) =~= now + own);
                    assert(now + (own + rest) =~= now + own + rest);
                }
            },
        }
    }
}

fn suffixes_in_string(text: &str, function_name: &str, filter: Filter<'_>) -> (suffixes: Vec<
    String,
>)
    ensures
        texts(suffixes@) == suffixes_in_bodies(expression_bodies(text@), function_name@, filter@),
{
    let chars = chars_of(text);
    let bodies = expression_segments(chars.as_slice());
    let mut suffixes: Vec<String> = Vec::new();
    let ghost all = expression_bodies(text@);
    assert(texts(suffixes@) =~= suffixes_in_bodies(all.take(0), function_name@, filter@));
    let mut k: usize = 0;
    while k < bodies.len()
        invariant
            k <= bodies@.len(),
            all == bodies_of(bodies@),
            texts(suffixes@) == suffixes_in_bodies(all.take(k as int), function_name@, filter@),
        decreases bodies@.len() - k,
    {
        collect_function_call_suffixes(bodies[k].as_slice(), function_name, &filter, &mut suffixes);
        assert(all.take(k + 1).drop_last() =~= all.take(k as int));
        k += 1;
    }
    assert(all.take(k as int) =~= all);
    suffixes
}

/// Return suffixes after zero-argument function calls in expression segments.
pub fn zero_arg_function_call_suffixes_in_string(text: &str, function_name: &str) -> (suffixes: Vec<
    String,
>)
    ensures
        texts(suffixes@) == suffixes_in_bodies(
            expression_bodies(text@),
            function_name@,
            CallFilter::ZeroArguments,
        ),
{
    suffixes_in_string(text, function_name, Filter::ZeroArguments)
}

/// Return suffixes after calls whose first argument is the given string literal.
pub fn string_arg_function_call_suffixes_in_string(
    text: &str,
    function_name: &str,
    first_arg: &str,
) -> (suffixes: Vec<String>)
    ensures
        texts(suffixes@) == suffixes_in_bodies(
            expression_bodies(text@),
            function_name@,
            CallFilter::FirstArgument(first_arg@),
        ),
{
    suffixes_in_string(text, function_name, Filter::FirstArgument(first_arg))
}

/// Return suffixes after all calls to `function_name` in expression segments.
pub fn function_call_suffixes_in_string(text: &str, function_name: &str) -> (suffixes: Vec<String>)
    ensures
        texts(suffixes@) == suffixes_in_bodies(
            expression_bodies(text@),
            function_name@,
            CallFilter::Any,
        ),
{
    suffixes_in_string(text, function_name, Filter::Any)
}

} // verus!
