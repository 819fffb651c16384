//! Numeric predicates for shape rules.

use vstd::prelude::*;

use crate::json::{as_string, text_of, Json, Number, Node};
use crate::text::{chars_of, parse_i64, spelled_i64};
use crate::wdl::value::opens_with;

verus! {

/// A JSON number without fraction or exponent.
pub open spec fn is_integer(value: &Node) -> bool {
    match value.kind {
        Json::Number(Number::PosInt(_)) => true,
        Json::Number(Number::NegInt(_)) => true,
        _ => false,
    }
}

/// An integer above zero.
pub open spec fn is_positive_integer(value: &Node) -> bool {
    match value.kind {
        Json::Number(Number::PosInt(n)) => n > 0,
        Json::Number(Number::NegInt(n)) => n > 0,
        _ => false,
    }
}

/// The integer that a number node holds, where it fits 64 signed bits.
pub open spec fn integer_of(value: &Node) -> Option<int> {
    match value.kind {
        Json::Number(Number::PosInt(n)) => if n <= i64::MAX {
            Some(n as int)
        } else {
            None
        },
        Json::Number(Number::NegInt(n)) => Some(n as int),
        _ => None,
    }
}

/// The integer that a number node holds or a string node spells.
pub open spec fn integer_or_spelled(value: &Node) -> Option<int> {
    match integer_of(value) {
        Some(n) => Some(n),
        None => match text_of(value) {
            Some(text) => spelled_i64(text),
            None => None,
        },
    }
}

/// A text that starts with one `@`, interpolations included.
pub open spec fn is_expression_text(text: Seq<char>) -> bool {
    text.len() > 0 && text[0] == '@' && !opens_with(text, '@', '@')
}

pub open spec fn is_expression_string(value: &Node) -> bool {
    match text_of(value) {
        Some(text) => is_expression_text(text),
        None => false,
    }
}

pub fn is_integer_value(value: &Node) -> (holds: bool)
    ensures
        holds == is_integer(value),
{
    match &value.kind {
        Json::Number(Number::PosInt(_)) => true,
        Json::Number(Number::NegInt(_)) => true,
        _ => false,
    }
}

pub fn is_wdl_expression_string(text: &str) -> (holds: bool)
    ensures
        holds == is_expression_text(text@),
{
    let chars = chars_of(text);
    chars.len() > 0 && chars[0] == '@' && !(chars.len() > 1 && chars[1] == '@')
}

fn is_wdl_expression_value(value: &Node) -> (holds: bool)
    ensures
        holds == is_expression_string(value),
{
    match as_string(value) {
        Some(text) => is_wdl_expression_string(text),
        None => false,
    }
}

/// Accept either a JSON integer or a string that starts an expression.
pub fn is_integer_or_wdl_expression(value: &Node) -> (holds: bool)
    ensures
        holds == (is_integer(value) || is_expression_string(value)),
{
    is_integer_value(value) || is_wdl_expression_value(value)
}

/// Accept either a positive JSON integer or a string that starts an expression.
pub fn is_positive_integer_or_wdl_expression(value: &Node) -> (holds: bool)
    ensures
        holds == (is_positive_integer(value) || is_expression_string(value)),
{
    is_positive_integer_value(value) || is_wdl_expression_value(value)
}

pub fn is_positive_integer_value(value: &Node) -> (holds: bool)
    ensures
        holds == is_positive_integer(value),
{
    match &value.kind {
        Json::Number(Number::PosInt(n)) => *n > 0,
        Json::Number(Number::NegInt(n)) => *n > 0,
        _ => false,
    }
}

/// Extract an `i64`, converting from unsigned storage when it fits.
pub fn integer_value(value: &Node) -> (number: Option<i64>)
    ensures
        match number {
            Some(n) => integer_of(value) == Some(n as int),
            None => integer_of(value) is None,
        },
{
    match &value.kind {
        Json::Number(Number::PosInt(n)) => if *n <= 9223372036854775807 {
            Some(*n as i64)
        } else {
            None
        },
        Json::Number(Number::NegInt(n)) => Some(*n),
        _ => None,
    }
}

/// Accept either a JSON integer or a string that parses as one.
pub fn integer_or_integer_string_value(value: &Node) -> (number: Option<i64>)
    ensures
        match number {
            Some(n) => integer_or_spelled(value) == Some(n as int),
            None => integer_or_spelled(value) is None,
        },
{
    match integer_value(value) {
        Some(n) => Some(n),
        None => match as_string(value) {
            Some(text) => parse_i64(text),
            None => None,
        },
    }
}

} // verus!
