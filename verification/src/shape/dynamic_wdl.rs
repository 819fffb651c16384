//! Predicates on strings that may be expressions or templates.
//!
//! When a template cannot be ruled out the answer is that it may match, so
//! that real workflows are not flagged falsely.

use vstd::prelude::*;

use crate::json::Document;
use crate::shape::time::{is_duration, is_iso8601_duration};
use crate::text::{chars_of, names, parse_i64, parse_u64, spelled_i64, spelled_u64, text_eq, texts};
use crate::wdl::value::{
    all_in_class, classified, is_dynamic, may_match, may_match_ignoring_case, CharClass,
    Classified, WdlStringValue,
};

verus! {

/// The value may be a positive integer.
pub open spec fn may_be_positive_integer(text: Seq<char>) -> bool {
    match classified(text) {
        Classified::Literal(literal) => match spelled_u64(literal) {
            Some(n) => n > 0,
            None => false,
        },
        Classified::Template(segments) => all_in_class(segments, CharClass::Digits),
        _ => true,
    }
}

/// The value may be an integer.
pub open spec fn may_be_integer(text: Seq<char>) -> bool {
    match classified(text) {
        Classified::Literal(literal) => spelled_i64(literal) is Some,
        Classified::Template(segments) => all_in_class(segments, CharClass::SignedDigits),
        _ => true,
    }
}

/// The value may be a finite number.
pub open spec fn may_be_finite_number(file: &Document, text: Seq<char>) -> bool {
    match classified(text) {
        Classified::Literal(literal) => texts(file.finite_numbers@).contains(literal),
        Classified::Template(segments) => all_in_class(segments, CharClass::NumberParts),
        _ => true,
    }
}

/// The value may be an ISO 8601 duration: the literal parts of a template
/// hold nothing else, lead with `P` and end on a unit.
pub open spec fn may_be_duration(text: Seq<char>) -> bool {
    match classified(text) {
        Classified::Literal(literal) => is_duration(literal),
        Classified::Template(segments) => {
            let prefix = segments.first();
            let suffix = segments.last();
            &&& all_in_class(segments, CharClass::DurationParts)
            &&& prefix.len() > 0 ==> prefix[0] == 'P'
            &&& suffix.len() > 0 ==> ends_on_unit(suffix)
        },
        _ => true,
    }
}

pub open spec fn ends_on_unit(text: Seq<char>) -> bool {
    let last = text.last();
    last == 'Y' || last == 'M' || last == 'W' || last == 'D' || last == 'H' || last == 'S'
}

/// The whole string is a single expression.
pub fn wdl_string_is_full_expression(value: &str) -> (holds: bool)
    ensures
        holds == (classified(value@) is FullExpression),
{
    WdlStringValue::classify(value).is_full_expression()
}

/// Some part of the string is evaluated.
pub fn wdl_string_has_dynamic_value(value: &str) -> (holds: bool)
    ensures
        holds == is_dynamic(value@),
{
    WdlStringValue::classify(value).has_dynamic_value()
}

/// Could the string's runtime value equal one of `allowed`?
pub fn wdl_string_may_match_exact(value: &str, allowed: &[&str]) -> (may: bool)
    ensures
        may == may_match(classified(value@), names(allowed@)),
{
    WdlStringValue::classify(value).may_match_exact(allowed)
}

/// Could the string's runtime value equal one of `allowed` up to ASCII case?
pub fn wdl_string_may_match_exact_ignore_case(value: &str, allowed: &[&str]) -> (may: bool)
    ensures
        may == may_match_ignoring_case(classified(value@), names(allowed@)),
{
    WdlStringValue::classify(value).may_match_exact_ignore_case(allowed)
}

pub fn wdl_string_may_be_positive_integer(value: &str) -> (may: bool)
    ensures
        may == may_be_positive_integer(value@),
{
    let class = WdlStringValue::classify(value);
    match &class {
        WdlStringValue::Literal(literal) => match parse_u64(literal.as_str()) {
            Some(n) => n > 0,
            None => false,
        },
        WdlStringValue::Template(template) => template.literal_chars_all(CharClass::Digits),
        _ => true,
    }
}

pub fn wdl_string_may_be_integer(value: &str) -> (may: bool)
    ensures
        may == may_be_integer(value@),
{
    let class = WdlStringValue::classify(value);
    match &class {
        WdlStringValue::Literal(literal) => parse_i64(literal.as_str()).is_some(),
        WdlStringValue::Template(template) => template.literal_chars_all(CharClass::SignedDigits),
        _ => true,
    }
}

/// `text` is one of the document's strings that read as finite numbers.
fn reads_as_finite_number(file: &Document, text: &str) -> (holds: bool)
    ensures
        holds == texts(file.finite_numbers@).contains(text@),
{
    let list = file.finite_numbers;
    let mut i: usize = 0;
    while i < list.len()
        invariant
            i <= list.len(),
            list == file.finite_numbers,
            forall|j: int| 0 <= j < i ==> #[trigger] texts(list@)[j] != text@,
        decreases list.len() - i,
    {
        if text_eq(list[i].as_str(), text) {
            assert(texts(list@)[i as int] == text@);
            return true;
        }
        i += 1;
    }
    false
}

pub fn wdl_string_may_be_finite_number(file: &Document, value: &str) -> (may: bool)
    ensures
        may == may_be_finite_number(file, value@),
{
    let class = WdlStringValue::classify(value);
    match &class {
        WdlStringValue::Literal(literal) => reads_as_finite_number(file, literal.as_str()),
        WdlStringValue::Template(template) => template.literal_chars_all(CharClass::NumberParts),
        _ => true,
    }
}

/// Could the string evaluate to an ISO 8601 duration?
pub fn wdl_string_may_be_iso8601_duration(value: &str) -> (may: bool)
    ensures
        may == may_be_duration(value@),
{
    let class = WdlStringValue::classify(value);
    match &class {
        WdlStringValue::Literal(literal) => is_iso8601_duration(literal.as_str()),
        WdlStringValue::Template(template) => {
            if !template.literal_chars_all(CharClass::DurationParts) {
                return false;
            }
            let prefix = chars_of(template.static_prefix());
            if prefix.len() > 0 && prefix[0] != 'P' {
                return false;
            }
            let suffix = chars_of(template.static_suffix());
            if suffix.len() == 0 {
                return true;
            }
            let last = suffix[suffix.len() - 1];
            last == 'Y' || last == 'M' || last == 'W' || last == 'D' || last == 'H' || last == 'S'
        },
        _ => true,
    }
}

} // verus!
