//! The `type` of a node.

use vstd::prelude::*;

use crate::json::{get_string, text_field, Node};
use crate::text::{
    eq_ignoring_case, in_list_ignoring_case, names, one_of_ignoring_case, same_ignoring_case,
};

verus! {

broadcast use crate::diagnostic::group_findings;

/// The `type` of a node is one of `allowed`, up to ASCII case.
pub open spec fn type_is_one_of(value: &Node, allowed: Seq<Seq<char>>) -> bool {
    match text_field(value, "type"@) {
        Some(text) => one_of_ignoring_case(text, allowed),
        None => false,
    }
}

/// The `type` of a node is `name`, up to ASCII case.
pub open spec fn type_is(value: &Node, name: Seq<char>) -> bool {
    match text_field(value, "type"@) {
        Some(text) => same_ignoring_case(text, name),
        None => false,
    }
}

/// Whether `value.type` matches any string in `allowed`, whatever its case.
pub fn node_type_is_one_of(value: &Node, allowed: &[&str]) -> (holds: bool)
    ensures
        holds == type_is_one_of(value, names(allowed@)),
{
    match get_string(value, "type") {
        Some(text) => in_list_ignoring_case(text, allowed),
        None => false,
    }
}

/// Whether `value.type` is `name`, whatever its case.
pub fn node_type_is(value: &Node, name: &str) -> (holds: bool)
    ensures
        holds == type_is(value, name@),
{
    match get_string(value, "type") {
        Some(text) => eq_ignoring_case(text, name),
        None => false,
    }
}

/// Whether `value` is a Foreach action, based on its `type` field.
pub fn is_foreach_action(value: &Node) -> (holds: bool)
    ensures
        holds == type_is(value, "Foreach"@),
{
    node_type_is(value, "Foreach")
}
} // verus!
