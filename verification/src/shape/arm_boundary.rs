//! Seam between static workflow checks and template expressions.
//!
//! Every rule that inspects a value first asks whether it is a template
//! expression that deployment will replace. Whether such expressions are
//! allowed at all depends on the document.

use vstd::prelude::*;

use crate::arm::{known, may_be_array, static_value, ArmScope};
use crate::json::{
    as_array, as_string, field, get, get_string, text_field, text_of, Document, Json, Node,
};
use crate::text::{contains, has_part};

verus! {

/// `resources` anchors a template unless it is null, written out or resolved.
pub open spec fn anchors_template(file: &Document, resources: &Node) -> bool {
    match resources.kind {
        Json::Null => false,
        Json::String(text) => match known(file.arm, text@) {
            Some(expression) => match expression.value {
                Some(value) => !(value.kind is Null),
                None => true,
            },
            None => true,
        },
        _ => true,
    }
}

/// Template expressions are legal in `file`: it is labelled a deployment
/// template, or is unlabelled and looks like one.
#[verifier::opaque]
pub open spec fn allows_expressions(file: &Document) -> bool {
    let schema = text_field(file.value, "$schema"@);
    if schema is Some && has_part(schema->Some_0, "/deploymentTemplate.json"@) {
        true
    } else if schema is Some && has_part(schema->Some_0, "/workflowdefinition.json"@) {
        false
    } else {
        &&& field(file.value, "actions"@) is None
        &&& field(file.value, "triggers"@) is None
        &&& field(file.value, "definition"@) is None
        &&& match field(file.value, "resources"@) {
            Some(resources) => anchors_template(file, &resources),
            None => false,
        }
    }
}

/// `value` is a full template expression in a file where those are legal.
pub open spec fn is_opaque(file: &Document, value: &Node) -> bool {
    match text_of(value) {
        Some(text) => allows_expressions(file) && known(file.arm, text) is Some,
        None => false,
    }
}

/// The value that a template expression resolves to before deployment.
pub open spec fn resolved(file: &Document, value: &Node, scope: &ArmScope) -> Option<Node> {
    match text_of(value) {
        Some(text) => if allows_expressions(file) {
            static_value(scope, text)
        } else {
            None
        },
        None => None,
    }
}

/// An optional property counts as absent where it is null, written out or
/// resolved, in a file where template expressions are legal.
pub open spec fn is_absent(file: &Document, value: &Node) -> bool {
    allows_expressions(file) && (value.kind is Null || (is_opaque(file, value) && match resolved(
        file,
        value,
        file.arm,
    ) {
        Some(result) => result.kind is Null,
        None => false,
    }))
}

/// Static checks pass over `value`: it is absent or a template expression.
pub open spec fn is_skipped(file: &Document, value: &Node) -> bool {
    is_absent(file, value) || is_opaque(file, value)
}

/// The member named `key`, unless it counts as absent.
pub open spec fn present(file: &Document, object: &Node, key: Seq<char>) -> Option<Node> {
    match field(object, key) {
        Some(value) => if is_absent(file, &value) {
            None
        } else {
            Some(value)
        },
        None => None,
    }
}

/// The member named `key`, unless static checks pass over it.
pub open spec fn checked(file: &Document, object: &Node, key: Seq<char>) -> Option<Node> {
    match field(object, key) {
        Some(value) => if is_skipped(file, &value) {
            None
        } else {
            Some(value)
        },
        None => None,
    }
}

/// The member named `key`, unless it is a template expression.
pub open spec fn authored(file: &Document, object: &Node, key: Seq<char>) -> Option<Node> {
    match field(object, key) {
        Some(value) => if is_opaque(file, &value) {
            None
        } else {
            Some(value)
        },
        None => None,
    }
}

/// `value` is a template expression that does not resolve before deployment.
pub open spec fn is_unresolved(file: &Document, value: &Node) -> bool {
    is_opaque(file, value) && static_value(file.arm, text_of(value)->Some_0) is None
}

/// `value` is a template expression that yields an array, or that may yield
/// one at deployment.
pub open spec fn may_yield_array(file: &Document, value: &Node, scope: &ArmScope) -> bool {
    is_opaque(file, value) && match resolved(file, value, file.arm) {
        Some(result) => result.kind is Array,
        None => may_be_array(scope, text_of(value)->Some_0),
    }
}

fn resources_property_allows_arm_expressions(file: &Document, value: &Node) -> (holds: bool)
    ensures
        holds == anchors_template(file, value),
{
    match &value.kind {
        Json::Null => false,
        Json::String(text) => match file.arm.lookup(text.as_str()) {
            Some(expression) => match &expression.value {
                Some(result) => !result.is_null(),
                None => true,
            },
            None => true,
        },
        _ => true,
    }
}

/// Whether template expressions are legal in `file`.
pub fn file_allows_arm_expressions(file: &Document) -> (holds: bool)
    ensures
        holds == allows_expressions(file),
{
    reveal(allows_expressions);
    if let Some(schema) = get_string(file.value, "$schema") {
        if contains(schema, "/deploymentTemplate.json") {
            return true;
        }
        if contains(schema, "/workflowdefinition.json") {
            return false;
        }
    }
    if get(file.value, "actions").is_some() || get(file.value, "triggers").is_some() || get(
        file.value,
        "definition",
    ).is_some() {
        return false;
    }
    match get(file.value, "resources") {
        Some(resources) => resources_property_allows_arm_expressions(file, resources),
        None => false,
    }
}

/// True when `value` is a full template expression in a file where those are legal.
pub fn is_opaque_arm_expression(file: &Document, value: &Node) -> (holds: bool)
    ensures
        holds == is_opaque(file, value),
{
    match as_string(value) {
        Some(text) => file_allows_arm_expressions(file) && file.arm.is_full_expression(text),
        None => false,
    }
}

/// `text` is a template expression in a file where those are legal.
pub open spec fn is_opaque_text(file: &Document, text: Seq<char>) -> bool {
    allows_expressions(file) && known(file.arm, text) is Some
}

/// True when `text` is a template expression in a file where those are legal.
pub fn is_opaque_arm_text(file: &Document, text: &str) -> (holds: bool)
    ensures
        holds == is_opaque_text(file, text@),
{
    file_allows_arm_expressions(file) && file.arm.lookup(text).is_some()
}

/// Resolve a template expression under `scope`.
pub fn static_json_value_from_spanned_with_scope<'a>(
    file: &Document,
    value: &Node,
    scope: &'a ArmScope,
) -> (found: Option<&'a Node>)
    ensures
        match found {
            Some(result) => resolved(file, value, scope) == Some(*result),
            None => resolved(file, value, scope) is None,
        },
{
    match as_string(value) {
        Some(text) => if file_allows_arm_expressions(file) {
            scope.static_expression_value(text)
        } else {
            None
        },
        None => None,
    }
}

/// Resolve a template expression with nothing in scope.
pub fn static_json_value_from_spanned<'a>(file: &'a Document, value: &Node) -> (found: Option<
    &'a Node,
>)
    ensures
        match found {
            Some(result) => resolved(file, value, file.arm) == Some(*result),
            None => resolved(file, value, file.arm) is None,
        },
{
    static_json_value_from_spanned_with_scope(file, value, file.arm)
}

/// An optional property counts as absent.
pub fn arm_optional_property_absent(file: &Document, value: &Node) -> (holds: bool)
    ensures
        holds == is_absent(file, value),
{
    if !file_allows_arm_expressions(file) {
        return false;
    }
    if value.is_null() {
        return true;
    }
    is_opaque_arm_expression(file, value) && match static_json_value_from_spanned(file, value) {
        Some(result) => result.is_null(),
        None => false,
    }
}

/// Static checks pass over `value`.
pub fn skipped(file: &Document, value: &Node) -> (holds: bool)
    ensures
        holds == is_skipped(file, value),
{
    arm_optional_property_absent(file, value) || is_opaque_arm_expression(file, value)
}

/// The member named `key`, unless it counts as absent.
pub fn get_present<'a>(file: &Document, object: &'a Node, key: &str) -> (found: Option<&'a Node>)
    ensures
        match found {
            Some(value) => present(file, object, key@) == Some(*value),
            None => present(file, object, key@) is None,
        },
{
    match get(object, key) {
        Some(value) => if arm_optional_property_absent(file, value) {
            None
        } else {
            Some(value)
        },
        None => None,
    }
}

/// The member named `key`, unless static checks pass over it.
pub fn get_checked<'a>(file: &Document, object: &'a Node, key: &str) -> (found: Option<&'a Node>)
    ensures
        match found {
            Some(value) => checked(file, object, key@) == Some(*value),
            None => checked(file, object, key@) is None,
        },
{
    match get(object, key) {
        Some(value) => if skipped(file, value) {
            None
        } else {
            Some(value)
        },
        None => None,
    }
}

/// The member named `key`, unless it is a template expression.
pub fn get_authored<'a>(file: &Document, object: &'a Node, key: &str) -> (found: Option<&'a Node>)
    ensures
        match found {
            Some(value) => authored(file, object, key@) == Some(*value),
            None => authored(file, object, key@) is None,
        },
{
    match get(object, key) {
        Some(value) => if is_opaque_arm_expression(file, value) {
            None
        } else {
            Some(value)
        },
        None => None,
    }
}

/// `value` is a template expression that does not resolve before deployment.
pub fn unresolved_arm_expression_from_spanned(file: &Document, value: &Node) -> (holds: bool)
    ensures
        holds == is_unresolved(file, value),
{
    is_opaque_arm_expression(file, value) && match as_string(value) {
        Some(text) => file.arm.static_expression_value(text).is_none(),
        None => false,
    }
}

/// `value` is a template expression that yields an array or may yield one.
pub fn arm_array_expression_from_spanned(
    file: &Document,
    value: &Node,
    scope: &ArmScope,
) -> (holds: bool)
    ensures
        holds == may_yield_array(file, value, scope),
{
    if !is_opaque_arm_expression(file, value) {
        return false;
    }
    match static_json_value_from_spanned(file, value) {
        Some(result) => as_array(result).is_some(),
        None => match as_string(value) {
            Some(text) => scope.may_resolve_to_array(text),
            None => false,
        },
    }
}

/// An optional node, taken by value.
pub open spec fn node_in(value: Option<&Node>) -> Option<Node> {
    match value {
        Some(node) => Some(*node),
        None => None,
    }
}

/// An optional node, unless static checks pass over it.
pub open spec fn unskipped(file: &Document, value: Option<Node>) -> Option<Node> {
    match value {
        Some(node) => if is_skipped(file, &node) {
            None
        } else {
            Some(node)
        },
        None => None,
    }
}

/// An optional node, unless static checks pass over it.
pub fn keep_unskipped<'a>(file: &Document, value: Option<&'a Node>) -> (kept: Option<&'a Node>)
    ensures
        node_in(kept) == unskipped(file, node_in(value)),
{
    match value {
        Some(node) => if skipped(file, node) {
            None
        } else {
            Some(node)
        },
        None => None,
    }
}

/// The text of a string node, where it can be known: the text itself, or what
/// a template expression resolves to.
pub open spec fn static_text(file: &Document, value: &Node) -> Option<Seq<char>> {
    match text_of(value) {
        Some(text) => match known(file.arm, text) {
            Some(expression) => if allows_expressions(file) {
                match expression.string {
                    Some(result) => Some(result@),
                    None => None,
                }
            } else {
                None
            },
            None => Some(text),
        },
        None => None,
    }
}

/// Resolve `value` to a plain string. Literal strings pass through; template
/// expressions are resolved where they are legal.
pub fn static_string_from_spanned<'a>(file: &'a Document, value: &'a Node) -> (found: Option<
    &'a str,
>)
    ensures
        match found {
            Some(text) => static_text(file, value) == Some(text@),
            None => static_text(file, value) is None,
        },
{
    match as_string(value) {
        Some(text) => match file.arm.lookup(text) {
            Some(expression) => if file_allows_arm_expressions(file) {
                match &expression.string {
                    Some(result) => Some(result.as_str()),
                    None => None,
                }
            } else {
                None
            },
            None => Some(text),
        },
        None => None,
    }
}

} // verus!
