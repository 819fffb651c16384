//! Presence and shape of required fields.
//!
//! Template expressions are accepted in place; where one resolves to
//! something that can never be right, it is still flagged.

use vstd::prelude::*;

use crate::diagnostic::{findings, Diagnostic, Finding};
use crate::json::{field, get, Document, Node};
use crate::shape::arm_boundary::{
    authored, is_opaque, is_opaque_arm_expression, node_in, resolved,
    static_json_value_from_spanned,
};
use crate::shape::numbers::{
    is_expression_string, is_integer, is_integer_or_wdl_expression, is_integer_value,
};
use crate::shape::report::{missing, report_missing, report_type, wrong_type};
use crate::text::text3;

verus! {

broadcast use crate::diagnostic::group_findings;

/// JSON kinds that a field may be asked to have.
#[derive(Debug, Clone, Copy, PartialEq, Eq, Structural)]
pub enum Shape {
    Any,
    Text,
    Object,
    TextOrArray,
    TextOrObject,
    TextOrInteger,
    TextOrNumber,
    Integer,
    IntegerOrExpression,
}

/// `value` has the shape.
pub open spec fn fits(value: &Node, shape: Shape) -> bool {
    match shape {
        Shape::Any => true,
        Shape::Text => value.kind is String,
        Shape::Object => value.kind is Object,
        Shape::TextOrArray => value.kind is String || value.kind is Array,
        Shape::TextOrObject => value.kind is String || value.kind is Object,
        Shape::TextOrInteger => value.kind is String || is_integer(value),
        Shape::TextOrNumber => value.kind is String || value.kind is Number,
        Shape::Integer => is_integer(value),
        Shape::IntegerOrExpression => is_integer(value) || is_expression_string(value),
    }
}

/// What is wrong with the required member `key`.
pub open spec fn typed_field_findings(
    object: &Node,
    base: Seq<char>,
    key: Seq<char>,
    message: Seq<char>,
    shape: Shape,
    file: &Document,
) -> Seq<Finding> {
    match field(object, key) {
        Some(value) => if is_opaque(file, &value) || fits(&value, shape) {
            Seq::empty()
        } else {
            wrong_type(file, base, key, value.span, message)
        },
        None => missing(
            file,
            base,
            key,
            object.span,
            "object is missing required field '"@ + key + "'"@,
        ),
    }
}

/// What is wrong with the presence of `key` on an action.
pub open spec fn field_findings(
    action: &Node,
    base: Seq<char>,
    key: Seq<char>,
    file: &Document,
) -> Seq<Finding> {
    if field(action, key) is Some {
        Seq::empty()
    } else {
        missing(
            file,
            base,
            key,
            action.span,
            "action is missing required field '"@ + key + "'"@,
        )
    }
}

/// What is wrong with the required object member `key` of an action.
pub open spec fn object_field_findings(
    action: &Node,
    base: Seq<char>,
    key: Seq<char>,
    file: &Document,
) -> Seq<Finding> {
    match field(action, key) {
        Some(value) => if is_opaque(file, &value) || value.kind is Object {
            Seq::empty()
        } else {
            wrong_type(
                file,
                base,
                key,
                value.span,
                "action field '"@ + key + "' must be an object"@,
            )
        },
        None => missing(
            file,
            base,
            key,
            action.span,
            "action is missing required object field '"@ + key + "'"@,
        ),
    }
}

/// The `inputs` object that the field checks read; nothing where it is
/// missing, a template expression, or no object.
pub open spec fn inputs_of(node: &Node, file: &Document) -> Option<Node> {
    match authored(file, node, "inputs"@) {
        Some(inputs) => if inputs.kind is Object {
            Some(inputs)
        } else {
            None
        },
        None => None,
    }
}

/// What is wrong with the `inputs` of an action.
pub open spec fn inputs_findings(action: &Node, base: Seq<char>, file: &Document) -> Seq<Finding> {
    match field(action, "inputs"@) {
        None => missing(
            file,
            base,
            "inputs"@,
            action.span,
            "action is missing required object field 'inputs'"@,
        ),
        Some(inputs) => {
            let wrong = if is_opaque(file, &inputs) {
                match resolved(file, &inputs, file.arm) {
                    Some(value) => !(value.kind is Object) && !(value.kind is Null),
                    None => false,
                }
            } else {
                !(inputs.kind is Object)
            };
            if wrong {
                wrong_type(
                    file,
                    base,
                    "inputs"@,
                    inputs.span,
                    "action field 'inputs' must be an object"@,
                )
            } else {
                Seq::empty()
            }
        },
    }
}

/// The object that an optional `inputs` node is, unless it is a template expression.
pub open spec fn inputs_object(inputs: Option<Node>, file: &Document) -> Option<Node> {
    match inputs {
        Some(node) => if !is_opaque(file, &node) && node.kind is Object {
            Some(node)
        } else {
            None
        },
        None => None,
    }
}

/// What is wrong with the `inputs` of a trigger.
pub open spec fn trigger_inputs_findings(
    trigger: &Node,
    inputs: Option<Node>,
    base: Seq<char>,
    file: &Document,
) -> Seq<Finding> {
    match inputs {
        None => missing(
            file,
            base,
            "inputs"@,
            trigger.span,
            "trigger is missing required object field 'inputs'"@,
        ),
        Some(inputs) => if is_opaque(file, &inputs) || inputs.kind is Object {
            Seq::empty()
        } else {
            wrong_type(
                file,
                base,
                "inputs"@,
                inputs.span,
                "trigger field 'inputs' must be an object"@,
            )
        },
    }
}

impl Shape {
    pub fn matches(self, value: &Node) -> (holds: bool)
        ensures
            holds == fits(value, self),
    {
        match self {
            Shape::Any => true,
            Shape::Text => value.is_string(),
            Shape::Object => value.is_object(),
            Shape::TextOrArray => value.is_string() || value.is_array(),
            Shape::TextOrObject => value.is_string() || value.is_object(),
            Shape::TextOrInteger => value.is_string() || is_integer_value(value),
            Shape::TextOrNumber => value.is_string() || value.is_number(),
            Shape::Integer => is_integer_value(value),
            Shape::IntegerOrExpression => is_integer_or_wdl_expression(value),
        }
    }
}

/// Fetch the required `inputs` object of an action.
pub fn required_inputs_object<'a>(
    action: &'a Node,
    action_pointer: &str,
    file: &Document,
    diagnostics: &mut Vec<Diagnostic>,
) -> (found: Option<&'a Node>)
    ensures
        findings(final(diagnostics)@) == findings(old(diagnostics)@) + inputs_findings(
            action,
            action_pointer@,
            file,
        ),
        match found {
            Some(inputs) => inputs_of(action, file) == Some(*inputs),
            None => inputs_of(action, file) is None,
        },
{
    match get(action, "inputs") {
        None => {
            report_missing(
                file,
                action_pointer,
                "inputs",
                action.span,
                "action is missing required object field 'inputs'",
                diagnostics,
            );
            None
        },
        Some(inputs) => {
            if is_opaque_arm_expression(file, inputs) {
                if let Some(value) = static_json_value_from_spanned(file, inputs) {
                    if !value.is_object() && !value.is_null() {
                        report_type(
                            file,
                            action_pointer,
                            "inputs",
                            inputs.span,
                            "action field 'inputs' must be an object",
                            diagnostics,
                        );
                    }
                }
                return None;
            }
            if !inputs.is_object() {
                report_type(
                    file,
                    action_pointer,
                    "inputs",
                    inputs.span,
                    "action field 'inputs' must be an object",
                    diagnostics,
                );
                return None;
            }
            Some(inputs)
        },
    }
}

/// Fetch the required `inputs` object of a trigger.
pub fn required_trigger_inputs_object<'a>(
    trigger: &Node,
    inputs: Option<&'a Node>,
    trigger_pointer: &str,
    file: &Document,
    diagnostics: &mut Vec<Diagnostic>,
) -> (found: Option<&'a Node>)
    ensures
        findings(final(diagnostics)@) == findings(old(diagnostics)@) + trigger_inputs_findings(
            trigger,
            node_in(inputs),
            trigger_pointer@,
            file,
        ),
        node_in(found) == inputs_object(node_in(inputs), file),
{
    match inputs {
        None => {
            report_missing(
                file,
                trigger_pointer,
                "inputs",
                trigger.span,
                "trigger is missing required object field 'inputs'",
                diagnostics,
            );
            None
        },
        Some(inputs) => {
            if is_opaque_arm_expression(file, inputs) {
                return None;
            }
            if !inputs.is_object() {
                report_type(
                    file,
                    trigger_pointer,
                    "inputs",
                    inputs.span,
                    "trigger field 'inputs' must be an object",
                    diagnostics,
                );
                return None;
            }
            Some(inputs)
        },
    }
}

/// Presence-only check.
pub fn require_field(
    action: &Node,
    action_pointer: &str,
    key: &str,
    file: &Document,
    diagnostics: &mut Vec<Diagnostic>,
)
    ensures
        findings(final(diagnostics)@) == findings(old(diagnostics)@) + field_findings(
            action,
            action_pointer@,
            key@,
            file,
        ),
{
    if get(action, key).is_none() {
        let message = text3("action is missing required field '", key, "'");
        report_missing(file, action_pointer, key, action.span, message.as_str(), diagnostics);
    }
}

/// Presence and object-kind check.
pub fn require_object_field(
    action: &Node,
    action_pointer: &str,
    key: &str,
    file: &Document,
    diagnostics: &mut Vec<Diagnostic>,
)
    ensures
        findings(final(diagnostics)@) == findings(old(diagnostics)@) + object_field_findings(
            action,
            action_pointer@,
            key@,
            file,
        ),
{
    match get(action, key) {
        None => {
            let message = text3("action is missing required object field '", key, "'");
            report_missing(file, action_pointer, key, action.span, message.as_str(), diagnostics);
        },
        Some(value) => {
            if !is_opaque_arm_expression(file, value) && !value.is_object() {
                let message = text3("action field '", key, "' must be an object");
                report_type(file, action_pointer, key, value.span, message.as_str(), diagnostics);
            }
        },
    }
}

/// Presence and shape check.
pub fn require_typed_field(
    object: &Node,
    object_pointer: &str,
    key: &str,
    type_message: &str,
    shape: Shape,
    file: &Document,
    diagnostics: &mut Vec<Diagnostic>,
)
    ensures
        findings(final(diagnostics)@) == findings(old(diagnostics)@) + typed_field_findings(
            object,
            object_pointer@,
            key@,
            type_message@,
            shape,
            file,
        ),
{
    match get(object, key) {
        None => {
            let message = text3("object is missing required field '", key, "'");
            report_missing(file, object_pointer, key, object.span, message.as_str(), diagnostics);
        },
        Some(value) => {
            if !is_opaque_arm_expression(file, value) && !shape.matches(value) {
                report_type(file, object_pointer, key, value.span, type_message, diagnostics);
            }
        },
    }
}

} // verus!
