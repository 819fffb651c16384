//! Reusable field-shape helpers shared across the rule modules.
//!
//! Every helper passes over absent values and template expressions, reports
//! `workflow-shape-invalid-type` when a value has the wrong JSON kind, and
//! `workflow-shape-invalid-value` when it has the right kind and the wrong
//! content.

use vstd::prelude::*;

use crate::diagnostic::{findings, Diagnostic, Finding};
use crate::json::{
    as_object, as_string, field, get, joined, pointer_join, text_of, Document, Json, Member, Node,
};
use crate::shape::arm_boundary::{
    arm_optional_property_absent, checked, get_checked, is_absent, is_opaque,
    is_opaque_arm_expression,
};
use crate::shape::dynamic_wdl::{wdl_string_may_match_exact, wdl_string_may_match_exact_ignore_case};
use crate::shape::numbers::{
    integer_of, integer_value, is_expression_string, is_integer, is_integer_or_wdl_expression,
    is_positive_integer, is_positive_integer_or_wdl_expression,
};
use crate::shape::report::{
    missing, report_missing, report_type, report_value, wrong_type, wrong_value,
};
use crate::text::{decimal, decimal_of_i64, in_list, names, one_of, text2, text3, text4};
use crate::wdl::value::{classified, may_match, may_match_ignoring_case};

verus! {

broadcast use crate::diagnostic::group_findings;

/// `label` names a value that has to be a string.
pub open spec fn string_message(label: Seq<char>) -> Seq<char> {
    label + " must be a string"@
}

/// `label` names a value that `text` is not supported for.
pub open spec fn unsupported_message(label: Seq<char>, text: Seq<char>) -> Seq<char> {
    label + " '"@ + text + "' is not supported"@
}

/// What is wrong with the optional `kind` of a node.
pub open spec fn kind_findings(
    node: &Node,
    base: Seq<char>,
    label: Seq<char>,
    allowed: Seq<Seq<char>>,
    file: &Document,
) -> Seq<Finding> {
    match checked(file, node, "kind"@) {
        None => Seq::empty(),
        Some(kind) => match text_of(&kind) {
            None => wrong_type(file, base, "kind"@, kind.span, string_message(label)),
            Some(text) => if one_of(text, allowed) {
                Seq::empty()
            } else {
                wrong_value(file, base, "kind"@, kind.span, unsupported_message(label, text))
            },
        },
    }
}

/// The `kind` of a node where it is one of `allowed`.
pub open spec fn kind_of(node: &Node, allowed: Seq<Seq<char>>, file: &Document) -> Option<Seq<char>> {
    match checked(file, node, "kind"@) {
        None => None,
        Some(kind) => match text_of(&kind) {
            None => None,
            Some(text) => if one_of(text, allowed) {
                Some(text)
            } else {
                None
            },
        },
    }
}

/// Validate an optional `kind` string against `allowed` and return it.
pub fn validate_optional_kind<'a>(
    node: &'a Node,
    pointer: &str,
    label: &str,
    allowed: &[&str],
    file: &Document,
    diagnostics: &mut Vec<Diagnostic>,
) -> (found: Option<&'a str>)
    ensures
        findings(final(diagnostics)@) == findings(old(diagnostics)@) + kind_findings(
            node,
            pointer@,
            label@,
            names(allowed@),
            file,
        ),
        match found {
            Some(text) => kind_of(node, names(allowed@), file) == Some(text@),
            None => kind_of(node, names(allowed@), file) is None,
        },
{
    match get_checked(file, node, "kind") {
        None => None,
        Some(kind) => match as_string(kind) {
            None => {
                let message = text2(label, " must be a string");
                report_type(file, pointer, "kind", kind.span, message.as_str(), diagnostics);
                None
            },
            Some(text) => {
                if !in_list(text, allowed) {
                    let message = text4(label, " '", text, "' is not supported");
                    report_value(file, pointer, "kind", kind.span, message.as_str(), diagnostics);
                    return None;
                }
                Some(text)
            },
        },
    }
}

/// What is wrong with an optional member that has to be one of `allowed`.
pub open spec fn enum_findings(
    object: &Node,
    base: Seq<char>,
    key: Seq<char>,
    label: Seq<char>,
    allowed: Seq<Seq<char>>,
    file: &Document,
) -> Seq<Finding> {
    match checked(file, object, key) {
        None => Seq::empty(),
        Some(value) => enum_value_findings(&value, base, key, label, allowed, file),
    }
}

/// What is wrong with a value that has to be one of `allowed`.
pub open spec fn enum_value_findings(
    value: &Node,
    base: Seq<char>,
    key: Seq<char>,
    label: Seq<char>,
    allowed: Seq<Seq<char>>,
    file: &Document,
) -> Seq<Finding> {
    match text_of(value) {
        None => wrong_type(file, base, key, value.span, string_message(label)),
        Some(text) => if may_match(classified(text), allowed) {
            Seq::empty()
        } else {
            wrong_value(file, base, key, value.span, unsupported_message(label, text))
        },
    }
}

fn check_enum_value(
    value: &Node,
    base: &str,
    key: &str,
    label: &str,
    allowed: &[&str],
    file: &Document,
    diagnostics: &mut Vec<Diagnostic>,
)
    ensures
        findings(final(diagnostics)@) == findings(old(diagnostics)@) + enum_value_findings(
            value,
            base@,
            key@,
            label@,
            names(allowed@),
            file,
        ),
{
    match as_string(value) {
        None => {
            let message = text2(label, " must be a string");
            report_type(file, base, key, value.span, message.as_str(), diagnostics);
        },
        Some(text) => {
            if !wdl_string_may_match_exact(text, allowed) {
                let message = text4(label, " '", text, "' is not supported");
                report_value(file, base, key, value.span, message.as_str(), diagnostics);
            }
        },
    }
}

/// Optional string enum, case-sensitive comparison.
pub fn validate_optional_string_enum(
    object: &Node,
    object_pointer: &str,
    key: &str,
    label: &str,
    allowed: &[&str],
    file: &Document,
    diagnostics: &mut Vec<Diagnostic>,
)
    ensures
        findings(final(diagnostics)@) == findings(old(diagnostics)@) + enum_findings(
            object,
            object_pointer@,
            key@,
            label@,
            names(allowed@),
            file,
        ),
{
    if let Some(value) = get_checked(file, object, key) {
        check_enum_value(value, object_pointer, key, label, allowed, file, diagnostics);
    }
}

/// What is wrong with a required member that has to be one of `allowed`.
pub open spec fn required_enum_findings(
    object: &Node,
    base: Seq<char>,
    key: Seq<char>,
    label: Seq<char>,
    allowed: Seq<Seq<char>>,
    file: &Document,
) -> Seq<Finding> {
    let message = "object is missing required field '"@ + key + "'"@;
    match field(object, key) {
        None => missing(file, base, key, object.span, message),
        Some(value) => if is_absent(file, &value) {
            missing(file, base, key, value.span, message)
        } else if is_opaque(file, &value) {
            Seq::empty()
        } else {
            enum_value_findings(&value, base, key, label, allowed, file)
        },
    }
}

/// Required counterpart of `validate_optional_string_enum`.
pub fn validate_required_string_enum(
    object: &Node,
    object_pointer: &str,
    key: &str,
    label: &str,
    allowed: &[&str],
    file: &Document,
    diagnostics: &mut Vec<Diagnostic>,
)
    ensures
        findings(final(diagnostics)@) == findings(old(diagnostics)@) + required_enum_findings(
            object,
            object_pointer@,
            key@,
            label@,
            names(allowed@),
            file,
        ),
{
    match get(object, key) {
        None => {
            let message = text3("object is missing required field '", key, "'");
            report_missing(file, object_pointer, key, object.span, message.as_str(), diagnostics);
        },
        Some(value) => {
            if arm_optional_property_absent(file, value) {
                let message = text3("object is missing required field '", key, "'");
                report_missing(file, object_pointer, key, value.span, message.as_str(), diagnostics);
            } else if !is_opaque_arm_expression(file, value) {
                check_enum_value(value, object_pointer, key, label, allowed, file, diagnostics);
            }
        },
    }
}

/// What is wrong with an optional member that has to be one of `allowed` up
/// to ASCII case.
pub open spec fn caseless_enum_findings(
    object: &Node,
    base: Seq<char>,
    key: Seq<char>,
    label: Seq<char>,
    allowed: Seq<Seq<char>>,
    file: &Document,
) -> Seq<Finding> {
    match checked(file, object, key) {
        None => Seq::empty(),
        Some(value) => match text_of(&value) {
            None => wrong_type(file, base, key, value.span, string_message(label)),
            Some(text) => if may_match_ignoring_case(classified(text), allowed) {
                Seq::empty()
            } else {
                wrong_value(file, base, key, value.span, unsupported_message(label, text))
            },
        },
    }
}

/// Optional string enum where either casing is accepted.
pub fn validate_optional_string_enum_ignore_case(
    object: &Node,
    object_pointer: &str,
    key: &str,
    label: &str,
    allowed: &[&str],
    file: &Document,
    diagnostics: &mut Vec<Diagnostic>,
)
    ensures
        findings(final(diagnostics)@) == findings(old(diagnostics)@) + caseless_enum_findings(
            object,
            object_pointer@,
            key@,
            label@,
            names(allowed@),
            file,
        ),
{
    if let Some(value) = get_checked(file, object, key) {
        match as_string(value) {
            None => {
                let message = text2(label, " must be a string");
                report_type(file, object_pointer, key, value.span, message.as_str(), diagnostics);
            },
            Some(text) => {
                if !wdl_string_may_match_exact_ignore_case(text, allowed) {
                    let message = text4(label, " '", text, "' is not supported");
                    report_value(file, object_pointer, key, value.span, message.as_str(), diagnostics);
                }
            },
        }
    }
}

/// What is wrong with an optional member that has to be a string.
pub open spec fn string_findings(
    object: &Node,
    base: Seq<char>,
    key: Seq<char>,
    label: Seq<char>,
    file: &Document,
) -> Seq<Finding> {
    match checked(file, object, key) {
        None => Seq::empty(),
        Some(value) => if value.kind is String {
            Seq::empty()
        } else {
            wrong_type(file, base, key, value.span, label + " must be a string"@)
        },
    }
}

pub fn validate_optional_string_field(
    object: &Node,
    object_pointer: &str,
    key: &str,
    label: &str,
    file: &Document,
    diagnostics: &mut Vec<Diagnostic>,
)
    ensures
        findings(final(diagnostics)@) == findings(old(diagnostics)@) + string_findings(
            object,
            object_pointer@,
            key@,
            label@,
            file,
        ),
{
    if let Some(value) = get_checked(file, object, key) {
        if !value.is_string() {
            let message = text2(label, " must be a string");
            report_type(file, object_pointer, key, value.span, message.as_str(), diagnostics);
        }
    }
}

/// What is wrong with an optional member that has to be an integer.
pub open spec fn integer_findings(
    object: &Node,
    base: Seq<char>,
    key: Seq<char>,
    label: Seq<char>,
    file: &Document,
) -> Seq<Finding> {
    match checked(file, object, key) {
        None => Seq::empty(),
        Some(value) => if is_integer(&value) || is_expression_string(&value) {
            Seq::empty()
        } else {
            wrong_type(file, base, key, value.span, label + " must be an integer"@)
        },
    }
}

pub fn validate_optional_integer_field(
    object: &Node,
    object_pointer: &str,
    key: &str,
    label: &str,
    file: &Document,
    diagnostics: &mut Vec<Diagnostic>,
)
    ensures
        findings(final(diagnostics)@) == findings(old(diagnostics)@) + integer_findings(
            object,
            object_pointer@,
            key@,
            label@,
            file,
        ),
{
    if let Some(value) = get_checked(file, object, key) {
        if !is_integer_or_wdl_expression(value) {
            let message = text2(label, " must be an integer");
            report_type(file, object_pointer, key, value.span, message.as_str(), diagnostics);
        }
    }
}

/// What is wrong with an optional member that has to be a boolean.
pub open spec fn bool_findings(
    object: &Node,
    base: Seq<char>,
    key: Seq<char>,
    label: Seq<char>,
    file: &Document,
) -> Seq<Finding> {
    match checked(file, object, key) {
        None => Seq::empty(),
        Some(value) => if value.kind is Bool {
            Seq::empty()
        } else {
            wrong_type(file, base, key, value.span, label + " must be a boolean"@)
        },
    }
}

pub fn validate_optional_bool_field(
    object: &Node,
    object_pointer: &str,
    key: &str,
    label: &str,
    file: &Document,
    diagnostics: &mut Vec<Diagnostic>,
)
    ensures
        findings(final(diagnostics)@) == findings(old(diagnostics)@) + bool_findings(
            object,
            object_pointer@,
            key@,
            label@,
            file,
        ),
{
    if let Some(value) = get_checked(file, object, key) {
        if !value.is_bool() {
            let message = text2(label, " must be a boolean");
            report_type(file, object_pointer, key, value.span, message.as_str(), diagnostics);
        }
    }
}

/// What is wrong with an optional member that has to be a positive integer.
pub open spec fn positive_integer_findings(
    object: &Node,
    base: Seq<char>,
    key: Seq<char>,
    label: Seq<char>,
    file: &Document,
) -> Seq<Finding> {
    match checked(file, object, key) {
        None => Seq::empty(),
        Some(value) => if is_positive_integer(&value) || is_expression_string(&value) {
            Seq::empty()
        } else {
            wrong_type(file, base, key, value.span, label + " must be a positive integer"@)
        },
    }
}

pub fn validate_optional_positive_integer(
    object: &Node,
    object_pointer: &str,
    key: &str,
    label: &str,
    file: &Document,
    diagnostics: &mut Vec<Diagnostic>,
)
    ensures
        findings(final(diagnostics)@) == findings(old(diagnostics)@) + positive_integer_findings(
            object,
            object_pointer@,
            key@,
            label@,
            file,
        ),
{
    if let Some(value) = get_checked(file, object, key) {
        if !is_positive_integer_or_wdl_expression(value) {
            let message = text2(label, " must be a positive integer");
            report_type(file, object_pointer, key, value.span, message.as_str(), diagnostics);
        }
    }
}

/// What is wrong with an optional member that has to be an object.
pub open spec fn object_findings(
    object: &Node,
    base: Seq<char>,
    key: Seq<char>,
    label: Seq<char>,
    file: &Document,
) -> Seq<Finding> {
    match checked(file, object, key) {
        None => Seq::empty(),
        Some(value) => if value.kind is Object {
            Seq::empty()
        } else {
            wrong_type(file, base, key, value.span, label + " must be an object"@)
        },
    }
}

pub fn validate_optional_object_field(
    object: &Node,
    object_pointer: &str,
    key: &str,
    label: &str,
    file: &Document,
    diagnostics: &mut Vec<Diagnostic>,
)
    ensures
        findings(final(diagnostics)@) == findings(old(diagnostics)@) + object_findings(
            object,
            object_pointer@,
            key@,
            label@,
            file,
        ),
{
    if let Some(value) = get_checked(file, object, key) {
        if !value.is_object() {
            let message = text2(label, " must be an object");
            report_type(file, object_pointer, key, value.span, message.as_str(), diagnostics);
        }
    }
}

/// What is wrong with an optional integer member that has a range.
pub open spec fn range_findings(
    object: &Node,
    base: Seq<char>,
    key: Seq<char>,
    label: Seq<char>,
    low: int,
    high: int,
    file: &Document,
) -> Seq<Finding> {
    match checked(file, object, key) {
        None => Seq::empty(),
        Some(value) => match integer_of(&value) {
            None => wrong_type(file, base, key, value.span, label + " must be an integer"@),
            Some(number) => if low <= number <= high {
                Seq::empty()
            } else {
                wrong_value(
                    file,
                    base,
                    key,
                    value.span,
                    label + " value "@ + decimal(number) + " is out of range"@,
                )
            },
        },
    }
}

pub fn validate_optional_integer_range(
    object: &Node,
    object_pointer: &str,
    key: &str,
    label: &str,
    low: i64,
    high: i64,
    file: &Document,
    diagnostics: &mut Vec<Diagnostic>,
)
    ensures
        findings(final(diagnostics)@) == findings(old(diagnostics)@) + range_findings(
            object,
            object_pointer@,
            key@,
            label@,
            low as int,
            high as int,
            file,
        ),
{
    if let Some(value) = get_checked(file, object, key) {
        match integer_value(value) {
            None => {
                let message = text2(label, " must be an integer");
                report_type(file, object_pointer, key, value.span, message.as_str(), diagnostics);
            },
            Some(number) => {
                if number < low || number > high {
                    let shown = decimal_of_i64(number);
                    let message = text4(label, " value ", shown.as_str(), " is out of range");
                    report_value(file, object_pointer, key, value.span, message.as_str(), diagnostics);
                }
            },
        }
    }
}

/// `value` names a resource by at least one address field.
pub open spec fn names_resource(value: &Node) -> bool {
    ||| field(value, "connectionName"@) is Some
    ||| field(value, "id"@) is Some
    ||| field(value, "name"@) is Some
    ||| field(value, "type"@) is Some
}

/// What is wrong with an optional resource reference.
pub open spec fn resource_findings(
    object: &Node,
    base: Seq<char>,
    key: Seq<char>,
    label: Seq<char>,
    file: &Document,
) -> Seq<Finding> {
    match checked(file, object, key) {
        None => Seq::empty(),
        Some(value) => {
            let pointer = joined(base, key);
            if !(value.kind is Object) {
                wrong_type(file, base, key, value.span, label + " must be an object"@)
            } else {
                (if names_resource(&value) {
                    Seq::empty()
                } else {
                    missing(
                        file,
                        pointer,
                        "id"@,
                        value.span,
                        label + " must define at least one of connectionName, id, name, or type"@,
                    )
                }) + string_findings(
                    &value,
                    pointer,
                    "connectionName"@,
                    label + ".connectionName"@,
                    file,
                ) + string_findings(&value, pointer, "id"@, label + ".id"@, file)
                    + string_findings(&value, pointer, "name"@, label + ".name"@, file)
                    + string_findings(&value, pointer, "type"@, label + ".type"@, file)
            }
        },
    }
}

/// A resource reference names at least one of the accepted address fields,
/// each a string.
pub fn validate_optional_resource_reference(
    object: &Node,
    object_pointer: &str,
    key: &str,
    label: &str,
    file: &Document,
    diagnostics: &mut Vec<Diagnostic>,
)
    ensures
        findings(final(diagnostics)@) == findings(old(diagnostics)@) + resource_findings(
            object,
            object_pointer@,
            key@,
            label@,
            file,
        ),
{
    if let Some(value) = get_checked(file, object, key) {
        let pointer = pointer_join(object_pointer, key);
        let pointer = pointer.as_str();
        if !value.is_object() {
            let message = text2(label, " must be an object");
            report_type(file, object_pointer, key, value.span, message.as_str(), diagnostics);
            return;
        }
        if get(value, "connectionName").is_none() && get(value, "id").is_none() && get(
            value,
            "name",
        ).is_none() && get(value, "type").is_none() {
            let message = text2(
                label,
                " must define at least one of connectionName, id, name, or type",
            );
            report_missing(file, pointer, "id", value.span, message.as_str(), diagnostics);
        }
        let connection = text2(label, ".connectionName");
        validate_optional_string_field(
            value,
            pointer,
            "connectionName",
            connection.as_str(),
            file,
            diagnostics,
        );
        let id = text2(label, ".id");
        validate_optional_string_field(value, pointer, "id", id.as_str(), file, diagnostics);
        let name = text2(label, ".name");
        validate_optional_string_field(value, pointer, "name", name.as_str(), file, diagnostics);
        let kind = text2(label, ".type");
        validate_optional_string_field(value, pointer, "type", kind.as_str(), file, diagnostics);
    }
}

/// What is wrong with the first `n` of the members, which have to be scalar.
pub open spec fn scalar_findings(
    members: Seq<Member>,
    n: nat,
    base: Seq<char>,
    label: Seq<char>,
    file: &Document,
) -> Seq<Finding>
    decreases n,
{
    if n == 0 {
        Seq::empty()
    } else {
        let member = members[n - 1];
        scalar_findings(members, (n - 1) as nat, base, label, file) + (if !is_opaque(
            file,
            &member.value,
        ) && (member.value.kind is Object || member.value.kind is Array) {
            wrong_type(
                file,
                base,
                member.name@,
                member.value.span,
                label + " values must be scalar"@,
            )
        } else {
            Seq::empty()
        })
    }
}

/// What is wrong with the members of an object, which have to be scalar.
pub open spec fn scalar_object_findings(
    value: &Node,
    base: Seq<char>,
    label: Seq<char>,
    file: &Document,
) -> Seq<Finding> {
    match value.kind {
        Json::Object(members) => scalar_findings(members@, members@.len(), base, label, file),
        _ => Seq::empty(),
    }
}

pub fn validate_scalar_object_values(
    value: &Node,
    object_pointer: &str,
    label: &str,
    file: &Document,
    diagnostics: &mut Vec<Diagnostic>,
)
    ensures
        findings(final(diagnostics)@) == findings(old(diagnostics)@) + scalar_object_findings(
            value,
            object_pointer@,
            label@,
            file,
        ),
{
    if let Some(members) = as_object(value) {
        let ghost before = findings(diagnostics@);
        let mut i: usize = 0;
        while i < members.len()
            invariant
                i <= members.len(),
                findings(diagnostics@) == before + scalar_findings(
                    members@,
                    i as nat,
                    object_pointer@,
                    label@,
                    file,
                ),
            decreases members.len() - i,
        {
            let member = &members[i];
            let item = &member.value;
            if !is_opaque_arm_expression(file, item) && (item.is_object() || item.is_array()) {
                let message = text2(label, " values must be scalar");
                report_type(
                    file,
                    object_pointer,
                    member.name.as_str(),
                    item.span,
                    message.as_str(),
                    diagnostics,
                );
            }
            i += 1;
        }
    }
}

/// What is wrong with an optional member that is a string or an object of scalars.
pub open spec fn object_or_string_findings(
    object: &Node,
    base: Seq<char>,
    key: Seq<char>,
    label: Seq<char>,
    file: &Document,
) -> Seq<Finding> {
    match checked(file, object, key) {
        None => Seq::empty(),
        Some(value) => if value.kind is Object {
            scalar_object_findings(&value, joined(base, key), label, file)
        } else if value.kind is String {
            Seq::empty()
        } else {
            wrong_type(file, base, key, value.span, label + " must be an object or string"@)
        },
    }
}

/// Optional field that may be an object of scalars or a bare string.
pub fn validate_optional_object_or_string_field(
    object: &Node,
    object_pointer: &str,
    key: &str,
    label: &str,
    file: &Document,
    diagnostics: &mut Vec<Diagnostic>,
)
    ensures
        findings(final(diagnostics)@) == findings(old(diagnostics)@) + object_or_string_findings(
            object,
            object_pointer@,
            key@,
            label@,
            file,
        ),
{
    if let Some(value) = get_checked(file, object, key) {
        if value.is_object() {
            let pointer = pointer_join(object_pointer, key);
            validate_scalar_object_values(value, pointer.as_str(), label, file, diagnostics);
        } else if !value.is_string() {
            let message = text2(label, " must be an object or string");
            report_type(file, object_pointer, key, value.span, message.as_str(), diagnostics);
        }
    }
}

} // verus!
