//! Fields that every trigger type shares: `splitOn`, `conditions`, `correlation`
//! and `splitOnConfiguration`.

use vstd::prelude::*;

use crate::diagnostic::{findings, Diagnostic, Finding};
use crate::json::{as_array, joined, pointer_join, Json, Document, Node};
use crate::shape::arm_boundary::{checked, get_checked, is_opaque, is_opaque_arm_expression};
use crate::shape::field_validators::{string_findings, validate_optional_string_field};
use crate::shape::node_type::{type_is, node_type_is};
use crate::shape::report::{report_context, report_type, wrong_context, wrong_type};
use crate::text::{decimal, decimal_of_usize, text2};

verus! {

broadcast use crate::diagnostic::group_findings;

/// What is wrong with `splitOn`.
pub open spec fn split_on_findings(
    trigger: &Node,
    trigger_pointer: Seq<char>,
    file: &Document,
) -> Seq<Finding> {
    match checked(file, trigger, "splitOn"@) {
        Some(value) => if !(value.kind is String) {
            wrong_type(
                file,
                trigger_pointer,
                "splitOn"@,
                value.span,
                "trigger splitOn must be a string"@,
            )
        } else {
            if type_is(trigger, "Recurrence"@) {
                wrong_context(
                    file,
                    trigger_pointer,
                    "splitOn"@,
                    value.span,
                    "Recurrence triggers do not support splitOn"@,
                )
            } else {
                Seq::empty()
            }
        },
        None => Seq::empty(),
    }
}

/// Validate `splitOn`, which Recurrence triggers do not support.
fn validate_split_on(
    trigger: &Node,
    trigger_pointer: &str,
    file: &Document,
    diagnostics: &mut Vec<Diagnostic>,
)
    ensures
        findings(final(diagnostics)@) == findings(old(diagnostics)@)
            + split_on_findings(trigger, trigger_pointer@, file),
{
    if let Some(value) = get_checked(file, trigger, "splitOn") {
        if !value.is_string() {
            report_type(
                file,
                trigger_pointer,
                "splitOn",
                value.span,
                "trigger splitOn must be a string",
                diagnostics,
            );
        } else {
            if node_type_is(trigger, "Recurrence") {
                report_context(
                    file,
                    trigger_pointer,
                    "splitOn",
                    value.span,
                    "Recurrence triggers do not support splitOn",
                    diagnostics,
                );
            }
        }
    }
}

/// What is wrong with the first `n` of the conditions of a trigger.
pub open spec fn condition_findings(
    items: Seq<Node>,
    n: nat,
    base: Seq<char>,
    file: &Document,
) -> Seq<Finding>
    decreases n,
{
    if n == 0 {
        Seq::empty()
    } else {
        let item = items[n - 1];
        let index = decimal(n - 1);
        condition_findings(items, (n - 1) as nat, base, file) + (if is_opaque(file, &item) {
            Seq::empty()
        } else {
            if item.kind is Object {
                let condition_pointer = joined(base, index);
                (match checked(file, &item, "expression"@) {
                    Some(value) => if value.kind is String {
                        Seq::empty()
                    } else {
                        wrong_type(
                            file,
                            condition_pointer,
                            "expression"@,
                            value.span,
                            "trigger condition expression must be a string"@,
                        )
                    },
                    None => Seq::empty(),
                }) + (match checked(file, &item, "dependsOn"@) {
                    Some(value) => if value.kind is String {
                        Seq::empty()
                    } else {
                        wrong_type(
                            file,
                            condition_pointer,
                            "dependsOn"@,
                            value.span,
                            "trigger condition dependsOn must be a string"@,
                        )
                    },
                    None => Seq::empty(),
                })
            } else {
                wrong_type(
                    file,
                    base,
                    index,
                    item.span,
                    "trigger condition entries must be objects"@,
                )
            }
        })
    }
}

fn validate_conditions(
    items: &Vec<Node>,
    base: &str,
    file: &Document,
    diagnostics: &mut Vec<Diagnostic>,
)
    ensures
        findings(final(diagnostics)@) == findings(old(diagnostics)@)
            + condition_findings(items@, items@.len(), base@, file),
{
    let ghost before = findings(diagnostics@);
    let mut i: usize = 0;
    while i < items.len()
        invariant
            i <= items.len(),
            findings(diagnostics@) == before + condition_findings(items@, i as nat, base@, file),
        decreases items.len() - i,
    {
        let item = &items[i];
        let index_text = decimal_of_usize(i);
        let index = index_text.as_str();
        if !is_opaque_arm_expression(file, item) {
            if item.is_object() {
                let condition_pointer_text = pointer_join(base, index);
                let condition_pointer = condition_pointer_text.as_str();
                if let Some(value) = get_checked(file, item, "expression") {
                    if !value.is_string() {
                        report_type(
                            file,
                            condition_pointer,
                            "expression",
                            value.span,
                            "trigger condition expression must be a string",
                            diagnostics,
                        );
                    }
                }
                if let Some(value) = get_checked(file, item, "dependsOn") {
                    if !value.is_string() {
                        report_type(
                            file,
                            condition_pointer,
                            "dependsOn",
                            value.span,
                            "trigger condition dependsOn must be a string",
                            diagnostics,
                        );
                    }
                }
            } else {
                report_type(
                    file,
                    base,
                    index,
                    item.span,
                    "trigger condition entries must be objects",
                    diagnostics,
                );
            }
        }
        i += 1;
    }
}

/// What is wrong with `conditions`.
pub open spec fn conditions_findings(
    trigger: &Node,
    trigger_pointer: Seq<char>,
    file: &Document,
) -> Seq<Finding> {
    match checked(file, trigger, "conditions"@) {
        Some(value) => match value.kind {
            Json::Array(items) => condition_findings(
                items@,
                items@.len(),
                joined(trigger_pointer, "conditions"@),
                file,
            ),
            _ => wrong_type(
                file,
                trigger_pointer,
                "conditions"@,
                value.span,
                "trigger conditions must be an array"@,
            ),
        },
        None => Seq::empty(),
    }
}

/// Validate `conditions`.
fn validate_trigger_conditions(
    trigger: &Node,
    trigger_pointer: &str,
    file: &Document,
    diagnostics: &mut Vec<Diagnostic>,
)
    ensures
        findings(final(diagnostics)@) == findings(old(diagnostics)@)
            + conditions_findings(trigger, trigger_pointer@, file),
{
    if let Some(value) = get_checked(file, trigger, "conditions") {
        match as_array(value) {
            Some(items) => {
                let pointer = pointer_join(trigger_pointer, "conditions");
                validate_conditions(items, pointer.as_str(), file, diagnostics);
            },
            None => {
                report_type(
                    file,
                    trigger_pointer,
                    "conditions",
                    value.span,
                    "trigger conditions must be an array",
                    diagnostics,
                );
            },
        }
    }
}

/// What is wrong with `correlation`.
pub open spec fn correlation_findings(
    object: &Node,
    base: Seq<char>,
    label: Seq<char>,
    file: &Document,
) -> Seq<Finding> {
    match checked(file, object, "correlation"@) {
        Some(value) => if value.kind is Object {
            let correlation_pointer = joined(base, "correlation"@);
            string_findings(
                &value,
                correlation_pointer,
                "clientTrackingId"@,
                label + ".clientTrackingId"@,
                file,
            )
        } else {
            wrong_type(file, base, "correlation"@, value.span, label + " must be an object"@)
        },
        None => Seq::empty(),
    }
}

/// Validate `correlation`.
fn validate_correlation(
    object: &Node,
    base: &str,
    label: &str,
    file: &Document,
    diagnostics: &mut Vec<Diagnostic>,
)
    ensures
        findings(final(diagnostics)@) == findings(old(diagnostics)@)
            + correlation_findings(object, base@, label@, file),
{
    if let Some(value) = get_checked(file, object, "correlation") {
        if value.is_object() {
            let correlation_pointer_text = pointer_join(base, "correlation");
            let correlation_pointer = correlation_pointer_text.as_str();
            let tracking = text2(label, ".clientTrackingId");
            validate_optional_string_field(
                value,
                correlation_pointer,
                "clientTrackingId",
                tracking.as_str(),
                file,
                diagnostics,
            );
        } else {
            let message = text2(label, " must be an object");
            report_type(file, base, "correlation", value.span, message.as_str(), diagnostics);
        }
    }
}

/// What is wrong with `splitOnConfiguration`.
pub open spec fn split_on_configuration_findings(
    trigger: &Node,
    trigger_pointer: Seq<char>,
    file: &Document,
) -> Seq<Finding> {
    match checked(file, trigger, "splitOnConfiguration"@) {
        Some(value) => if value.kind is Object {
            let split_pointer = joined(trigger_pointer, "splitOnConfiguration"@);
            correlation_findings(
                &value,
                split_pointer,
                "trigger splitOnConfiguration.correlation"@,
                file,
            )
        } else {
            wrong_type(
                file,
                trigger_pointer,
                "splitOnConfiguration"@,
                value.span,
                "trigger splitOnConfiguration must be an object"@,
            )
        },
        None => Seq::empty(),
    }
}

/// Validate `splitOnConfiguration`.
fn validate_split_on_configuration(
    trigger: &Node,
    trigger_pointer: &str,
    file: &Document,
    diagnostics: &mut Vec<Diagnostic>,
)
    ensures
        findings(final(diagnostics)@) == findings(old(diagnostics)@)
            + split_on_configuration_findings(trigger, trigger_pointer@, file),
{
    if let Some(value) = get_checked(file, trigger, "splitOnConfiguration") {
        if value.is_object() {
            let split_pointer_text = pointer_join(trigger_pointer, "splitOnConfiguration");
            let split_pointer = split_pointer_text.as_str();
            validate_correlation(
                value,
                split_pointer,
                "trigger splitOnConfiguration.correlation",
                file,
                diagnostics,
            );
        } else {
            report_type(
                file,
                trigger_pointer,
                "splitOnConfiguration",
                value.span,
                "trigger splitOnConfiguration must be an object",
                diagnostics,
            );
        }
    }
}

/// What is wrong with the fields that every trigger type shares.
pub open spec fn trigger_common_findings(
    trigger: &Node,
    trigger_pointer: Seq<char>,
    file: &Document,
) -> Seq<Finding> {
    split_on_findings(trigger, trigger_pointer, file)
        + conditions_findings(trigger, trigger_pointer, file)
        + correlation_findings(trigger, trigger_pointer, "trigger correlation"@, file)
        + split_on_configuration_findings(trigger, trigger_pointer, file)
}

/// Validate the fields that every trigger type shares.
pub fn validate_trigger_common_fields(
    trigger: &Node,
    trigger_pointer: &str,
    file: &Document,
    diagnostics: &mut Vec<Diagnostic>,
)
    ensures
        findings(final(diagnostics)@) == findings(old(diagnostics)@)
            + trigger_common_findings(trigger, trigger_pointer@, file),
{
    validate_split_on(trigger, trigger_pointer, file, diagnostics);
    validate_trigger_conditions(trigger, trigger_pointer, file, diagnostics);
    validate_correlation(trigger, trigger_pointer, "trigger correlation", file, diagnostics);
    validate_split_on_configuration(trigger, trigger_pointer, file, diagnostics);
}
} // verus!
