//! Checks shared by all nodes: fields that belong to the envelope of an action
//! or trigger rather than to a particular type.

use vstd::prelude::*;

use crate::arm::ArmScope;
use crate::diagnostic::{findings, Diagnostic, Finding};
use crate::json::{
    as_string, compact_json, get_string, joined, json_text, pointer_join, text_field, text_of,
    Document, Node,
};
use crate::shape::arm_boundary::{
    authored, checked, get_authored, get_checked, get_present, is_opaque, is_opaque_arm_expression,
    present,
};
use crate::shape::content_transfer::{
    action_uses_chunked_transfer, chunked_findings, is_chunked,
    validate_chunked_tracked_properties,
};
use crate::shape::dynamic_wdl::{may_be_duration, wdl_string_may_be_iso8601_duration};
use crate::shape::field_validators::{
    object_findings, string_findings, validate_optional_object_field,
    validate_optional_string_field,
};
use crate::shape::node_type::{type_is_one_of, node_type_is_one_of};
use crate::shape::operation_options::{
    option_conflict_findings, options_findings, unknown_options_findings,
    validate_operation_options_conflicts, validate_operation_options_literal_values,
    validate_operation_options_values,
};
use crate::shape::report::{
    issue, report, report_context, report_type, report_value, wrong_context, wrong_type,
    wrong_value,
};
use crate::shape::runtime::{
    runtime_findings, validate_runtime_configuration,
    validate_runtime_configuration_for_dynamic_type,
};
use crate::shape::secure_data::{has_secure_data, operation_has_secure_data};
use crate::text::{chars_of, in_list, names, one_of, text2, text4, text_eq};
use crate::workflow::Workflow;

verus! {

broadcast use crate::diagnostic::group_findings;

pub open spec fn common_kind_names() -> Seq<Seq<char>> {
    seq![
        "AddToTime"@,
        "Alert"@,
        "ApiConnection"@,
        "AzureMonitorAlert"@,
        "Button"@,
        "ConvertTimeZone"@,
        "CurrentTime"@,
        "EventGrid"@,
        "Geofence"@,
        "GetFutureTime"@,
        "GetPastTime"@,
        "Http"@,
        "JsonToJson"@,
        "JsonToText"@,
        "PowerApp"@,
        "SecurityCenterAlert"@,
        "SubtractFromTime"@,
        "XmlToJson"@,
        "XmlToText"@,
    ]
}

pub fn common_kind_list() -> (list: Vec<&'static str>)
    ensures
        names(list@) == common_kind_names(),
{
    let list = vec![
        "AddToTime",
        "Alert",
        "ApiConnection",
        "AzureMonitorAlert",
        "Button",
        "ConvertTimeZone",
        "CurrentTime",
        "EventGrid",
        "Geofence",
        "GetFutureTime",
        "GetPastTime",
        "Http",
        "JsonToJson",
        "JsonToText",
        "PowerApp",
        "SecurityCenterAlert",
        "SubtractFromTime",
        "XmlToJson",
        "XmlToText",
    ];
    assert(names(list@) =~= common_kind_names());
    list
}

pub open spec fn limit_action_type_names() -> Seq<Seq<char>> {
    seq!["ApiConnection"@, "ApiConnectionWebhook"@, "Http"@, "HttpWebhook"@, "Until"@, "Workflow"@]
}

fn limit_action_type_list() -> (list: Vec<&'static str>)
    ensures
        names(list@) == limit_action_type_names(),
{
    let list = vec![
        "ApiConnection",
        "ApiConnectionWebhook",
        "Http",
        "HttpWebhook",
        "Until",
        "Workflow",
    ];
    assert(names(list@) =~= limit_action_type_names());
    list
}

pub open spec fn limit_trigger_type_names() -> Seq<Seq<char>> {
    seq!["ApiConnection"@, "ApiConnectionWebhook"@, "Http"@, "HttpWebhook"@]
}

fn limit_trigger_type_list() -> (list: Vec<&'static str>)
    ensures
        names(list@) == limit_trigger_type_names(),
{
    let list = vec!["ApiConnection", "ApiConnectionWebhook", "Http", "HttpWebhook"];
    assert(names(list@) =~= limit_trigger_type_names());
    list
}

/// What is wrong with the length of a description.
pub open spec fn description_length_findings(
    value: &Node,
    pointer: Seq<char>,
    label: Seq<char>,
    file: &Document,
) -> Seq<Finding> {
    match authored(file, value, "description"@) {
        Some(description) => match text_of(&description) {
            Some(text) => if text.len() > 256 {
                wrong_value(
                    file,
                    pointer,
                    "description"@,
                    description.span,
                    label + " description exceeds the 256 character limit"@,
                )
            } else {
                Seq::empty()
            },
            None => Seq::empty(),
        },
        None => Seq::empty(),
    }
}

/// Validate the length of a description, at most 256 characters.
pub fn validate_optional_description_length(
    value: &Node,
    pointer: &str,
    label: &str,
    file: &Document,
    diagnostics: &mut Vec<Diagnostic>,
)
    ensures
        findings(final(diagnostics)@) == findings(old(diagnostics)@)
            + description_length_findings(value, pointer@, label@, file),
{
    if let Some(description) = get_authored(file, value, "description") {
        if let Some(text) = as_string(description) {
            if chars_of(text).len() > 256 {
                let message = text2(label, " description exceeds the 256 character limit");
                report_value(
                    file,
                    pointer,
                    "description",
                    description.span,
                    message.as_str(),
                    diagnostics,
                );
            }
        }
    }
}

/// The JSON text of a node is longer than 8000 characters.
pub open spec fn is_oversized(value: &Node) -> bool {
    match json_text(*value) {
        Some(text) => text.len() > 8000,
        None => false,
    }
}

/// The JSON text of a node, where it has one, is longer than 8000 characters.
pub fn text_is_oversized(text: &Option<String>) -> (holds: bool)
    ensures
        holds == (match text {
            Some(json) => json@.len() > 8000,
            None => false,
        }),
{
    match text {
        Some(json) => chars_of(json.as_str()).len() > 8000,
        None => false,
    }
}

/// What is wrong with `trackedProperties`.
pub open spec fn tracked_properties_findings(
    value: &Node,
    pointer: Seq<char>,
    label: Seq<char>,
    file: &Document,
) -> Seq<Finding> {
    match checked(file, value, "trackedProperties"@) {
        Some(properties) => if properties.kind is Object {
            let tracked_pointer = joined(pointer, "trackedProperties"@);
            (if is_oversized(&properties) {
                issue(
                    file,
                    "workflow-shape-invalid-value"@,
                    tracked_pointer,
                    Some(properties.span),
                    label + " trackedProperties exceeds the 8000 character limit"@,
                )
            } else {
                Seq::empty()
            }) + (if label == "action"@ && is_chunked(value, file) {
                chunked_findings(&properties, tracked_pointer, file)
            } else {
                Seq::empty()
            })
        } else {
            wrong_type(
                file,
                pointer,
                "trackedProperties"@,
                properties.span,
                label + " trackedProperties must be an object"@,
            )
        },
        None => Seq::empty(),
    }
}

/// Validate `trackedProperties`: an object of at most 8000 characters, which in
/// a chunked action reads no output that is left out.
fn validate_tracked_properties(
    value: &Node,
    pointer: &str,
    label: &str,
    file: &Document,
    diagnostics: &mut Vec<Diagnostic>,
)
    ensures
        findings(final(diagnostics)@) == findings(old(diagnostics)@)
            + tracked_properties_findings(value, pointer@, label@, file),
{
    if let Some(properties) = get_checked(file, value, "trackedProperties") {
        if properties.is_object() {
            let tracked_pointer_text = pointer_join(pointer, "trackedProperties");
            let tracked_pointer = tracked_pointer_text.as_str();
            if text_is_oversized(&compact_json(properties)) {
                let message = text2(label, " trackedProperties exceeds the 8000 character limit");
                report(
                    file,
                    "workflow-shape-invalid-value",
                    tracked_pointer,
                    Some(properties.span),
                    message.as_str(),
                    diagnostics,
                );
            }
            if text_eq(label, "action") && action_uses_chunked_transfer(value, file) {
                validate_chunked_tracked_properties(properties, tracked_pointer, file, diagnostics);
            }
        } else {
            let message = text2(label, " trackedProperties must be an object");
            report_type(
                file,
                pointer,
                "trackedProperties",
                properties.span,
                message.as_str(),
                diagnostics,
            );
        }
    }
}

/// What is wrong with `trackedProperties` on a trigger.
pub open spec fn trigger_tracking_findings(
    value: &Node,
    pointer: Seq<char>,
    label: Seq<char>,
    file: &Document,
) -> Seq<Finding> {
    if label == "trigger"@ {
        match present(file, value, "trackedProperties"@) {
            Some(properties) => wrong_context(
                file,
                pointer,
                "trackedProperties"@,
                properties.span,
                "trigger trackedProperties is only supported on actions"@,
            ),
            None => Seq::empty(),
        }
    } else {
        Seq::empty()
    }
}

/// Validate `trackedProperties` on a trigger, which does not support it.
fn validate_trigger_tracking(
    value: &Node,
    pointer: &str,
    label: &str,
    file: &Document,
    diagnostics: &mut Vec<Diagnostic>,
)
    ensures
        findings(final(diagnostics)@) == findings(old(diagnostics)@)
            + trigger_tracking_findings(value, pointer@, label@, file),
{
    if text_eq(label, "trigger") {
        if let Some(properties) = get_present(file, value, "trackedProperties") {
            report_context(
                file,
                pointer,
                "trackedProperties",
                properties.span,
                "trigger trackedProperties is only supported on actions",
                diagnostics,
            );
        }
    }
}

/// What is wrong with `trackedProperties` on an action with masked data.
pub open spec fn secure_tracking_findings(
    value: &Node,
    pointer: Seq<char>,
    label: Seq<char>,
    file: &Document,
) -> Seq<Finding> {
    if label == "action"@ && has_secure_data(file, value) {
        match present(file, value, "trackedProperties"@) {
            Some(properties) => wrong_context(
                file,
                pointer,
                "trackedProperties"@,
                properties.span,
                label + " trackedProperties cannot be used with secure inputs or outputs"@,
            ),
            None => Seq::empty(),
        }
    } else {
        Seq::empty()
    }
}

/// Validate `trackedProperties` on an action with masked data, which it would reveal.
fn validate_secure_tracking(
    value: &Node,
    pointer: &str,
    label: &str,
    file: &Document,
    diagnostics: &mut Vec<Diagnostic>,
)
    ensures
        findings(final(diagnostics)@) == findings(old(diagnostics)@)
            + secure_tracking_findings(value, pointer@, label@, file),
{
    if text_eq(label, "action") && operation_has_secure_data(file, value) {
        if let Some(properties) = get_present(file, value, "trackedProperties") {
            let message = text2(
                label,
                " trackedProperties cannot be used with secure inputs or outputs",
            );
            report_context(
                file,
                pointer,
                "trackedProperties",
                properties.span,
                message.as_str(),
                diagnostics,
            );
        }
    }
}

/// The kind of a node is one that its label and type allow.
pub open spec fn is_kind_supported(value: &Node, label: Seq<char>, kind: Seq<char>) -> bool {
    one_of(kind, common_kind_names())
        || (
            label == "action"@ && kind == "http"@ && text_field(value, "type"@) == Some("Response"@)
        )
}

fn common_kind_supported(value: &Node, label: &str, kind: &str) -> (holds: bool)
    ensures
        holds == is_kind_supported(value, label@, kind@),
{
    in_list(kind, common_kind_list().as_slice())
        || (text_eq(label, "action") && text_eq(kind, "http") && match get_string(value, "type") {
        Some(text) => text_eq(text, "Response"),
        None => false,
    })
}

/// What is wrong with the `kind` of a node.
pub open spec fn node_kind_findings(
    value: &Node,
    pointer: Seq<char>,
    label: Seq<char>,
    file: &Document,
) -> Seq<Finding> {
    match checked(file, value, "kind"@) {
        Some(kind) => match text_of(&kind) {
            Some(text) => if is_kind_supported(value, label, text) {
                Seq::empty()
            } else {
                wrong_value(
                    file,
                    pointer,
                    "kind"@,
                    kind.span,
                    label + " kind '"@ + text + "' is not supported"@,
                )
            },
            None => wrong_type(
                file,
                pointer,
                "kind"@,
                kind.span,
                label + " kind must be a string"@,
            ),
        },
        None => Seq::empty(),
    }
}

/// Validate the `kind` of a node.
fn validate_node_kind(
    value: &Node,
    pointer: &str,
    label: &str,
    file: &Document,
    diagnostics: &mut Vec<Diagnostic>,
)
    ensures
        findings(final(diagnostics)@) == findings(old(diagnostics)@)
            + node_kind_findings(value, pointer@, label@, file),
{
    if let Some(kind) = get_checked(file, value, "kind") {
        match as_string(kind) {
            Some(text) => {
                if !common_kind_supported(value, label, text) {
                    let message = text4(label, " kind '", text, "' is not supported");
                    report_value(file, pointer, "kind", kind.span, message.as_str(), diagnostics);
                }
            },
            None => {
                let message = text2(label, " kind must be a string");
                report_type(file, pointer, "kind", kind.span, message.as_str(), diagnostics);
            },
        }
    }
}

/// A timeout that is not flagged for its shape.
pub open spec fn is_timeout_shaped(file: &Document, timeout: &Node) -> bool {
    is_opaque(file, timeout)
        || (text_of(timeout) is Some && may_be_duration(text_of(timeout)->Some_0))
}

fn timeout_is_shaped(file: &Document, timeout: &Node) -> (holds: bool)
    ensures
        holds == is_timeout_shaped(file, timeout),
{
    is_opaque_arm_expression(file, timeout) || match as_string(timeout) {
        Some(text) => wdl_string_may_be_iso8601_duration(text),
        None => false,
    }
}

/// What is wrong with the timeout of a limit, and the types that respect one.
pub open spec fn limit_timeout_findings(
    value: &Node,
    limit: &Node,
    limit_pointer: Seq<char>,
    label: Seq<char>,
    file: &Document,
) -> Seq<Finding> {
    match present(file, limit, "timeout"@) {
        Some(timeout) => if is_timeout_shaped(file, &timeout) {
            if label == "action"@ && !type_is_one_of(value, limit_action_type_names()) {
                wrong_context(
                    file,
                    limit_pointer,
                    "timeout"@,
                    timeout.span,
                    "action limit.timeout is only supported on ApiConnection, ApiConnectionWebhook, Http, HttpWebhook, Until, and Workflow actions"@,
                )
            } else {
                if label == "trigger"@ && !type_is_one_of(value, limit_trigger_type_names()) {
                    wrong_context(
                        file,
                        limit_pointer,
                        "timeout"@,
                        timeout.span,
                        "trigger limit.timeout is only supported on ApiConnection, ApiConnectionWebhook, Http, and HttpWebhook triggers"@,
                    )
                } else {
                    Seq::empty()
                }
            }
        } else {
            if timeout.kind is String {
                wrong_value(
                    file,
                    limit_pointer,
                    "timeout"@,
                    timeout.span,
                    label + " limit.timeout must be an ISO 8601 duration"@,
                )
            } else {
                wrong_type(
                    file,
                    limit_pointer,
                    "timeout"@,
                    timeout.span,
                    label + " limit.timeout must be a string"@,
                )
            }
        },
        None => Seq::empty(),
    }
}

/// Validate the timeout of a limit, and the types that respect one.
fn validate_limit_timeout(
    value: &Node,
    limit: &Node,
    limit_pointer: &str,
    label: &str,
    file: &Document,
    diagnostics: &mut Vec<Diagnostic>,
)
    ensures
        findings(final(diagnostics)@) == findings(old(diagnostics)@)
            + limit_timeout_findings(value, limit, limit_pointer@, label@, file),
{
    if let Some(timeout) = get_present(file, limit, "timeout") {
        if timeout_is_shaped(file, timeout) {
            if text_eq(label, "action")
                && !node_type_is_one_of(value, limit_action_type_list().as_slice()) {
                report_context(
                    file,
                    limit_pointer,
                    "timeout",
                    timeout.span,
                    "action limit.timeout is only supported on ApiConnection, ApiConnectionWebhook, Http, HttpWebhook, Until, and Workflow actions",
                    diagnostics,
                );
            } else {
                if text_eq(label, "trigger")
                    && !node_type_is_one_of(value, limit_trigger_type_list().as_slice()) {
                    report_context(
                        file,
                        limit_pointer,
                        "timeout",
                        timeout.span,
                        "trigger limit.timeout is only supported on ApiConnection, ApiConnectionWebhook, Http, and HttpWebhook triggers",
                        diagnostics,
                    );
                }
            }
        } else {
            if timeout.is_string() {
                let message = text2(label, " limit.timeout must be an ISO 8601 duration");
                report_value(
                    file,
                    limit_pointer,
                    "timeout",
                    timeout.span,
                    message.as_str(),
                    diagnostics,
                );
            } else {
                let message = text2(label, " limit.timeout must be a string");
                report_type(
                    file,
                    limit_pointer,
                    "timeout",
                    timeout.span,
                    message.as_str(),
                    diagnostics,
                );
            }
        }
    }
}

/// What is wrong with the `limit` of a node.
pub open spec fn common_limit_findings(
    value: &Node,
    pointer: Seq<char>,
    label: Seq<char>,
    file: &Document,
) -> Seq<Finding> {
    match checked(file, value, "limit"@) {
        Some(limit) => if limit.kind is Object {
            limit_timeout_findings(value, &limit, joined(pointer, "limit"@), label, file)
        } else {
            wrong_type(file, pointer, "limit"@, limit.span, label + " limit must be an object"@)
        },
        None => Seq::empty(),
    }
}

/// Validate the `limit` of a node.
pub fn validate_common_limit(
    value: &Node,
    pointer: &str,
    label: &str,
    file: &Document,
    diagnostics: &mut Vec<Diagnostic>,
)
    ensures
        findings(final(diagnostics)@) == findings(old(diagnostics)@)
            + common_limit_findings(value, pointer@, label@, file),
{
    if let Some(limit) = get_checked(file, value, "limit") {
        if limit.is_object() {
            let limit_pointer = pointer_join(pointer, "limit");
            validate_limit_timeout(value, limit, limit_pointer.as_str(), label, file, diagnostics);
        } else {
            let message = text2(label, " limit must be an object");
            report_type(file, pointer, "limit", limit.span, message.as_str(), diagnostics);
        }
    }
}

/// What is wrong with the fields that every action and trigger of a known type shares.
pub open spec fn common_findings(
    value: &Node,
    pointer: Seq<char>,
    label: Seq<char>,
    file: &Document,
    workflow: &Workflow,
    scope: &ArmScope,
) -> Seq<Finding> {
    string_findings(value, pointer, "description"@, label + " description"@, file)
        + description_length_findings(value, pointer, label, file)
        + string_findings(value, pointer, "operationOptions"@, label + " operationOptions"@, file)
        + object_findings(
            value,
            pointer,
            "runtimeConfiguration"@,
            label + " runtimeConfiguration"@,
            file,
        )
        + options_findings(value, pointer, label, file, workflow)
        + runtime_findings(value, true, pointer, label, file, workflow, scope)
        + option_conflict_findings(value, pointer, label, file)
        + common_limit_findings(value, pointer, label, file)
        + tracked_properties_findings(value, pointer, label, file)
        + trigger_tracking_findings(value, pointer, label, file)
        + secure_tracking_findings(value, pointer, label, file)
        + node_kind_findings(value, pointer, label, file)
}

/// Validate the fields that every action and trigger of a known type shares.
pub fn validate_common_fields(
    value: &Node,
    pointer: &str,
    label: &str,
    file: &Document,
    workflow: &Workflow,
    scope: &ArmScope,
    diagnostics: &mut Vec<Diagnostic>,
)
    ensures
        findings(final(diagnostics)@) == findings(old(diagnostics)@)
            + common_findings(value, pointer@, label@, file, workflow, scope),
{
    {
        let label = text2(label, " description");
        validate_optional_string_field(
            value,
            pointer,
            "description",
            label.as_str(),
            file,
            diagnostics,
        );
    }
    validate_optional_description_length(value, pointer, label, file, diagnostics);
    {
        let label = text2(label, " operationOptions");
        validate_optional_string_field(
            value,
            pointer,
            "operationOptions",
            label.as_str(),
            file,
            diagnostics,
        );
    }
    {
        let label = text2(label, " runtimeConfiguration");
        validate_optional_object_field(
            value,
            pointer,
            "runtimeConfiguration",
            label.as_str(),
            file,
            diagnostics,
        );
    }
    validate_operation_options_values(value, pointer, label, file, workflow, diagnostics);
    validate_runtime_configuration(value, pointer, label, file, workflow, scope, diagnostics);
    validate_operation_options_conflicts(value, pointer, label, file, diagnostics);
    validate_common_limit(value, pointer, label, file, diagnostics);
    validate_tracked_properties(value, pointer, label, file, diagnostics);
    validate_trigger_tracking(value, pointer, label, file, diagnostics);
    validate_secure_tracking(value, pointer, label, file, diagnostics);
    validate_node_kind(value, pointer, label, file, diagnostics);
}

/// What is wrong with the fields that every action and trigger shares whatever its type.
pub open spec fn untyped_common_findings(
    value: &Node,
    pointer: Seq<char>,
    label: Seq<char>,
    file: &Document,
    workflow: &Workflow,
    scope: &ArmScope,
) -> Seq<Finding> {
    string_findings(value, pointer, "description"@, label + " description"@, file)
        + description_length_findings(value, pointer, label, file)
        + string_findings(value, pointer, "operationOptions"@, label + " operationOptions"@, file)
        + unknown_options_findings(value, pointer, label, file)
        + object_findings(
            value,
            pointer,
            "runtimeConfiguration"@,
            label + " runtimeConfiguration"@,
            file,
        )
        + runtime_findings(value, false, pointer, label, file, workflow, scope)
        + tracked_properties_findings(value, pointer, label, file)
        + trigger_tracking_findings(value, pointer, label, file)
}

/// Validate the fields that every action and trigger shares whatever its type.
pub fn validate_type_independent_common_fields(
    value: &Node,
    pointer: &str,
    label: &str,
    file: &Document,
    workflow: &Workflow,
    scope: &ArmScope,
    diagnostics: &mut Vec<Diagnostic>,
)
    ensures
        findings(final(diagnostics)@) == findings(old(diagnostics)@)
            + untyped_common_findings(value, pointer@, label@, file, workflow, scope),
{
    {
        let label = text2(label, " description");
        validate_optional_string_field(
            value,
            pointer,
            "description",
            label.as_str(),
            file,
            diagnostics,
        );
    }
    validate_optional_description_length(value, pointer, label, file, diagnostics);
    {
        let label = text2(label, " operationOptions");
        validate_optional_string_field(
            value,
            pointer,
            "operationOptions",
            label.as_str(),
            file,
            diagnostics,
        );
    }
    validate_operation_options_literal_values(value, pointer, label, file, diagnostics);
    {
        let label = text2(label, " runtimeConfiguration");
        validate_optional_object_field(
            value,
            pointer,
            "runtimeConfiguration",
            label.as_str(),
            file,
            diagnostics,
        );
    }
    validate_runtime_configuration_for_dynamic_type(
        value,
        pointer,
        label,
        file,
        workflow,
        scope,
        diagnostics,
    );
    validate_tracked_properties(value, pointer, label, file, diagnostics);
    validate_trigger_tracking(value, pointer, label, file, diagnostics);
}
} // verus!
