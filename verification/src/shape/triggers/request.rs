//! Shape validator for the `Request` trigger.

use vstd::prelude::*;

use crate::diagnostic::{findings, Diagnostic, Finding};
use crate::json::{as_string, joined, pointer_join, text_of, Document, Node};
use crate::shape::arm_boundary::{
    authored, checked, get_authored, get_checked, keep_unskipped, node_in, unskipped,
};
use crate::shape::field_validators::{
    enum_findings, object_findings, string_findings, validate_optional_object_field,
    validate_optional_string_enum, validate_optional_string_field,
};
use crate::shape::http::{request_method_names, request_method_list};
use crate::shape::http_uri::{uri_findings, validate_uri};
use crate::shape::report::{report_type, report_value, wrong_type, wrong_value};
use crate::text::{in_list, names, one_of, text3};
use crate::shape::common::{common_kind_list, common_kind_names};

verus! {

broadcast use crate::diagnostic::group_findings;

pub open spec fn request_kind_names() -> Seq<Seq<char>> {
    seq![
        "Alert"@,
        "AzureMonitorAlert"@,
        "Button"@,
        "EventGrid"@,
        "Geofence"@,
        "Http"@,
        "PowerApp"@,
        "SecurityCenterAlert"@,
    ]
}

fn request_kind_list() -> (list: Vec<&'static str>)
    ensures
        names(list@) == request_kind_names(),
{
    let list = vec![
        "Alert",
        "AzureMonitorAlert",
        "Button",
        "EventGrid",
        "Geofence",
        "Http",
        "PowerApp",
        "SecurityCenterAlert",
    ];
    assert(names(list@) =~= request_kind_names());
    list
}

/// What is wrong with the `kind` of a Request trigger, where it is a kind at all.
pub open spec fn request_kind_findings(
    trigger: &Node,
    trigger_pointer: Seq<char>,
    file: &Document,
) -> Seq<Finding> {
    match authored(file, trigger, "kind"@) {
        Some(kind) => match text_of(&kind) {
            Some(text) => if one_of(text, common_kind_names())
                && !one_of(text, request_kind_names()) {
                wrong_value(
                    file,
                    trigger_pointer,
                    "kind"@,
                    kind.span,
                    "Request trigger kind '"@ + text + "' is not supported"@,
                )
            } else {
                Seq::empty()
            },
            None => Seq::empty(),
        },
        None => Seq::empty(),
    }
}

/// Validate the `kind` of a Request trigger, where it is a kind at all.
fn validate_request_kind(
    trigger: &Node,
    trigger_pointer: &str,
    file: &Document,
    diagnostics: &mut Vec<Diagnostic>,
)
    ensures
        findings(final(diagnostics)@) == findings(old(diagnostics)@)
            + request_kind_findings(trigger, trigger_pointer@, file),
{
    if let Some(kind) = get_authored(file, trigger, "kind") {
        if let Some(text) = as_string(kind) {
            if in_list(text, common_kind_list().as_slice())
                && !in_list(text, request_kind_list().as_slice()) {
                let message = text3("Request trigger kind '", text, "' is not supported");
                report_value(
                    file,
                    trigger_pointer,
                    "kind",
                    kind.span,
                    message.as_str(),
                    diagnostics,
                );
            }
        }
    }
}

/// What is wrong with the API binding of a Request trigger.
pub open spec fn request_host_findings(
    inputs: &Node,
    inputs_pointer: Seq<char>,
    file: &Document,
) -> Seq<Finding> {
    match checked(file, inputs, "host"@) {
        Some(host) => if host.kind is Object {
            let host_pointer = joined(inputs_pointer, "host"@);
            match checked(file, &host, "api"@) {
                Some(api) => if api.kind is Object {
                    let api_pointer = joined(host_pointer, "api"@);
                    string_findings(
                        &api,
                        api_pointer,
                        "runtimeUrl"@,
                        "Request trigger inputs.host.api.runtimeUrl"@,
                        file,
                    )
                        + uri_findings(
                            &api,
                            api_pointer,
                            "runtimeUrl"@,
                            "Request trigger inputs.host.api.runtimeUrl"@,
                            file,
                        )
                } else {
                    wrong_type(
                        file,
                        host_pointer,
                        "api"@,
                        api.span,
                        "Request trigger inputs.host.api must be an object"@,
                    )
                },
                None => Seq::empty(),
            }
        } else {
            Seq::empty()
        },
        None => Seq::empty(),
    }
}

/// Validate the API binding of a Request trigger.
fn validate_request_host_api(
    inputs: &Node,
    inputs_pointer: &str,
    file: &Document,
    diagnostics: &mut Vec<Diagnostic>,
)
    ensures
        findings(final(diagnostics)@) == findings(old(diagnostics)@)
            + request_host_findings(inputs, inputs_pointer@, file),
{
    if let Some(host) = get_checked(file, inputs, "host") {
        if host.is_object() {
            let host_pointer_text = pointer_join(inputs_pointer, "host");
            let host_pointer = host_pointer_text.as_str();
            if let Some(api) = get_checked(file, host, "api") {
                if api.is_object() {
                    let api_pointer_text = pointer_join(host_pointer, "api");
                    let api_pointer = api_pointer_text.as_str();
                    validate_optional_string_field(
                        api,
                        api_pointer,
                        "runtimeUrl",
                        "Request trigger inputs.host.api.runtimeUrl",
                        file,
                        diagnostics,
                    );
                    validate_uri(
                        api,
                        api_pointer,
                        "runtimeUrl",
                        "Request trigger inputs.host.api.runtimeUrl",
                        file,
                        diagnostics,
                    );
                } else {
                    report_type(
                        file,
                        host_pointer,
                        "api",
                        api.span,
                        "Request trigger inputs.host.api must be an object",
                        diagnostics,
                    );
                }
            }
        }
    }
}

/// What is wrong with a `Request` trigger.
pub open spec fn request_trigger_findings(
    trigger: &Node,
    given: Option<Node>,
    trigger_pointer: Seq<char>,
    file: &Document,
) -> Seq<Finding> {
    request_kind_findings(trigger, trigger_pointer, file) + (match unskipped(file, given) {
        Some(inputs) => if inputs.kind is Object {
            let inputs_pointer = joined(trigger_pointer, "inputs"@);
            enum_findings(
                &inputs,
                inputs_pointer,
                "method"@,
                "Request trigger inputs.method"@,
                request_method_names(),
                file,
            )
                + object_findings(
                    &inputs,
                    inputs_pointer,
                    "host"@,
                    "Request trigger inputs.host"@,
                    file,
                )
                + request_host_findings(&inputs, inputs_pointer, file)
                + string_findings(
                    &inputs,
                    inputs_pointer,
                    "operationId"@,
                    "Request trigger inputs.operationId"@,
                    file,
                )
                + object_findings(
                    &inputs,
                    inputs_pointer,
                    "parameters"@,
                    "Request trigger inputs.parameters"@,
                    file,
                )
                + string_findings(
                    &inputs,
                    inputs_pointer,
                    "relativePath"@,
                    "Request trigger inputs.relativePath"@,
                    file,
                )
        } else {
            wrong_type(
                file,
                trigger_pointer,
                "inputs"@,
                inputs.span,
                "trigger field 'inputs' must be an object"@,
            )
        },
        None => Seq::empty(),
    })
}

/// Validate a `Request` trigger.
pub fn validate_request_trigger(
    trigger: &Node,
    given: Option<&Node>,
    trigger_pointer: &str,
    file: &Document,
    diagnostics: &mut Vec<Diagnostic>,
)
    ensures
        findings(final(diagnostics)@) == findings(old(diagnostics)@)
            + request_trigger_findings(trigger, node_in(given), trigger_pointer@, file),
{
    validate_request_kind(trigger, trigger_pointer, file, diagnostics);
    if let Some(inputs) = keep_unskipped(file, given) {
        if inputs.is_object() {
            let inputs_pointer_text = pointer_join(trigger_pointer, "inputs");
            let inputs_pointer = inputs_pointer_text.as_str();
            validate_optional_string_enum(
                inputs,
                inputs_pointer,
                "method",
                "Request trigger inputs.method",
                request_method_list().as_slice(),
                file,
                diagnostics,
            );
            validate_optional_object_field(
                inputs,
                inputs_pointer,
                "host",
                "Request trigger inputs.host",
                file,
                diagnostics,
            );
            validate_request_host_api(inputs, inputs_pointer, file, diagnostics);
            validate_optional_string_field(
                inputs,
                inputs_pointer,
                "operationId",
                "Request trigger inputs.operationId",
                file,
                diagnostics,
            );
            validate_optional_object_field(
                inputs,
                inputs_pointer,
                "parameters",
                "Request trigger inputs.parameters",
                file,
                diagnostics,
            );
            validate_optional_string_field(
                inputs,
                inputs_pointer,
                "relativePath",
                "Request trigger inputs.relativePath",
                file,
                diagnostics,
            );
        } else {
            report_type(
                file,
                trigger_pointer,
                "inputs",
                inputs.span,
                "trigger field 'inputs' must be an object",
                diagnostics,
            );
        }
    }
}
} // verus!
