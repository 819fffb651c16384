//! Shape validators for the HTTP and connector triggers: `Http`, `SlidingWindow`,
//! `HttpWebhook`, `ApiConnection`, `ApiConnectionWebhook` and `ApiManagement`.

use vstd::prelude::*;

use crate::diagnostic::{findings, Diagnostic, Finding};
use crate::json::{as_string, joined, pointer_join, text_of, Document, Node};
use crate::shape::actions::connectors::{
    access_key_type_list, access_key_type_names, api_connection_host_findings,
    validate_api_connection_host,
};
use crate::shape::arm_boundary::{
    authored, checked, get_authored, get_checked, get_present, keep_unskipped, node_in, present,
    unskipped,
};
use crate::shape::dynamic_wdl::{may_be_duration, wdl_string_may_be_iso8601_duration};
use crate::shape::field_validators::{
    caseless_enum_findings, enum_findings, string_findings, validate_optional_string_enum,
    validate_optional_string_enum_ignore_case, validate_optional_string_field,
};
use crate::shape::http::{
    api_management_findings, bounds_of, endpoint_method_list, endpoint_method_names,
    http_inputs_findings, request_method_list, request_method_names,
    validate_api_management_inputs, validate_http_inputs, validate_webhook_operation,
    webhook_findings, RetryPolicyIntervalBounds, WebhookOperationOptions, WebhookOperationString,
};
use crate::shape::http_uri::{endpoint_findings, validate_http_endpoint_uri};
use crate::shape::node_type::{type_is, node_type_is};
use crate::shape::report::{
    missing, report_context, report_missing, report_type, report_value, wrong_context, wrong_type,
    wrong_value,
};
use crate::shape::required_fields::{
    field_findings, inputs_object, object_field_findings, require_field, require_object_field,
    require_typed_field, required_trigger_inputs_object, trigger_inputs_findings,
    typed_field_findings, Shape,
};
use crate::shape::triggers::recurrence::{recurrence_findings, validate_recurrence_trigger};
use crate::text::text2;
use crate::workflow::Workflow;

verus! {

broadcast use crate::diagnostic::group_findings;

/// What is wrong with an `Http` trigger.
pub open spec fn http_trigger_findings(
    trigger: &Node,
    given: Option<Node>,
    recurrence: Option<Node>,
    trigger_pointer: Seq<char>,
    file: &Document,
) -> Seq<Finding> {
    recurrence_findings(trigger, recurrence, trigger_pointer, file)
        + trigger_inputs_findings(trigger, given, trigger_pointer, file)
        + match inputs_object(given, file) {
        Some(inputs) => {
            let inputs_pointer = joined(trigger_pointer, "inputs"@);
            typed_field_findings(
                &inputs,
                inputs_pointer,
                "method"@,
                "Http trigger inputs.method must be a string"@,
                Shape::Text,
                file,
            )
                + typed_field_findings(
                    &inputs,
                    inputs_pointer,
                    "uri"@,
                    "Http trigger inputs.uri must be a string"@,
                    Shape::Text,
                    file,
                )
                + endpoint_findings(
                    &inputs,
                    inputs_pointer,
                    "uri"@,
                    "Http trigger inputs.uri"@,
                    file,
                )
                + enum_findings(
                    &inputs,
                    inputs_pointer,
                    "method"@,
                    "Http trigger inputs.method"@,
                    request_method_names(),
                    file,
                )
                + http_inputs_findings(
                    &inputs,
                    inputs_pointer,
                    "Http trigger inputs"@,
                    RetryPolicyIntervalBounds::Stateful,
                    file,
                )
        },
        None => Seq::empty(),
    }
}

/// Validate an `Http` polling trigger, which runs in stateful hosts only.
pub fn validate_http_trigger(
    trigger: &Node,
    given: Option<&Node>,
    recurrence: Option<&Node>,
    trigger_pointer: &str,
    file: &Document,
    diagnostics: &mut Vec<Diagnostic>,
)
    ensures
        findings(final(diagnostics)@) == findings(old(diagnostics)@)
            + http_trigger_findings(
                trigger,
                node_in(given),
                node_in(recurrence),
                trigger_pointer@,
                file,
            ),
{
    validate_recurrence_trigger(trigger, recurrence, trigger_pointer, file, diagnostics);
    if let Some(inputs) = required_trigger_inputs_object(
        trigger,
        given,
        trigger_pointer,
        file,
        diagnostics,
    ) {
        let inputs_pointer_text = pointer_join(trigger_pointer, "inputs");
        let inputs_pointer = inputs_pointer_text.as_str();
        require_typed_field(
            inputs,
            inputs_pointer,
            "method",
            "Http trigger inputs.method must be a string",
            Shape::Text,
            file,
            diagnostics,
        );
        require_typed_field(
            inputs,
            inputs_pointer,
            "uri",
            "Http trigger inputs.uri must be a string",
            Shape::Text,
            file,
            diagnostics,
        );
        validate_http_endpoint_uri(
            inputs,
            inputs_pointer,
            "uri",
            "Http trigger inputs.uri",
            file,
            diagnostics,
        );
        validate_optional_string_enum(
            inputs,
            inputs_pointer,
            "method",
            "Http trigger inputs.method",
            request_method_list().as_slice(),
            file,
            diagnostics,
        );
        validate_http_inputs(
            inputs,
            inputs_pointer,
            "Http trigger inputs",
            RetryPolicyIntervalBounds::Stateful,
            file,
            diagnostics,
        );
    }
}

/// What is wrong with an optional duration.
pub open spec fn duration_findings(
    object: &Node,
    base: Seq<char>,
    key: Seq<char>,
    label: Seq<char>,
    file: &Document,
) -> Seq<Finding> {
    match authored(file, object, key) {
        Some(value) => match text_of(&value) {
            Some(text) => if may_be_duration(text) {
                Seq::empty()
            } else {
                wrong_value(file, base, key, value.span, label + " must be an ISO 8601 duration"@)
            },
            None => Seq::empty(),
        },
        None => Seq::empty(),
    }
}

/// Validate an optional duration.
fn validate_optional_duration_field(
    object: &Node,
    base: &str,
    key: &str,
    label: &str,
    file: &Document,
    diagnostics: &mut Vec<Diagnostic>,
)
    ensures
        findings(final(diagnostics)@) == findings(old(diagnostics)@)
            + duration_findings(object, base@, key@, label@, file),
{
    if let Some(value) = get_authored(file, object, key) {
        if let Some(text) = as_string(value) {
            if !wdl_string_may_be_iso8601_duration(text) {
                let message = text2(label, " must be an ISO 8601 duration");
                report_value(file, base, key, value.span, message.as_str(), diagnostics);
            }
        }
    }
}

/// What is wrong with a `SlidingWindow` trigger.
pub open spec fn sliding_window_trigger_findings(
    trigger: &Node,
    given: Option<Node>,
    recurrence: Option<Node>,
    trigger_pointer: Seq<char>,
    file: &Document,
) -> Seq<Finding> {
    recurrence_findings(trigger, recurrence, trigger_pointer, file)
        + (match unskipped(file, given) {
        Some(inputs) => if inputs.kind is Object {
            let inputs_pointer = joined(trigger_pointer, "inputs"@);
            string_findings(
                &inputs,
                inputs_pointer,
                "delay"@,
                "SlidingWindow trigger inputs.delay"@,
                file,
            )
                + duration_findings(
                    &inputs,
                    inputs_pointer,
                    "delay"@,
                    "SlidingWindow trigger inputs.delay"@,
                    file,
                )
        } else {
            wrong_type(
                file,
                trigger_pointer,
                "inputs"@,
                inputs.span,
                "SlidingWindow trigger inputs must be an object"@,
            )
        },
        None => Seq::empty(),
    })
}

/// Validate a `SlidingWindow` trigger.
pub fn validate_sliding_window_trigger(
    trigger: &Node,
    given: Option<&Node>,
    recurrence: Option<&Node>,
    trigger_pointer: &str,
    file: &Document,
    diagnostics: &mut Vec<Diagnostic>,
)
    ensures
        findings(final(diagnostics)@) == findings(old(diagnostics)@)
            + sliding_window_trigger_findings(
                trigger,
                node_in(given),
                node_in(recurrence),
                trigger_pointer@,
                file,
            ),
{
    validate_recurrence_trigger(trigger, recurrence, trigger_pointer, file, diagnostics);
    if let Some(inputs) = keep_unskipped(file, given) {
        if inputs.is_object() {
            let inputs_pointer_text = pointer_join(trigger_pointer, "inputs");
            let inputs_pointer = inputs_pointer_text.as_str();
            validate_optional_string_field(
                inputs,
                inputs_pointer,
                "delay",
                "SlidingWindow trigger inputs.delay",
                file,
                diagnostics,
            );
            validate_optional_duration_field(
                inputs,
                inputs_pointer,
                "delay",
                "SlidingWindow trigger inputs.delay",
                file,
                diagnostics,
            );
        } else {
            report_type(
                file,
                trigger_pointer,
                "inputs",
                inputs.span,
                "SlidingWindow trigger inputs must be an object",
                diagnostics,
            );
        }
    }
}

/// What is wrong with an `HttpWebhook` trigger.
pub open spec fn http_webhook_trigger_findings(
    trigger: &Node,
    given: Option<Node>,
    trigger_pointer: Seq<char>,
    file: &Document,
    workflow: &Workflow,
) -> Seq<Finding> {
    trigger_inputs_findings(trigger, given, trigger_pointer, file)
        + match inputs_object(given, file) {
        Some(inputs) => {
            let inputs_pointer = joined(trigger_pointer, "inputs"@);
            enum_findings(
                &inputs,
                inputs_pointer,
                "accessKeyType"@,
                "HttpWebhook inputs.accessKeyType"@,
                access_key_type_names(),
                file,
            )
                + webhook_findings(
                    &inputs,
                    inputs_pointer,
                    "subscribe"@,
                    true,
                    (
                        WebhookOperationOptions { string_operation: WebhookOperationString::Allow, retry_bounds: bounds_of(
                            workflow,
                        ) }
                    ),
                    file,
                )
                + webhook_findings(
                    &inputs,
                    inputs_pointer,
                    "unsubscribe"@,
                    false,
                    (
                        WebhookOperationOptions { string_operation: WebhookOperationString::Allow, retry_bounds: bounds_of(
                            workflow,
                        ) }
                    ),
                    file,
                )
        },
        None => Seq::empty(),
    }
}

/// Validate an `HttpWebhook` trigger.
pub fn validate_http_webhook_trigger(
    trigger: &Node,
    given: Option<&Node>,
    trigger_pointer: &str,
    file: &Document,
    workflow: &Workflow,
    diagnostics: &mut Vec<Diagnostic>,
)
    ensures
        findings(final(diagnostics)@) == findings(old(diagnostics)@)
            + http_webhook_trigger_findings(
                trigger,
                node_in(given),
                trigger_pointer@,
                file,
                workflow,
            ),
{
    if let Some(inputs) = required_trigger_inputs_object(
        trigger,
        given,
        trigger_pointer,
        file,
        diagnostics,
    ) {
        let inputs_pointer_text = pointer_join(trigger_pointer, "inputs");
        let inputs_pointer = inputs_pointer_text.as_str();
        validate_optional_string_enum(
            inputs,
            inputs_pointer,
            "accessKeyType",
            "HttpWebhook inputs.accessKeyType",
            access_key_type_list().as_slice(),
            file,
            diagnostics,
        );
        validate_webhook_operation(
            inputs,
            inputs_pointer,
            "subscribe",
            true,
            WebhookOperationOptions { string_operation: WebhookOperationString::Allow, retry_bounds: RetryPolicyIntervalBounds::for_workflow(
                workflow,
            ) },
            file,
            diagnostics,
        );
        validate_webhook_operation(
            inputs,
            inputs_pointer,
            "unsubscribe",
            false,
            WebhookOperationOptions { string_operation: WebhookOperationString::Allow, retry_bounds: RetryPolicyIntervalBounds::for_workflow(
                workflow,
            ) },
            file,
            diagnostics,
        );
    }
}

/// What is wrong with the schedule of a connector trigger.
pub open spec fn unsupported_schedule_findings(
    trigger: &Node,
    recurrence: Option<Node>,
    trigger_pointer: Seq<char>,
    file: &Document,
) -> Seq<Finding> {
    match recurrence {
        Some(found) => match checked(file, &found, "schedule"@) {
            Some(schedule) => {
                let recurrence_pointer = joined(trigger_pointer, "recurrence"@);
                wrong_context(
                    file,
                    recurrence_pointer,
                    "schedule"@,
                    schedule.span,
                    "ApiConnection trigger recurrence.schedule is not supported"@,
                )
            },
            None => Seq::empty(),
        },
        None => Seq::empty(),
    }
}

/// Validate the schedule of a connector trigger, which it does not support.
fn reject_api_connection_recurrence_schedule(
    trigger: &Node,
    recurrence: Option<&Node>,
    trigger_pointer: &str,
    file: &Document,
    diagnostics: &mut Vec<Diagnostic>,
)
    ensures
        findings(final(diagnostics)@) == findings(old(diagnostics)@)
            + unsupported_schedule_findings(trigger, node_in(recurrence), trigger_pointer@, file),
{
    if let Some(found) = recurrence {
        if let Some(schedule) = get_checked(file, found, "schedule") {
            let recurrence_pointer_text = pointer_join(trigger_pointer, "recurrence");
            let recurrence_pointer = recurrence_pointer_text.as_str();

            report_context(
                file,
                recurrence_pointer,
                "schedule",
                schedule.span,
                "ApiConnection trigger recurrence.schedule is not supported",
                diagnostics,
            );
        }
    }
}

/// What is wrong with the method of a connector trigger; only a webhook needs a body.
pub open spec fn connector_method_findings(
    trigger: &Node,
    inputs: &Node,
    inputs_pointer: Seq<char>,
    file: &Document,
) -> Seq<Finding> {
    if type_is(trigger, "ApiConnection"@) {
        (if present(file, inputs, "method"@) is None {
            missing(
                file,
                inputs_pointer,
                "method"@,
                inputs.span,
                "object is missing required field 'method'"@,
            )
        } else {
            Seq::empty()
        }) + caseless_enum_findings(
            inputs,
            inputs_pointer,
            "method"@,
            "ApiConnection trigger inputs.method"@,
            endpoint_method_names(),
            file,
        )
    } else {
        caseless_enum_findings(
            inputs,
            inputs_pointer,
            "method"@,
            "ApiConnection trigger inputs.method"@,
            request_method_names(),
            file,
        )
            + field_findings(inputs, inputs_pointer, "body"@, file)
    }
}

/// Validate the method of a connector trigger; only a webhook needs a body.
fn validate_connector_method(
    trigger: &Node,
    inputs: &Node,
    inputs_pointer: &str,
    file: &Document,
    diagnostics: &mut Vec<Diagnostic>,
)
    ensures
        findings(final(diagnostics)@) == findings(old(diagnostics)@)
            + connector_method_findings(trigger, inputs, inputs_pointer@, file),
{
    if node_type_is(trigger, "ApiConnection") {
        if get_present(file, inputs, "method").is_none() {
            report_missing(
                file,
                inputs_pointer,
                "method",
                inputs.span,
                "object is missing required field 'method'",
                diagnostics,
            );
        }
        validate_optional_string_enum_ignore_case(
            inputs,
            inputs_pointer,
            "method",
            "ApiConnection trigger inputs.method",
            endpoint_method_list().as_slice(),
            file,
            diagnostics,
        );
    } else {
        validate_optional_string_enum_ignore_case(
            inputs,
            inputs_pointer,
            "method",
            "ApiConnection trigger inputs.method",
            request_method_list().as_slice(),
            file,
            diagnostics,
        );
        require_field(inputs, inputs_pointer, "body", file, diagnostics);
    }
}

/// What is wrong with an `ApiConnection` or `ApiConnectionWebhook` trigger.
pub open spec fn api_connection_trigger_findings(
    trigger: &Node,
    given: Option<Node>,
    recurrence: Option<Node>,
    trigger_pointer: Seq<char>,
    file: &Document,
    workflow: &Workflow,
) -> Seq<Finding> {
    trigger_inputs_findings(trigger, given, trigger_pointer, file)
        + match inputs_object(given, file) {
        Some(inputs) => {
            let inputs_pointer = joined(trigger_pointer, "inputs"@);
            object_field_findings(&inputs, inputs_pointer, "host"@, file)
                + api_connection_host_findings(&inputs, inputs_pointer, file)
                + typed_field_findings(
                    &inputs,
                    inputs_pointer,
                    "path"@,
                    "ApiConnection trigger inputs.path must be a string"@,
                    Shape::Text,
                    file,
                )
                + (if type_is(trigger, "ApiConnection"@) {
                recurrence_findings(trigger, recurrence, trigger_pointer, file)
                    + unsupported_schedule_findings(trigger, recurrence, trigger_pointer, file)
            } else {
                Seq::empty()
            }) + enum_findings(
                &inputs,
                inputs_pointer,
                "accessKeyType"@,
                "ApiConnection trigger inputs.accessKeyType"@,
                access_key_type_names(),
                file,
            ) + connector_method_findings(trigger, &inputs, inputs_pointer, file) + http_inputs_findings(
                &inputs,
                inputs_pointer,
                "ApiConnection trigger inputs"@,
                bounds_of(workflow),
                file,
            )
        },
        None => Seq::empty(),
    }
}

/// Validate an `ApiConnection` or `ApiConnectionWebhook` trigger; only the
/// polling one needs a recurrence.
pub fn validate_api_connection_trigger(
    trigger: &Node,
    given: Option<&Node>,
    recurrence: Option<&Node>,
    trigger_pointer: &str,
    file: &Document,
    workflow: &Workflow,
    diagnostics: &mut Vec<Diagnostic>,
)
    ensures
        findings(final(diagnostics)@) == findings(old(diagnostics)@)
            + api_connection_trigger_findings(
                trigger,
                node_in(given),
                node_in(recurrence),
                trigger_pointer@,
                file,
                workflow,
            ),
{
    if let Some(inputs) = required_trigger_inputs_object(
        trigger,
        given,
        trigger_pointer,
        file,
        diagnostics,
    ) {
        let inputs_pointer_text = pointer_join(trigger_pointer, "inputs");
        let inputs_pointer = inputs_pointer_text.as_str();
        require_object_field(inputs, inputs_pointer, "host", file, diagnostics);
        validate_api_connection_host(inputs, inputs_pointer, file, diagnostics);
        require_typed_field(
            inputs,
            inputs_pointer,
            "path",
            "ApiConnection trigger inputs.path must be a string",
            Shape::Text,
            file,
            diagnostics,
        );
        if node_type_is(trigger, "ApiConnection") {
            validate_recurrence_trigger(trigger, recurrence, trigger_pointer, file, diagnostics);
            reject_api_connection_recurrence_schedule(
                trigger,
                recurrence,
                trigger_pointer,
                file,
                diagnostics,
            );
        }
        validate_optional_string_enum(
            inputs,
            inputs_pointer,
            "accessKeyType",
            "ApiConnection trigger inputs.accessKeyType",
            access_key_type_list().as_slice(),
            file,
            diagnostics,
        );
        validate_connector_method(trigger, inputs, inputs_pointer, file, diagnostics);
        validate_http_inputs(
            inputs,
            inputs_pointer,
            "ApiConnection trigger inputs",
            RetryPolicyIntervalBounds::for_workflow(workflow),
            file,
            diagnostics,
        );
    }
}

/// What is wrong with an `ApiManagement` trigger.
pub open spec fn api_management_trigger_findings(
    trigger: &Node,
    given: Option<Node>,
    trigger_pointer: Seq<char>,
    file: &Document,
) -> Seq<Finding> {
    trigger_inputs_findings(trigger, given, trigger_pointer, file)
        + match inputs_object(given, file) {
        Some(inputs) => {
            let inputs_pointer = joined(trigger_pointer, "inputs"@);
            api_management_findings(
                &inputs,
                inputs_pointer,
                RetryPolicyIntervalBounds::Stateful,
                file,
            )
        },
        None => Seq::empty(),
    }
}

/// Validate an `ApiManagement` trigger, which runs in stateful hosts only.
pub fn validate_api_management_trigger(
    trigger: &Node,
    given: Option<&Node>,
    trigger_pointer: &str,
    file: &Document,
    diagnostics: &mut Vec<Diagnostic>,
)
    ensures
        findings(final(diagnostics)@) == findings(old(diagnostics)@)
            + api_management_trigger_findings(trigger, node_in(given), trigger_pointer@, file),
{
    if let Some(inputs) = required_trigger_inputs_object(
        trigger,
        given,
        trigger_pointer,
        file,
        diagnostics,
    ) {
        let inputs_pointer_text = pointer_join(trigger_pointer, "inputs");
        let inputs_pointer = inputs_pointer_text.as_str();
        validate_api_management_inputs(
            inputs,
            inputs_pointer,
            RetryPolicyIntervalBounds::Stateful,
            file,
            diagnostics,
        );
    }
}
} // verus!
