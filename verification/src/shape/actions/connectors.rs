//! Shape validators for the HTTP and connector actions: `Http`, `HttpWebhook`,
//! `ApiConnection`, `ApiConnectionWebhook`, `ApiManagement` and `Function`.

use vstd::prelude::*;

use crate::diagnostic::{findings, Diagnostic, Finding};
use crate::json::{as_string, field, get, joined, pointer_join, text_of, Document, Node};
use crate::shape::arm_boundary::{
    authored, checked, get_authored, get_checked, get_present, is_opaque, is_opaque_arm_expression,
    present,
};
use crate::shape::field_validators::{
    caseless_enum_findings, enum_findings, resource_findings, validate_optional_resource_reference,
    validate_optional_string_enum, validate_optional_string_enum_ignore_case,
};
use crate::shape::http::{
    api_management_findings, bounds_of, endpoint_method_list, endpoint_method_names,
    http_inputs_findings, request_method_list, request_method_names,
    validate_api_management_inputs, validate_http_inputs, validate_webhook_operation,
    webhook_findings, RetryPolicyIntervalBounds, WebhookOperationOptions, WebhookOperationString,
};
use crate::shape::http_uri::{endpoint_findings, validate_http_endpoint_uri};
use crate::shape::report::{
    missing, report_context, report_missing, report_type, wrong_context, wrong_type,
};
use crate::shape::required_fields::{
    inputs_findings, inputs_of, object_field_findings, require_object_field, require_typed_field,
    required_inputs_object, typed_field_findings, Shape,
};
use crate::text::{eq_ignoring_case, names, same_ignoring_case};
use crate::workflow::{standard, Workflow};

verus! {

broadcast use crate::diagnostic::group_findings;

pub open spec fn access_key_type_names() -> Seq<Seq<char>> {
    seq!["Primary"@, "Secondary"@]
}

pub fn access_key_type_list() -> (list: Vec<&'static str>)
    ensures
        names(list@) == access_key_type_names(),
{
    let list = vec!["Primary", "Secondary"];
    assert(names(list@) =~= access_key_type_names());
    list
}

/// What is wrong with the inputs of an `Http` action.
pub open spec fn http_action_inputs_findings(
    inputs: &Node,
    inputs_pointer: Seq<char>,
    file: &Document,
    workflow: &Workflow,
) -> Seq<Finding> {
    typed_field_findings(
        inputs,
        inputs_pointer,
        "method"@,
        "Http inputs.method must be a string"@,
        Shape::Text,
        file,
    )
        + typed_field_findings(
            inputs,
            inputs_pointer,
            "uri"@,
            "Http inputs.uri must be a string"@,
            Shape::Text,
            file,
        )
        + enum_findings(
            inputs,
            inputs_pointer,
            "method"@,
            "Http inputs.method"@,
            endpoint_method_names(),
            file,
        )
        + endpoint_findings(inputs, inputs_pointer, "uri"@, "Http inputs.uri"@, file)
        + http_inputs_findings(inputs, inputs_pointer, "Http inputs"@, bounds_of(workflow), file)
}

/// Validate the inputs of an `Http` action.
pub fn validate_http_action_inputs(
    inputs: &Node,
    inputs_pointer: &str,
    file: &Document,
    workflow: &Workflow,
    diagnostics: &mut Vec<Diagnostic>,
)
    ensures
        findings(final(diagnostics)@) == findings(old(diagnostics)@)
            + http_action_inputs_findings(inputs, inputs_pointer@, file, workflow),
{
    require_typed_field(
        inputs,
        inputs_pointer,
        "method",
        "Http inputs.method must be a string",
        Shape::Text,
        file,
        diagnostics,
    );
    require_typed_field(
        inputs,
        inputs_pointer,
        "uri",
        "Http inputs.uri must be a string",
        Shape::Text,
        file,
        diagnostics,
    );
    validate_optional_string_enum(
        inputs,
        inputs_pointer,
        "method",
        "Http inputs.method",
        endpoint_method_list().as_slice(),
        file,
        diagnostics,
    );
    validate_http_endpoint_uri(inputs, inputs_pointer, "uri", "Http inputs.uri", file, diagnostics);
    validate_http_inputs(
        inputs,
        inputs_pointer,
        "Http inputs",
        RetryPolicyIntervalBounds::for_workflow(workflow),
        file,
        diagnostics,
    );
}

/// What is wrong with an `Http` action.
pub open spec fn http_action_findings(
    action: &Node,
    action_pointer: Seq<char>,
    file: &Document,
    workflow: &Workflow,
) -> Seq<Finding> {
    inputs_findings(action, action_pointer, file) + match inputs_of(action, file) {
        Some(inputs) => {
            let inputs_pointer = joined(action_pointer, "inputs"@);
            http_action_inputs_findings(&inputs, inputs_pointer, file, workflow)
        },
        None => Seq::empty(),
    }
}

/// Validate an `Http` action.
pub fn validate_http_action(
    action: &Node,
    action_pointer: &str,
    file: &Document,
    workflow: &Workflow,
    diagnostics: &mut Vec<Diagnostic>,
)
    ensures
        findings(final(diagnostics)@) == findings(old(diagnostics)@)
            + http_action_findings(action, action_pointer@, file, workflow),
{
    if let Some(inputs) = required_inputs_object(action, action_pointer, file, diagnostics) {
        let inputs_pointer_text = pointer_join(action_pointer, "inputs");
        let inputs_pointer = inputs_pointer_text.as_str();
        validate_http_action_inputs(inputs, inputs_pointer, file, workflow, diagnostics);
    }
}

/// What is wrong with the inputs of an `ApiConnection` action.
pub open spec fn api_connection_action_inputs_findings(
    inputs: &Node,
    inputs_pointer: Seq<char>,
    file: &Document,
    workflow: &Workflow,
) -> Seq<Finding> {
    object_field_findings(inputs, inputs_pointer, "host"@, file)
        + api_connection_host_findings(inputs, inputs_pointer, file)
        + caseless_enum_findings(
            inputs,
            inputs_pointer,
            "method"@,
            "ApiConnection inputs.method"@,
            endpoint_method_names(),
            file,
        )
        + typed_field_findings(
            inputs,
            inputs_pointer,
            "path"@,
            "ApiConnection inputs.path must be a string"@,
            Shape::Text,
            file,
        )
        + enum_findings(
            inputs,
            inputs_pointer,
            "accessKeyType"@,
            "ApiConnection inputs.accessKeyType"@,
            access_key_type_names(),
            file,
        )
        + http_inputs_findings(
            inputs,
            inputs_pointer,
            "ApiConnection inputs"@,
            bounds_of(workflow),
            file,
        )
}

/// Validate the inputs of an `ApiConnection` action.
pub fn validate_api_connection_action_inputs(
    inputs: &Node,
    inputs_pointer: &str,
    file: &Document,
    workflow: &Workflow,
    diagnostics: &mut Vec<Diagnostic>,
)
    ensures
        findings(final(diagnostics)@) == findings(old(diagnostics)@)
            + api_connection_action_inputs_findings(inputs, inputs_pointer@, file, workflow),
{
    require_object_field(inputs, inputs_pointer, "host", file, diagnostics);
    validate_api_connection_host(inputs, inputs_pointer, file, diagnostics);
    validate_optional_string_enum_ignore_case(
        inputs,
        inputs_pointer,
        "method",
        "ApiConnection inputs.method",
        endpoint_method_list().as_slice(),
        file,
        diagnostics,
    );
    require_typed_field(
        inputs,
        inputs_pointer,
        "path",
        "ApiConnection inputs.path must be a string",
        Shape::Text,
        file,
        diagnostics,
    );
    validate_optional_string_enum(
        inputs,
        inputs_pointer,
        "accessKeyType",
        "ApiConnection inputs.accessKeyType",
        access_key_type_list().as_slice(),
        file,
        diagnostics,
    );
    validate_http_inputs(
        inputs,
        inputs_pointer,
        "ApiConnection inputs",
        RetryPolicyIntervalBounds::for_workflow(workflow),
        file,
        diagnostics,
    );
}

/// What is wrong with an `ApiConnection` action.
pub open spec fn api_connection_action_findings(
    action: &Node,
    action_pointer: Seq<char>,
    file: &Document,
    workflow: &Workflow,
) -> Seq<Finding> {
    inputs_findings(action, action_pointer, file) + match inputs_of(action, file) {
        Some(inputs) => {
            let inputs_pointer = joined(action_pointer, "inputs"@);
            api_connection_action_inputs_findings(&inputs, inputs_pointer, file, workflow)
        },
        None => Seq::empty(),
    }
}

/// Validate an `ApiConnection` action: a connector call keyed by its host connection and path.
pub fn validate_api_connection_action(
    action: &Node,
    action_pointer: &str,
    file: &Document,
    workflow: &Workflow,
    diagnostics: &mut Vec<Diagnostic>,
)
    ensures
        findings(final(diagnostics)@) == findings(old(diagnostics)@)
            + api_connection_action_findings(action, action_pointer@, file, workflow),
{
    if let Some(inputs) = required_inputs_object(action, action_pointer, file, diagnostics) {
        let inputs_pointer_text = pointer_join(action_pointer, "inputs");
        let inputs_pointer = inputs_pointer_text.as_str();
        validate_api_connection_action_inputs(inputs, inputs_pointer, file, workflow, diagnostics);
    }
}

/// What is wrong with the method of an operation object.
pub open spec fn unsubscribe_method_findings(
    inputs: &Node,
    inputs_pointer: Seq<char>,
    key: Seq<char>,
    file: &Document,
) -> Seq<Finding> {
    match authored(file, inputs, key) {
        Some(operation) => if operation.kind is Object && field(&operation, "method"@) is None {
            let operation_pointer = joined(inputs_pointer, key);
            missing(
                file,
                operation_pointer,
                "method"@,
                operation.span,
                "webhook operation is missing required field 'method'"@,
            )
        } else {
            Seq::empty()
        },
        None => Seq::empty(),
    }
}

/// Validate the method of an operation object.
fn validate_webhook_operation_method_when_present(
    inputs: &Node,
    inputs_pointer: &str,
    key: &str,
    file: &Document,
    diagnostics: &mut Vec<Diagnostic>,
)
    ensures
        findings(final(diagnostics)@) == findings(old(diagnostics)@)
            + unsubscribe_method_findings(inputs, inputs_pointer@, key@, file),
{
    if let Some(operation) = get_authored(file, inputs, key) {
        if operation.is_object() && get(operation, "method").is_none() {
            let operation_pointer_text = pointer_join(inputs_pointer, key);
            let operation_pointer = operation_pointer_text.as_str();

            report_missing(
                file,
                operation_pointer,
                "method",
                operation.span,
                "webhook operation is missing required field 'method'",
                diagnostics,
            );
        }
    }
}

/// What is wrong with the inputs of an `ApiConnectionWebhook` action, with
/// operation objects or flat.
pub open spec fn connection_webhook_findings(
    inputs: &Node,
    inputs_pointer: Seq<char>,
    file: &Document,
    workflow: &Workflow,
) -> Seq<Finding> {
    if field(inputs, "subscribe"@) is Some || field(inputs, "unsubscribe"@) is Some {
        webhook_findings(
            inputs,
            inputs_pointer,
            "subscribe"@,
            true,
            (
                WebhookOperationOptions { string_operation: WebhookOperationString::Disallow, retry_bounds: bounds_of(
                    workflow,
                ) }
            ),
            file,
        )
            + webhook_findings(
                inputs,
                inputs_pointer,
                "unsubscribe"@,
                false,
                (
                    WebhookOperationOptions { string_operation: WebhookOperationString::Disallow, retry_bounds: bounds_of(
                        workflow,
                    ) }
                ),
                file,
            )
            + unsubscribe_method_findings(inputs, inputs_pointer, "unsubscribe"@, file)
            + enum_findings(
                inputs,
                inputs_pointer,
                "accessKeyType"@,
                "ApiConnectionWebhook inputs.accessKeyType"@,
                access_key_type_names(),
                file,
            )
    } else {
        object_field_findings(inputs, inputs_pointer, "host"@, file)
            + api_connection_host_findings(inputs, inputs_pointer, file)
            + enum_findings(
                inputs,
                inputs_pointer,
                "method"@,
                "ApiConnectionWebhook inputs.method"@,
                request_method_names(),
                file,
            )
            + typed_field_findings(
                inputs,
                inputs_pointer,
                "path"@,
                "ApiConnectionWebhook inputs.path must be a string"@,
                Shape::Text,
                file,
            )
            + enum_findings(
                inputs,
                inputs_pointer,
                "accessKeyType"@,
                "ApiConnectionWebhook inputs.accessKeyType"@,
                access_key_type_names(),
                file,
            )
            + http_inputs_findings(
                inputs,
                inputs_pointer,
                "ApiConnectionWebhook inputs"@,
                bounds_of(workflow),
                file,
            )
    }
}

/// Validate the inputs of an `ApiConnectionWebhook` action, with operation objects or flat.
fn validate_connection_webhook(
    inputs: &Node,
    inputs_pointer: &str,
    file: &Document,
    workflow: &Workflow,
    diagnostics: &mut Vec<Diagnostic>,
)
    ensures
        findings(final(diagnostics)@) == findings(old(diagnostics)@)
            + connection_webhook_findings(inputs, inputs_pointer@, file, workflow),
{
    if get(inputs, "subscribe").is_some() || get(inputs, "unsubscribe").is_some() {
        validate_webhook_operation(
            inputs,
            inputs_pointer,
            "subscribe",
            true,
            WebhookOperationOptions { string_operation: WebhookOperationString::Disallow, retry_bounds: RetryPolicyIntervalBounds::for_workflow(
                workflow,
            ) },
            file,
            diagnostics,
        );
        validate_webhook_operation(
            inputs,
            inputs_pointer,
            "unsubscribe",
            false,
            WebhookOperationOptions { string_operation: WebhookOperationString::Disallow, retry_bounds: RetryPolicyIntervalBounds::for_workflow(
                workflow,
            ) },
            file,
            diagnostics,
        );
        validate_webhook_operation_method_when_present(
            inputs,
            inputs_pointer,
            "unsubscribe",
            file,
            diagnostics,
        );
        validate_optional_string_enum(
            inputs,
            inputs_pointer,
            "accessKeyType",
            "ApiConnectionWebhook inputs.accessKeyType",
            access_key_type_list().as_slice(),
            file,
            diagnostics,
        );
    } else {
        require_object_field(inputs, inputs_pointer, "host", file, diagnostics);
        validate_api_connection_host(inputs, inputs_pointer, file, diagnostics);
        validate_optional_string_enum(
            inputs,
            inputs_pointer,
            "method",
            "ApiConnectionWebhook inputs.method",
            request_method_list().as_slice(),
            file,
            diagnostics,
        );
        require_typed_field(
            inputs,
            inputs_pointer,
            "path",
            "ApiConnectionWebhook inputs.path must be a string",
            Shape::Text,
            file,
            diagnostics,
        );
        validate_optional_string_enum(
            inputs,
            inputs_pointer,
            "accessKeyType",
            "ApiConnectionWebhook inputs.accessKeyType",
            access_key_type_list().as_slice(),
            file,
            diagnostics,
        );
        validate_http_inputs(
            inputs,
            inputs_pointer,
            "ApiConnectionWebhook inputs",
            RetryPolicyIntervalBounds::for_workflow(workflow),
            file,
            diagnostics,
        );
    }
}

/// What is wrong with the inputs of an `ApiConnectionWebhook` action.
pub open spec fn api_connection_webhook_action_inputs_findings(
    inputs: &Node,
    inputs_pointer: Seq<char>,
    file: &Document,
    workflow: &Workflow,
) -> Seq<Finding> {
    connection_webhook_findings(inputs, inputs_pointer, file, workflow)
}

/// Validate the inputs of an `ApiConnectionWebhook` action.
pub fn validate_api_connection_webhook_action_inputs(
    inputs: &Node,
    inputs_pointer: &str,
    file: &Document,
    workflow: &Workflow,
    diagnostics: &mut Vec<Diagnostic>,
)
    ensures
        findings(final(diagnostics)@) == findings(old(diagnostics)@)
            + api_connection_webhook_action_inputs_findings(
                inputs,
                inputs_pointer@,
                file,
                workflow,
            ),
{
    validate_connection_webhook(inputs, inputs_pointer, file, workflow, diagnostics);
}

/// What is wrong with an `ApiConnectionWebhook` action.
pub open spec fn api_connection_webhook_action_findings(
    action: &Node,
    action_pointer: Seq<char>,
    file: &Document,
    workflow: &Workflow,
) -> Seq<Finding> {
    inputs_findings(action, action_pointer, file) + match inputs_of(action, file) {
        Some(inputs) => {
            let inputs_pointer = joined(action_pointer, "inputs"@);
            api_connection_webhook_action_inputs_findings(&inputs, inputs_pointer, file, workflow)
        },
        None => Seq::empty(),
    }
}

/// Validate an `ApiConnectionWebhook` action.
pub fn validate_api_connection_webhook_action(
    action: &Node,
    action_pointer: &str,
    file: &Document,
    workflow: &Workflow,
    diagnostics: &mut Vec<Diagnostic>,
)
    ensures
        findings(final(diagnostics)@) == findings(old(diagnostics)@)
            + api_connection_webhook_action_findings(action, action_pointer@, file, workflow),
{
    if let Some(inputs) = required_inputs_object(action, action_pointer, file, diagnostics) {
        let inputs_pointer_text = pointer_join(action_pointer, "inputs");
        let inputs_pointer = inputs_pointer_text.as_str();
        validate_api_connection_webhook_action_inputs(
            inputs,
            inputs_pointer,
            file,
            workflow,
            diagnostics,
        );
    }
}

/// What is wrong with the authentication of a `Function` action in a Standard workflow.
pub open spec fn function_authentication_findings(
    inputs: &Node,
    inputs_pointer: Seq<char>,
    file: &Document,
    workflow: &Workflow,
) -> Seq<Finding> {
    if standard(workflow) {
        match checked(file, inputs, "authentication"@) {
            Some(authentication) => match field(&authentication, "type"@) {
                Some(kind) => match text_of(&kind) {
                    Some(text) => if same_ignoring_case(text, "ManagedServiceIdentity"@) {
                        let authentication_pointer = joined(inputs_pointer, "authentication"@);
                        wrong_context(
                            file,
                            authentication_pointer,
                            "type"@,
                            kind.span,
                            "Function inputs.authentication.type 'ManagedServiceIdentity' is not supported in Standard workflows"@,
                        )
                    } else {
                        Seq::empty()
                    },
                    None => Seq::empty(),
                },
                None => Seq::empty(),
            },
            None => Seq::empty(),
        }
    } else {
        Seq::empty()
    }
}

/// Validate the authentication of a `Function` action in a Standard workflow,
/// where managed identities are not supported.
fn validate_function_standard_authentication(
    inputs: &Node,
    inputs_pointer: &str,
    file: &Document,
    workflow: &Workflow,
    diagnostics: &mut Vec<Diagnostic>,
)
    ensures
        findings(final(diagnostics)@) == findings(old(diagnostics)@)
            + function_authentication_findings(inputs, inputs_pointer@, file, workflow),
{
    if workflow.is_standard() {
        if let Some(authentication) = get_checked(file, inputs, "authentication") {
            if let Some(kind) = get(authentication, "type") {
                if let Some(text) = as_string(kind) {
                    if eq_ignoring_case(text, "ManagedServiceIdentity") {
                        let authentication_pointer_text = pointer_join(
                            inputs_pointer,
                            "authentication",
                        );
                        let authentication_pointer = authentication_pointer_text.as_str();

                        report_context(
                            file,
                            authentication_pointer,
                            "type",
                            kind.span,
                            "Function inputs.authentication.type 'ManagedServiceIdentity' is not supported in Standard workflows",
                            diagnostics,
                        );
                    }
                }
            }
        }
    }
}

/// What is wrong with the inputs of a `Function` action.
pub open spec fn function_action_inputs_findings(
    inputs: &Node,
    inputs_pointer: Seq<char>,
    file: &Document,
    workflow: &Workflow,
) -> Seq<Finding> {
    (if present(file, inputs, "uri"@) is None && present(file, inputs, "function"@) is None && present(file, inputs, "functionApp"@) is None {
        missing(
            file,
            inputs_pointer,
            "function"@,
            inputs.span,
            "Function inputs must define uri, function, or functionApp"@,
        )
    } else {
        Seq::empty()
    }) + (match present(file, inputs, "uri"@) {
        Some(uri) => if uri.kind is String {
            Seq::empty()
        } else {
            wrong_type(
                file,
                inputs_pointer,
                "uri"@,
                uri.span,
                "Function inputs.uri must be a string"@,
            )
        },
        None => Seq::empty(),
    }) + enum_findings(
        inputs,
        inputs_pointer,
        "method"@,
        "Function inputs.method"@,
        endpoint_method_names(),
        file,
    ) + http_inputs_findings(inputs, inputs_pointer, "Function inputs"@, bounds_of(workflow), file) + function_authentication_findings(inputs, inputs_pointer, file, workflow) + resource_findings(inputs, inputs_pointer, "function"@, "Function inputs.function"@, file) + resource_findings(
        inputs,
        inputs_pointer,
        "functionApp"@,
        "Function inputs.functionApp"@,
        file,
    )
}

/// Validate the inputs of a `Function` action.
pub fn validate_function_action_inputs(
    inputs: &Node,
    inputs_pointer: &str,
    file: &Document,
    workflow: &Workflow,
    diagnostics: &mut Vec<Diagnostic>,
)
    ensures
        findings(final(diagnostics)@) == findings(old(diagnostics)@)
            + function_action_inputs_findings(inputs, inputs_pointer@, file, workflow),
{
    if get_present(file, inputs, "uri").is_none()
        && get_present(file, inputs, "function").is_none()
        && get_present(file, inputs, "functionApp").is_none() {
        report_missing(
            file,
            inputs_pointer,
            "function",
            inputs.span,
            "Function inputs must define uri, function, or functionApp",
            diagnostics,
        );
    }
    if let Some(uri) = get_present(file, inputs, "uri") {
        if !uri.is_string() {
            report_type(
                file,
                inputs_pointer,
                "uri",
                uri.span,
                "Function inputs.uri must be a string",
                diagnostics,
            );
        }
    }
    validate_optional_string_enum(
        inputs,
        inputs_pointer,
        "method",
        "Function inputs.method",
        endpoint_method_list().as_slice(),
        file,
        diagnostics,
    );
    validate_http_inputs(
        inputs,
        inputs_pointer,
        "Function inputs",
        RetryPolicyIntervalBounds::for_workflow(workflow),
        file,
        diagnostics,
    );
    validate_function_standard_authentication(inputs, inputs_pointer, file, workflow, diagnostics);
    validate_optional_resource_reference(
        inputs,
        inputs_pointer,
        "function",
        "Function inputs.function",
        file,
        diagnostics,
    );
    validate_optional_resource_reference(
        inputs,
        inputs_pointer,
        "functionApp",
        "Function inputs.functionApp",
        file,
        diagnostics,
    );
}

/// What is wrong with a `Function` action.
pub open spec fn function_action_findings(
    action: &Node,
    action_pointer: Seq<char>,
    file: &Document,
    workflow: &Workflow,
) -> Seq<Finding> {
    inputs_findings(action, action_pointer, file) + match inputs_of(action, file) {
        Some(inputs) => {
            let inputs_pointer = joined(action_pointer, "inputs"@);
            function_action_inputs_findings(&inputs, inputs_pointer, file, workflow)
        },
        None => Seq::empty(),
    }
}

/// Validate a `Function` action, which names its target by a URI or by resource references.
pub fn validate_function_action(
    action: &Node,
    action_pointer: &str,
    file: &Document,
    workflow: &Workflow,
    diagnostics: &mut Vec<Diagnostic>,
)
    ensures
        findings(final(diagnostics)@) == findings(old(diagnostics)@)
            + function_action_findings(action, action_pointer@, file, workflow),
{
    if let Some(inputs) = required_inputs_object(action, action_pointer, file, diagnostics) {
        let inputs_pointer_text = pointer_join(action_pointer, "inputs");
        let inputs_pointer = inputs_pointer_text.as_str();
        validate_function_action_inputs(inputs, inputs_pointer, file, workflow, diagnostics);
    }
}

/// What is wrong with the connection of a connector host.
pub open spec fn connection_findings(
    connection: &Node,
    connection_pointer: Seq<char>,
    file: &Document,
) -> Seq<Finding> {
    (if field(connection, "name"@) is None && field(connection, "referenceName"@) is None && field(connection, "id"@) is None {
        missing(
            file,
            connection_pointer,
            "name"@,
            connection.span,
            "ApiConnection inputs.host.connection must define name, id, or referenceName"@,
        )
    } else {
        Seq::empty()
    }) + (match authored(file, connection, "name"@) {
        Some(value) => if value.kind is String {
            Seq::empty()
        } else {
            wrong_type(
                file,
                connection_pointer,
                "name"@,
                value.span,
                "ApiConnection inputs.host.connection.name must be a string"@,
            )
        },
        None => Seq::empty(),
    }) + (match authored(file, connection, "referenceName"@) {
        Some(value) => if value.kind is String {
            Seq::empty()
        } else {
            wrong_type(
                file,
                connection_pointer,
                "referenceName"@,
                value.span,
                "ApiConnection inputs.host.connection.referenceName must be a string"@,
            )
        },
        None => Seq::empty(),
    }) + (match authored(file, connection, "id"@) {
        Some(value) => if value.kind is String {
            Seq::empty()
        } else {
            wrong_type(
                file,
                connection_pointer,
                "id"@,
                value.span,
                "ApiConnection inputs.host.connection.id must be a string"@,
            )
        },
        None => Seq::empty(),
    })
}

/// Validate the connection of a connector host.
fn validate_connection(
    connection: &Node,
    connection_pointer: &str,
    file: &Document,
    diagnostics: &mut Vec<Diagnostic>,
)
    ensures
        findings(final(diagnostics)@) == findings(old(diagnostics)@)
            + connection_findings(connection, connection_pointer@, file),
{
    if get(connection, "name").is_none()
        && get(connection, "referenceName").is_none()
        && get(connection, "id").is_none() {
        report_missing(
            file,
            connection_pointer,
            "name",
            connection.span,
            "ApiConnection inputs.host.connection must define name, id, or referenceName",
            diagnostics,
        );
    }
    if let Some(value) = get_authored(file, connection, "name") {
        if !value.is_string() {
            report_type(
                file,
                connection_pointer,
                "name",
                value.span,
                "ApiConnection inputs.host.connection.name must be a string",
                diagnostics,
            );
        }
    }
    if let Some(value) = get_authored(file, connection, "referenceName") {
        if !value.is_string() {
            report_type(
                file,
                connection_pointer,
                "referenceName",
                value.span,
                "ApiConnection inputs.host.connection.referenceName must be a string",
                diagnostics,
            );
        }
    }
    if let Some(value) = get_authored(file, connection, "id") {
        if !value.is_string() {
            report_type(
                file,
                connection_pointer,
                "id",
                value.span,
                "ApiConnection inputs.host.connection.id must be a string",
                diagnostics,
            );
        }
    }
}

/// What is wrong with the host of a connector action or trigger.
pub open spec fn api_connection_host_findings(
    inputs: &Node,
    inputs_pointer: Seq<char>,
    file: &Document,
) -> Seq<Finding> {
    match authored(file, inputs, "host"@) {
        Some(host) => if host.kind is Object {
            let host_pointer = joined(inputs_pointer, "host"@);
            match field(&host, "connection"@) {
                Some(connection) => if is_opaque(file, &connection) {
                    Seq::empty()
                } else {
                    if connection.kind is Object {
                        connection_findings(&connection, joined(host_pointer, "connection"@), file)
                    } else {
                        wrong_type(
                            file,
                            host_pointer,
                            "connection"@,
                            connection.span,
                            "ApiConnection inputs.host.connection must be an object"@,
                        )
                    }
                },
                None => missing(
                    file,
                    host_pointer,
                    "connection"@,
                    host.span,
                    "ApiConnection inputs.host is missing required object field 'connection'"@,
                ),
            }
        } else {
            Seq::empty()
        },
        None => Seq::empty(),
    }
}

/// Validate the host of a connector action or trigger, which names its connection.
pub fn validate_api_connection_host(
    inputs: &Node,
    inputs_pointer: &str,
    file: &Document,
    diagnostics: &mut Vec<Diagnostic>,
)
    ensures
        findings(final(diagnostics)@) == findings(old(diagnostics)@)
            + api_connection_host_findings(inputs, inputs_pointer@, file),
{
    if let Some(host) = get_authored(file, inputs, "host") {
        if host.is_object() {
            let host_pointer_text = pointer_join(inputs_pointer, "host");
            let host_pointer = host_pointer_text.as_str();
            match get(host, "connection") {
                Some(connection) => {
                    if !is_opaque_arm_expression(file, connection) {
                        if connection.is_object() {
                            let pointer = pointer_join(host_pointer, "connection");
                            validate_connection(connection, pointer.as_str(), file, diagnostics);
                        } else {
                            report_type(
                                file,
                                host_pointer,
                                "connection",
                                connection.span,
                                "ApiConnection inputs.host.connection must be an object",
                                diagnostics,
                            );
                        }
                    }
                },
                None => {
                    report_missing(
                        file,
                        host_pointer,
                        "connection",
                        host.span,
                        "ApiConnection inputs.host is missing required object field 'connection'",
                        diagnostics,
                    );
                },
            }
        }
    }
}

/// What is wrong with the inputs of an `ApiManagement` action.
pub open spec fn api_management_action_inputs_findings(
    inputs: &Node,
    inputs_pointer: Seq<char>,
    file: &Document,
    workflow: &Workflow,
) -> Seq<Finding> {
    api_management_findings(inputs, inputs_pointer, bounds_of(workflow), file)
}

/// Validate the inputs of an `ApiManagement` action.
pub fn validate_api_management_action_inputs(
    inputs: &Node,
    inputs_pointer: &str,
    file: &Document,
    workflow: &Workflow,
    diagnostics: &mut Vec<Diagnostic>,
)
    ensures
        findings(final(diagnostics)@) == findings(old(diagnostics)@)
            + api_management_action_inputs_findings(inputs, inputs_pointer@, file, workflow),
{
    validate_api_management_inputs(
        inputs,
        inputs_pointer,
        RetryPolicyIntervalBounds::for_workflow(workflow),
        file,
        diagnostics,
    );
}

/// What is wrong with an `ApiManagement` action.
pub open spec fn api_management_action_findings(
    action: &Node,
    action_pointer: Seq<char>,
    file: &Document,
    workflow: &Workflow,
) -> Seq<Finding> {
    inputs_findings(action, action_pointer, file) + match inputs_of(action, file) {
        Some(inputs) => {
            let inputs_pointer = joined(action_pointer, "inputs"@);
            api_management_action_inputs_findings(&inputs, inputs_pointer, file, workflow)
        },
        None => Seq::empty(),
    }
}

/// Validate an `ApiManagement` action.
pub fn validate_api_management_action(
    action: &Node,
    action_pointer: &str,
    file: &Document,
    workflow: &Workflow,
    diagnostics: &mut Vec<Diagnostic>,
)
    ensures
        findings(final(diagnostics)@) == findings(old(diagnostics)@)
            + api_management_action_findings(action, action_pointer@, file, workflow),
{
    if let Some(inputs) = required_inputs_object(action, action_pointer, file, diagnostics) {
        let inputs_pointer_text = pointer_join(action_pointer, "inputs");
        let inputs_pointer = inputs_pointer_text.as_str();
        validate_api_management_action_inputs(inputs, inputs_pointer, file, workflow, diagnostics);
    }
}

/// What is wrong with the inputs of an `HttpWebhook` action.
pub open spec fn http_webhook_action_inputs_findings(
    inputs: &Node,
    inputs_pointer: Seq<char>,
    file: &Document,
    workflow: &Workflow,
) -> Seq<Finding> {
    enum_findings(
        inputs,
        inputs_pointer,
        "accessKeyType"@,
        "HttpWebhook inputs.accessKeyType"@,
        access_key_type_names(),
        file,
    )
        + webhook_findings(
            inputs,
            inputs_pointer,
            "subscribe"@,
            true,
            (
                WebhookOperationOptions { string_operation: WebhookOperationString::Allow, retry_bounds: bounds_of(
                    workflow,
                ) }
            ),
            file,
        )
        + webhook_findings(
            inputs,
            inputs_pointer,
            "unsubscribe"@,
            false,
            (
                WebhookOperationOptions { string_operation: WebhookOperationString::Allow, retry_bounds: bounds_of(
                    workflow,
                ) }
            ),
            file,
        )
}

/// Validate the inputs of an `HttpWebhook` action.
pub fn validate_http_webhook_action_inputs(
    inputs: &Node,
    inputs_pointer: &str,
    file: &Document,
    workflow: &Workflow,
    diagnostics: &mut Vec<Diagnostic>,
)
    ensures
        findings(final(diagnostics)@) == findings(old(diagnostics)@)
            + http_webhook_action_inputs_findings(inputs, inputs_pointer@, file, workflow),
{
    validate_optional_string_enum(
        inputs,
        inputs_pointer,
        "accessKeyType",
        "HttpWebhook inputs.accessKeyType",
        access_key_type_list().as_slice(),
        file,
        diagnostics,
    );
    validate_webhook_operation(
        inputs,
        inputs_pointer,
        "subscribe",
        true,
        WebhookOperationOptions { string_operation: WebhookOperationString::Allow, retry_bounds: RetryPolicyIntervalBounds::for_workflow(
            workflow,
        ) },
        file,
        diagnostics,
    );
    validate_webhook_operation(
        inputs,
        inputs_pointer,
        "unsubscribe",
        false,
        WebhookOperationOptions { string_operation: WebhookOperationString::Allow, retry_bounds: RetryPolicyIntervalBounds::for_workflow(
            workflow,
        ) },
        file,
        diagnostics,
    );
}

/// What is wrong with an `HttpWebhook` action.
pub open spec fn http_webhook_action_findings(
    action: &Node,
    action_pointer: Seq<char>,
    file: &Document,
    workflow: &Workflow,
) -> Seq<Finding> {
    inputs_findings(action, action_pointer, file) + match inputs_of(action, file) {
        Some(inputs) => {
            let inputs_pointer = joined(action_pointer, "inputs"@);
            http_webhook_action_inputs_findings(&inputs, inputs_pointer, file, workflow)
        },
        None => Seq::empty(),
    }
}

/// Validate an `HttpWebhook` action, whose operations may be bare URLs.
pub fn validate_http_webhook_action(
    action: &Node,
    action_pointer: &str,
    file: &Document,
    workflow: &Workflow,
    diagnostics: &mut Vec<Diagnostic>,
)
    ensures
        findings(final(diagnostics)@) == findings(old(diagnostics)@)
            + http_webhook_action_findings(action, action_pointer@, file, workflow),
{
    if let Some(inputs) = required_inputs_object(action, action_pointer, file, diagnostics) {
        let inputs_pointer_text = pointer_join(action_pointer, "inputs");
        let inputs_pointer = inputs_pointer_text.as_str();
        validate_http_webhook_action_inputs(inputs, inputs_pointer, file, workflow, diagnostics);
    }
}
} // verus!
