//! Registry of action and trigger validators, by type.

use vstd::prelude::*;

use crate::arm::ArmScope;
use crate::diagnostic::{findings, Diagnostic, Finding};
use crate::json::{field, get, joined, pointer_join, Document, Node};
use crate::shape::arm_boundary::{
    is_opaque, is_opaque_arm_expression, node_in, resolved,
    static_json_value_from_spanned_with_scope,
};
use crate::shape::report::{report_type, wrong_type, extend_with_span, respanned};
use crate::text::{eq_ignoring_case, in_list, names, one_of, same_ignoring_case};
use crate::workflow::Workflow;
use crate::arm::rewritten_at;
use crate::diagnostic::lemma_findings_index;
use crate::shape::actions::connectors::{
    api_connection_action_findings, api_connection_action_inputs_findings,
    api_connection_webhook_action_findings, api_connection_webhook_action_inputs_findings,
    api_management_action_findings, api_management_action_inputs_findings,
    function_action_findings, function_action_inputs_findings, http_action_findings,
    http_action_inputs_findings, http_webhook_action_findings, http_webhook_action_inputs_findings,
    validate_api_connection_action, validate_api_connection_action_inputs,
    validate_api_connection_webhook_action, validate_api_connection_webhook_action_inputs,
    validate_api_management_action, validate_api_management_action_inputs,
    validate_function_action, validate_function_action_inputs, validate_http_action,
    validate_http_action_inputs, validate_http_webhook_action, validate_http_webhook_action_inputs,
};
use crate::shape::actions::control::{
    foreach_action_findings, if_action_findings, response_action_findings,
    response_action_inputs_findings, response_placement_findings, scope_action_findings,
    switch_action_findings, terminate_action_findings, until_action_findings,
    validate_foreach_action, validate_if_action, validate_response_action,
    validate_response_action_inputs, validate_response_placement, validate_scope_action,
    validate_switch_action, validate_terminate_action, validate_until_action_with_workflow,
    validate_wait_action, wait_action_findings,
};
use crate::shape::actions::data::{
    compose_action_findings, expression_action_findings, javascript_action_findings,
    join_action_findings, join_action_inputs_findings, parse_json_action_findings,
    powershell_action_findings, query_action_findings, select_action_findings,
    table_action_findings, validate_compose_action, validate_expression_action,
    validate_javascript_code_action, validate_join_action, validate_join_action_inputs,
    validate_parse_json_action, validate_powershell_code_action, validate_query_action,
    validate_select_action, validate_table_action,
};
use crate::shape::actions::integration::{
    artifact_lookup_action_findings, batch_action_findings, flat_file_action_findings,
    liquid_action_findings, send_to_batch_action_findings, send_to_batch_action_inputs_findings,
    validate_batch_action, validate_flat_file_action,
    validate_integration_account_artifact_lookup_action, validate_liquid_action,
    validate_send_to_batch_action, validate_send_to_batch_action_inputs, validate_workflow_action,
    validate_workflow_action_inputs, validate_xml_validation_action, validate_xslt_action,
    workflow_action_findings, workflow_action_inputs_findings, xml_validation_action_findings,
    xslt_action_findings,
};
use crate::shape::actions::variables::{
    container_findings, initialize_variable_findings, initialized_findings, validate_container,
    validate_initialize_variable_action, validate_initialized_variables,
    validate_variable_update_action, validate_variable_update_inputs, variable_update_findings,
    variable_update_inputs_findings,
};
use crate::shape::triggers::batch::{batch_trigger_findings, validate_batch_trigger};
use crate::shape::triggers::http::{
    api_connection_trigger_findings, api_management_trigger_findings, http_trigger_findings,
    http_webhook_trigger_findings, sliding_window_trigger_findings,
    validate_api_connection_trigger, validate_api_management_trigger, validate_http_trigger,
    validate_http_webhook_trigger, validate_sliding_window_trigger,
};
use crate::shape::triggers::recurrence::{
    optional_recurrence_findings, recurrence_findings, validate_optional_recurrence,
    validate_recurrence_trigger,
};
use crate::shape::triggers::request::{request_trigger_findings, validate_request_trigger};

verus! {

broadcast use crate::diagnostic::group_findings;

/// Every supported action type.
#[derive(Debug, Clone, Copy, PartialEq, Eq, Structural)]
pub enum ActionSpec {
    ApiConnection,
    ApiConnectionWebhook,
    ApiManagement,
    Batch,
    SendToBatch,
    Compose,
    Expression,
    FlatFileDecoding,
    FlatFileEncoding,
    Function,
    Http,
    HttpWebhook,
    IntegrationAccountArtifactLookup,
    JavaScriptCode,
    Join,
    Liquid,
    ParseJson,
    PowershellCode,
    Query,
    Response,
    ServiceProvider,
    Foreach,
    If,
    Scope,
    Switch,
    Until,
    Select,
    Table,
    Terminate,
    AppendToArrayVariable,
    AppendToStringVariable,
    Agent,
    DecrementVariable,
    IncrementVariable,
    InitializeVariable,
    SetVariable,
    Wait,
    Workflow,
    XmlValidation,
    Xslt,
}

/// Every supported trigger type.
#[derive(Debug, Clone, Copy, PartialEq, Eq, Structural)]
pub enum TriggerSpec {
    ApiConnection,
    ApiConnectionWebhook,
    ApiManagement,
    Batch,
    Http,
    HttpWebhook,
    Recurrence,
    Request,
    ServiceProvider,
    SlidingWindow,
}

/// The action type that `text` names, whatever its case.
pub open spec fn action_spec_of(text: Seq<char>) -> Option<ActionSpec> {
    if same_ignoring_case(text, "ApiConnection"@) {
        Some(ActionSpec::ApiConnection)
    } else if same_ignoring_case(text, "ApiConnectionWebhook"@) {
        Some(ActionSpec::ApiConnectionWebhook)
    } else if same_ignoring_case(text, "ApiManagement"@) {
        Some(ActionSpec::ApiManagement)
    } else if same_ignoring_case(text, "Batch"@) {
        Some(ActionSpec::Batch)
    } else if same_ignoring_case(text, "SendToBatch"@) {
        Some(ActionSpec::SendToBatch)
    } else if same_ignoring_case(text, "Compose"@) {
        Some(ActionSpec::Compose)
    } else if same_ignoring_case(text, "Expression"@) {
        Some(ActionSpec::Expression)
    } else if same_ignoring_case(text, "FlatFileDecoding"@) {
        Some(ActionSpec::FlatFileDecoding)
    } else if same_ignoring_case(text, "FlatFileEncoding"@) {
        Some(ActionSpec::FlatFileEncoding)
    } else if same_ignoring_case(text, "Function"@) {
        Some(ActionSpec::Function)
    } else if same_ignoring_case(text, "Http"@) {
        Some(ActionSpec::Http)
    } else if same_ignoring_case(text, "HttpWebhook"@) {
        Some(ActionSpec::HttpWebhook)
    } else if same_ignoring_case(text, "IntegrationAccountArtifactLookup"@) {
        Some(ActionSpec::IntegrationAccountArtifactLookup)
    } else if same_ignoring_case(text, "JavaScriptCode"@) {
        Some(ActionSpec::JavaScriptCode)
    } else if same_ignoring_case(text, "Join"@) {
        Some(ActionSpec::Join)
    } else if same_ignoring_case(text, "Liquid"@) {
        Some(ActionSpec::Liquid)
    } else if same_ignoring_case(text, "ParseJson"@) {
        Some(ActionSpec::ParseJson)
    } else if same_ignoring_case(text, "PowershellCode"@) {
        Some(ActionSpec::PowershellCode)
    } else if same_ignoring_case(text, "Query"@) {
        Some(ActionSpec::Query)
    } else if same_ignoring_case(text, "Response"@) {
        Some(ActionSpec::Response)
    } else if same_ignoring_case(text, "ServiceProvider"@) {
        Some(ActionSpec::ServiceProvider)
    } else if same_ignoring_case(text, "Foreach"@) {
        Some(ActionSpec::Foreach)
    } else if same_ignoring_case(text, "If"@) {
        Some(ActionSpec::If)
    } else if same_ignoring_case(text, "Scope"@) {
        Some(ActionSpec::Scope)
    } else if same_ignoring_case(text, "Switch"@) {
        Some(ActionSpec::Switch)
    } else if same_ignoring_case(text, "Until"@) {
        Some(ActionSpec::Until)
    } else if same_ignoring_case(text, "Select"@) {
        Some(ActionSpec::Select)
    } else if same_ignoring_case(text, "Table"@) {
        Some(ActionSpec::Table)
    } else if same_ignoring_case(text, "Terminate"@) {
        Some(ActionSpec::Terminate)
    } else if same_ignoring_case(text, "AppendToArrayVariable"@) {
        Some(ActionSpec::AppendToArrayVariable)
    } else if same_ignoring_case(text, "AppendToStringVariable"@) {
        Some(ActionSpec::AppendToStringVariable)
    } else if same_ignoring_case(text, "Agent"@) {
        Some(ActionSpec::Agent)
    } else if same_ignoring_case(text, "DecrementVariable"@) {
        Some(ActionSpec::DecrementVariable)
    } else if same_ignoring_case(text, "IncrementVariable"@) {
        Some(ActionSpec::IncrementVariable)
    } else if same_ignoring_case(text, "InitializeVariable"@) {
        Some(ActionSpec::InitializeVariable)
    } else if same_ignoring_case(text, "SetVariable"@) {
        Some(ActionSpec::SetVariable)
    } else if same_ignoring_case(text, "Wait"@) {
        Some(ActionSpec::Wait)
    } else if same_ignoring_case(text, "Workflow"@) {
        Some(ActionSpec::Workflow)
    } else if same_ignoring_case(text, "XmlValidation"@) {
        Some(ActionSpec::XmlValidation)
    } else if same_ignoring_case(text, "Xslt"@) {
        Some(ActionSpec::Xslt)
    } else {
        None
    }
}

/// The trigger type that `text` names, whatever its case.
pub open spec fn trigger_spec_of(text: Seq<char>) -> Option<TriggerSpec> {
    if same_ignoring_case(text, "ApiConnection"@) {
        Some(TriggerSpec::ApiConnection)
    } else if same_ignoring_case(text, "ApiConnectionWebhook"@) {
        Some(TriggerSpec::ApiConnectionWebhook)
    } else if same_ignoring_case(text, "ApiManagement"@) {
        Some(TriggerSpec::ApiManagement)
    } else if same_ignoring_case(text, "Batch"@) {
        Some(TriggerSpec::Batch)
    } else if same_ignoring_case(text, "Http"@) {
        Some(TriggerSpec::Http)
    } else if same_ignoring_case(text, "HttpWebhook"@) {
        Some(TriggerSpec::HttpWebhook)
    } else if same_ignoring_case(text, "Recurrence"@) {
        Some(TriggerSpec::Recurrence)
    } else if same_ignoring_case(text, "Request"@) {
        Some(TriggerSpec::Request)
    } else if same_ignoring_case(text, "ServiceProvider"@) {
        Some(TriggerSpec::ServiceProvider)
    } else if same_ignoring_case(text, "SlidingWindow"@) {
        Some(TriggerSpec::SlidingWindow)
    } else {
        None
    }
}

/// Look up the spec for an action type, whatever its case.
pub fn action_spec(text: &str) -> (spec: Option<ActionSpec>)
    ensures
        spec == action_spec_of(text@),
{
    if eq_ignoring_case(text, "ApiConnection") {
        Some(ActionSpec::ApiConnection)
    } else if eq_ignoring_case(text, "ApiConnectionWebhook") {
        Some(ActionSpec::ApiConnectionWebhook)
    } else if eq_ignoring_case(text, "ApiManagement") {
        Some(ActionSpec::ApiManagement)
    } else if eq_ignoring_case(text, "Batch") {
        Some(ActionSpec::Batch)
    } else if eq_ignoring_case(text, "SendToBatch") {
        Some(ActionSpec::SendToBatch)
    } else if eq_ignoring_case(text, "Compose") {
        Some(ActionSpec::Compose)
    } else if eq_ignoring_case(text, "Expression") {
        Some(ActionSpec::Expression)
    } else if eq_ignoring_case(text, "FlatFileDecoding") {
        Some(ActionSpec::FlatFileDecoding)
    } else if eq_ignoring_case(text, "FlatFileEncoding") {
        Some(ActionSpec::FlatFileEncoding)
    } else if eq_ignoring_case(text, "Function") {
        Some(ActionSpec::Function)
    } else if eq_ignoring_case(text, "Http") {
        Some(ActionSpec::Http)
    } else if eq_ignoring_case(text, "HttpWebhook") {
        Some(ActionSpec::HttpWebhook)
    } else if eq_ignoring_case(text, "IntegrationAccountArtifactLookup") {
        Some(ActionSpec::IntegrationAccountArtifactLookup)
    } else if eq_ignoring_case(text, "JavaScriptCode") {
        Some(ActionSpec::JavaScriptCode)
    } else if eq_ignoring_case(text, "Join") {
        Some(ActionSpec::Join)
    } else if eq_ignoring_case(text, "Liquid") {
        Some(ActionSpec::Liquid)
    } else if eq_ignoring_case(text, "ParseJson") {
        Some(ActionSpec::ParseJson)
    } else if eq_ignoring_case(text, "PowershellCode") {
        Some(ActionSpec::PowershellCode)
    } else if eq_ignoring_case(text, "Query") {
        Some(ActionSpec::Query)
    } else if eq_ignoring_case(text, "Response") {
        Some(ActionSpec::Response)
    } else if eq_ignoring_case(text, "ServiceProvider") {
        Some(ActionSpec::ServiceProvider)
    } else if eq_ignoring_case(text, "Foreach") {
        Some(ActionSpec::Foreach)
    } else if eq_ignoring_case(text, "If") {
        Some(ActionSpec::If)
    } else if eq_ignoring_case(text, "Scope") {
        Some(ActionSpec::Scope)
    } else if eq_ignoring_case(text, "Switch") {
        Some(ActionSpec::Switch)
    } else if eq_ignoring_case(text, "Until") {
        Some(ActionSpec::Until)
    } else if eq_ignoring_case(text, "Select") {
        Some(ActionSpec::Select)
    } else if eq_ignoring_case(text, "Table") {
        Some(ActionSpec::Table)
    } else if eq_ignoring_case(text, "Terminate") {
        Some(ActionSpec::Terminate)
    } else if eq_ignoring_case(text, "AppendToArrayVariable") {
        Some(ActionSpec::AppendToArrayVariable)
    } else if eq_ignoring_case(text, "AppendToStringVariable") {
        Some(ActionSpec::AppendToStringVariable)
    } else if eq_ignoring_case(text, "Agent") {
        Some(ActionSpec::Agent)
    } else if eq_ignoring_case(text, "DecrementVariable") {
        Some(ActionSpec::DecrementVariable)
    } else if eq_ignoring_case(text, "IncrementVariable") {
        Some(ActionSpec::IncrementVariable)
    } else if eq_ignoring_case(text, "InitializeVariable") {
        Some(ActionSpec::InitializeVariable)
    } else if eq_ignoring_case(text, "SetVariable") {
        Some(ActionSpec::SetVariable)
    } else if eq_ignoring_case(text, "Wait") {
        Some(ActionSpec::Wait)
    } else if eq_ignoring_case(text, "Workflow") {
        Some(ActionSpec::Workflow)
    } else if eq_ignoring_case(text, "XmlValidation") {
        Some(ActionSpec::XmlValidation)
    } else if eq_ignoring_case(text, "Xslt") {
        Some(ActionSpec::Xslt)
    } else {
        None
    }
}

/// Look up the spec for a trigger type, whatever its case.
pub fn trigger_spec(text: &str) -> (spec: Option<TriggerSpec>)
    ensures
        spec == trigger_spec_of(text@),
{
    if eq_ignoring_case(text, "ApiConnection") {
        Some(TriggerSpec::ApiConnection)
    } else if eq_ignoring_case(text, "ApiConnectionWebhook") {
        Some(TriggerSpec::ApiConnectionWebhook)
    } else if eq_ignoring_case(text, "ApiManagement") {
        Some(TriggerSpec::ApiManagement)
    } else if eq_ignoring_case(text, "Batch") {
        Some(TriggerSpec::Batch)
    } else if eq_ignoring_case(text, "Http") {
        Some(TriggerSpec::Http)
    } else if eq_ignoring_case(text, "HttpWebhook") {
        Some(TriggerSpec::HttpWebhook)
    } else if eq_ignoring_case(text, "Recurrence") {
        Some(TriggerSpec::Recurrence)
    } else if eq_ignoring_case(text, "Request") {
        Some(TriggerSpec::Request)
    } else if eq_ignoring_case(text, "ServiceProvider") {
        Some(TriggerSpec::ServiceProvider)
    } else if eq_ignoring_case(text, "SlidingWindow") {
        Some(TriggerSpec::SlidingWindow)
    } else {
        None
    }
}

/// Whether an action type is registered.
pub fn known_action_type(text: &str) -> (holds: bool)
    ensures
        holds == (action_spec_of(text@) is Some),
{
    action_spec(text).is_some()
}

/// Whether a trigger type is registered.
pub fn known_trigger_type(text: &str) -> (holds: bool)
    ensures
        holds == (trigger_spec_of(text@) is Some),
{
    trigger_spec(text).is_some()
}

/// What is wrong with an action, by its type.
pub open spec fn typed_action_findings(
    spec: ActionSpec,
    action: &Node,
    pointer: Seq<char>,
    container: Seq<char>,
    action_type: Seq<char>,
    file: &Document,
    workflow: &Workflow,
) -> Seq<Finding> {
    match spec {
        ActionSpec::ApiConnection => api_connection_action_findings(
            action,
            pointer,
            file,
            workflow,
        ),
        ActionSpec::ApiConnectionWebhook => api_connection_webhook_action_findings(
            action,
            pointer,
            file,
            workflow,
        ),
        ActionSpec::ApiManagement => api_management_action_findings(
            action,
            pointer,
            file,
            workflow,
        ),
        ActionSpec::Batch => batch_action_findings(action, pointer, file),
        ActionSpec::SendToBatch => send_to_batch_action_findings(action, pointer, file),
        ActionSpec::Compose => compose_action_findings(action, pointer, file),
        ActionSpec::Expression => expression_action_findings(action, pointer, file),
        ActionSpec::FlatFileDecoding => flat_file_action_findings(action, pointer, file),
        ActionSpec::FlatFileEncoding => flat_file_action_findings(action, pointer, file),
        ActionSpec::Function => function_action_findings(action, pointer, file, workflow),
        ActionSpec::Http => http_action_findings(action, pointer, file, workflow),
        ActionSpec::HttpWebhook => http_webhook_action_findings(action, pointer, file, workflow),
        ActionSpec::IntegrationAccountArtifactLookup => artifact_lookup_action_findings(
            action,
            pointer,
            file,
        ),
        ActionSpec::JavaScriptCode => javascript_action_findings(action, pointer, file, workflow),
        ActionSpec::Join => join_action_findings(action, pointer, file),
        ActionSpec::Liquid => liquid_action_findings(action, pointer, file),
        ActionSpec::ParseJson => parse_json_action_findings(action, pointer, file),
        ActionSpec::PowershellCode => powershell_action_findings(action, pointer, file, workflow),
        ActionSpec::Query => query_action_findings(action, pointer, file),
        ActionSpec::Response => response_action_findings(action, pointer, file, workflow),
        ActionSpec::ServiceProvider => Seq::empty(),
        ActionSpec::Foreach => foreach_action_findings(action, pointer, file),
        ActionSpec::If => if_action_findings(action, pointer, file),
        ActionSpec::Scope => scope_action_findings(action, pointer, file),
        ActionSpec::Switch => switch_action_findings(action, pointer, file),
        ActionSpec::Until => until_action_findings(action, pointer, file, workflow),
        ActionSpec::Select => select_action_findings(action, pointer, file),
        ActionSpec::Table => table_action_findings(action, pointer, file),
        ActionSpec::Terminate => terminate_action_findings(action, pointer, file, workflow),
        ActionSpec::AppendToArrayVariable => variable_update_findings(
            action,
            pointer,
            action_type,
            file,
            workflow,
        ),
        ActionSpec::AppendToStringVariable => variable_update_findings(
            action,
            pointer,
            action_type,
            file,
            workflow,
        ),
        ActionSpec::Agent => Seq::empty(),
        ActionSpec::DecrementVariable => variable_update_findings(
            action,
            pointer,
            action_type,
            file,
            workflow,
        ),
        ActionSpec::IncrementVariable => variable_update_findings(
            action,
            pointer,
            action_type,
            file,
            workflow,
        ),
        ActionSpec::InitializeVariable => initialize_variable_findings(
            action,
            pointer,
            container,
            file,
        ),
        ActionSpec::SetVariable => variable_update_findings(
            action,
            pointer,
            action_type,
            file,
            workflow,
        ),
        ActionSpec::Wait => wait_action_findings(action, pointer, file),
        ActionSpec::Workflow => workflow_action_findings(action, pointer, file, workflow),
        ActionSpec::XmlValidation => xml_validation_action_findings(action, pointer, file),
        ActionSpec::Xslt => xslt_action_findings(action, pointer, file),
    }
}

/// Validate an action by its type.
pub fn validate_typed_action(
    spec: ActionSpec,
    action: &Node,
    pointer: &str,
    container: &str,
    action_type: &str,
    file: &Document,
    workflow: &Workflow,
    diagnostics: &mut Vec<Diagnostic>,
)
    ensures
        findings(final(diagnostics)@) == findings(old(diagnostics)@)
            + typed_action_findings(
                spec,
                action,
                pointer@,
                container@,
                action_type@,
                file,
                workflow,
            ),
{
    match spec {
        ActionSpec::ApiConnection => {
            validate_api_connection_action(action, pointer, file, workflow, diagnostics);
        },
        ActionSpec::ApiConnectionWebhook => {
            validate_api_connection_webhook_action(action, pointer, file, workflow, diagnostics);
        },
        ActionSpec::ApiManagement => {
            validate_api_management_action(action, pointer, file, workflow, diagnostics);
        },
        ActionSpec::Batch => {
            validate_batch_action(action, pointer, file, diagnostics);
        },
        ActionSpec::SendToBatch => {
            validate_send_to_batch_action(action, pointer, file, diagnostics);
        },
        ActionSpec::Compose => {
            validate_compose_action(action, pointer, file, diagnostics);
        },
        ActionSpec::Expression => {
            validate_expression_action(action, pointer, file, diagnostics);
        },
        ActionSpec::FlatFileDecoding => {
            validate_flat_file_action(action, pointer, file, diagnostics);
        },
        ActionSpec::FlatFileEncoding => {
            validate_flat_file_action(action, pointer, file, diagnostics);
        },
        ActionSpec::Function => {
            validate_function_action(action, pointer, file, workflow, diagnostics);
        },
        ActionSpec::Http => {
            validate_http_action(action, pointer, file, workflow, diagnostics);
        },
        ActionSpec::HttpWebhook => {
            validate_http_webhook_action(action, pointer, file, workflow, diagnostics);
        },
        ActionSpec::IntegrationAccountArtifactLookup => {
            validate_integration_account_artifact_lookup_action(action, pointer, file, diagnostics);
        },
        ActionSpec::JavaScriptCode => {
            validate_javascript_code_action(action, pointer, file, workflow, diagnostics);
        },
        ActionSpec::Join => {
            validate_join_action(action, pointer, file, diagnostics);
        },
        ActionSpec::Liquid => {
            validate_liquid_action(action, pointer, file, diagnostics);
        },
        ActionSpec::ParseJson => {
            validate_parse_json_action(action, pointer, file, diagnostics);
        },
        ActionSpec::PowershellCode => {
            validate_powershell_code_action(action, pointer, file, workflow, diagnostics);
        },
        ActionSpec::Query => {
            validate_query_action(action, pointer, file, diagnostics);
        },
        ActionSpec::Response => {
            validate_response_action(action, pointer, file, workflow, diagnostics);
        },
        ActionSpec::ServiceProvider => {},
        ActionSpec::Foreach => {
            validate_foreach_action(action, pointer, file, diagnostics);
        },
        ActionSpec::If => {
            validate_if_action(action, pointer, file, diagnostics);
        },
        ActionSpec::Scope => {
            validate_scope_action(action, pointer, file, diagnostics);
        },
        ActionSpec::Switch => {
            validate_switch_action(action, pointer, file, diagnostics);
        },
        ActionSpec::Until => {
            validate_until_action_with_workflow(action, pointer, file, workflow, diagnostics);
        },
        ActionSpec::Select => {
            validate_select_action(action, pointer, file, diagnostics);
        },
        ActionSpec::Table => {
            validate_table_action(action, pointer, file, diagnostics);
        },
        ActionSpec::Terminate => {
            validate_terminate_action(action, pointer, file, workflow, diagnostics);
        },
        ActionSpec::AppendToArrayVariable => {
            validate_variable_update_action(
                action,
                pointer,
                action_type,
                file,
                workflow,
                diagnostics,
            );
        },
        ActionSpec::AppendToStringVariable => {
            validate_variable_update_action(
                action,
                pointer,
                action_type,
                file,
                workflow,
                diagnostics,
            );
        },
        ActionSpec::Agent => {},
        ActionSpec::DecrementVariable => {
            validate_variable_update_action(
                action,
                pointer,
                action_type,
                file,
                workflow,
                diagnostics,
            );
        },
        ActionSpec::IncrementVariable => {
            validate_variable_update_action(
                action,
                pointer,
                action_type,
                file,
                workflow,
                diagnostics,
            );
        },
        ActionSpec::InitializeVariable => {
            validate_initialize_variable_action(action, pointer, container, file, diagnostics);
        },
        ActionSpec::SetVariable => {
            validate_variable_update_action(
                action,
                pointer,
                action_type,
                file,
                workflow,
                diagnostics,
            );
        },
        ActionSpec::Wait => {
            validate_wait_action(action, pointer, file, diagnostics);
        },
        ActionSpec::Workflow => {
            validate_workflow_action(action, pointer, file, workflow, diagnostics);
        },
        ActionSpec::XmlValidation => {
            validate_xml_validation_action(action, pointer, file, diagnostics);
        },
        ActionSpec::Xslt => {
            validate_xslt_action(action, pointer, file, diagnostics);
        },
    }
}

/// What is wrong with an action whose inputs are given, by its type.
pub open spec fn scoped_action_findings(
    spec: ActionSpec,
    action: &Node,
    inputs: &Node,
    pointer: Seq<char>,
    container: Seq<char>,
    action_type: Seq<char>,
    file: &Document,
    workflow: &Workflow,
) -> Seq<Finding> {
    let base = joined(pointer, "inputs"@);
    match spec {
        ActionSpec::ApiConnection => api_connection_action_inputs_findings(
            inputs,
            base,
            file,
            workflow,
        ),
        ActionSpec::ApiConnectionWebhook => api_connection_webhook_action_inputs_findings(
            inputs,
            base,
            file,
            workflow,
        ),
        ActionSpec::ApiManagement => api_management_action_inputs_findings(
            inputs,
            base,
            file,
            workflow,
        ),
        ActionSpec::SendToBatch => send_to_batch_action_inputs_findings(inputs, base, file),
        ActionSpec::Function => function_action_inputs_findings(inputs, base, file, workflow),
        ActionSpec::Http => http_action_inputs_findings(inputs, base, file, workflow),
        ActionSpec::HttpWebhook => http_webhook_action_inputs_findings(
            inputs,
            base,
            file,
            workflow,
        ),
        ActionSpec::Join => join_action_inputs_findings(inputs, base, file),
        ActionSpec::Response => response_placement_findings(action, pointer, file, workflow)
            + response_action_inputs_findings(inputs, base, file, workflow),
        ActionSpec::AppendToArrayVariable => variable_update_inputs_findings(
            inputs,
            base,
            action_type,
            file,
            workflow,
        ),
        ActionSpec::AppendToStringVariable => variable_update_inputs_findings(
            inputs,
            base,
            action_type,
            file,
            workflow,
        ),
        ActionSpec::DecrementVariable => variable_update_inputs_findings(
            inputs,
            base,
            action_type,
            file,
            workflow,
        ),
        ActionSpec::IncrementVariable => variable_update_inputs_findings(
            inputs,
            base,
            action_type,
            file,
            workflow,
        ),
        ActionSpec::InitializeVariable => container_findings(action, pointer, container, file)
            + initialized_findings(inputs, base, file),
        ActionSpec::SetVariable => variable_update_inputs_findings(
            inputs,
            base,
            action_type,
            file,
            workflow,
        ),
        ActionSpec::Workflow => workflow_action_inputs_findings(inputs, base, file, workflow),
        _ => Seq::empty(),
    }
}

fn validate_scoped_action(
    spec: ActionSpec,
    action: &Node,
    inputs: &Node,
    pointer: &str,
    container: &str,
    action_type: &str,
    file: &Document,
    workflow: &Workflow,
    diagnostics: &mut Vec<Diagnostic>,
)
    ensures
        findings(final(diagnostics)@) == findings(old(diagnostics)@)
            + scoped_action_findings(
                spec,
                action,
                inputs,
                pointer@,
                container@,
                action_type@,
                file,
                workflow,
            ),
{
    let base_text = pointer_join(pointer, "inputs");
    let base = base_text.as_str();
    match spec {
        ActionSpec::ApiConnection => {
            validate_api_connection_action_inputs(inputs, base, file, workflow, diagnostics);
        },
        ActionSpec::ApiConnectionWebhook => {
            validate_api_connection_webhook_action_inputs(
                inputs,
                base,
                file,
                workflow,
                diagnostics,
            );
        },
        ActionSpec::ApiManagement => {
            validate_api_management_action_inputs(inputs, base, file, workflow, diagnostics);
        },
        ActionSpec::SendToBatch => {
            validate_send_to_batch_action_inputs(inputs, base, file, diagnostics);
        },
        ActionSpec::Function => {
            validate_function_action_inputs(inputs, base, file, workflow, diagnostics);
        },
        ActionSpec::Http => {
            validate_http_action_inputs(inputs, base, file, workflow, diagnostics);
        },
        ActionSpec::HttpWebhook => {
            validate_http_webhook_action_inputs(inputs, base, file, workflow, diagnostics);
        },
        ActionSpec::Join => {
            validate_join_action_inputs(inputs, base, file, diagnostics);
        },
        ActionSpec::Response => {
            validate_response_placement(action, pointer, file, workflow, diagnostics);
            validate_response_action_inputs(inputs, base, file, workflow, diagnostics);
        },
        ActionSpec::AppendToArrayVariable => {
            validate_variable_update_inputs(inputs, base, action_type, file, workflow, diagnostics);
        },
        ActionSpec::AppendToStringVariable => {
            validate_variable_update_inputs(inputs, base, action_type, file, workflow, diagnostics);
        },
        ActionSpec::DecrementVariable => {
            validate_variable_update_inputs(inputs, base, action_type, file, workflow, diagnostics);
        },
        ActionSpec::IncrementVariable => {
            validate_variable_update_inputs(inputs, base, action_type, file, workflow, diagnostics);
        },
        ActionSpec::InitializeVariable => {
            validate_container(action, pointer, container, file, diagnostics);
            validate_initialized_variables(inputs, base, file, diagnostics);
        },
        ActionSpec::SetVariable => {
            validate_variable_update_inputs(inputs, base, action_type, file, workflow, diagnostics);
        },
        ActionSpec::Workflow => {
            validate_workflow_action_inputs(inputs, base, file, workflow, diagnostics);
        },
        _ => {},
    }
}

pub open spec fn scoped_input_names() -> Seq<Seq<char>> {
    seq![
        "ApiConnection"@,
        "ApiConnectionWebhook"@,
        "ApiManagement"@,
        "Function"@,
        "Http"@,
        "HttpWebhook"@,
        "Join"@,
        "Response"@,
        "SendToBatch"@,
        "AppendToArrayVariable"@,
        "AppendToStringVariable"@,
        "DecrementVariable"@,
        "InitializeVariable"@,
        "IncrementVariable"@,
        "SetVariable"@,
        "Workflow"@,
    ]
}

fn scoped_input_list() -> (list: Vec<&'static str>)
    ensures
        names(list@) == scoped_input_names(),
{
    let list = vec![
        "ApiConnection",
        "ApiConnectionWebhook",
        "ApiManagement",
        "Function",
        "Http",
        "HttpWebhook",
        "Join",
        "Response",
        "SendToBatch",
        "AppendToArrayVariable",
        "AppendToStringVariable",
        "DecrementVariable",
        "InitializeVariable",
        "IncrementVariable",
        "SetVariable",
        "Workflow",
    ];
    assert(names(list@) =~= scoped_input_names());
    list
}

/// What a node becomes once template expressions in scope are resolved: the
/// value of an expression, or an object with its nested expressions resolved.
pub open spec fn scoped_value(file: &Document, value: &Node, scope: &ArmScope) -> Option<Node> {
    if is_opaque(file, value) {
        resolved(file, value, scope)
    } else {
        rewritten_at(scope.rewritten@, value.span)
    }
}

/// Resolve the expressions of a node.
pub fn materialized_value<'a>(
    file: &Document,
    value: &Node,
    scope: &'a ArmScope,
) -> (found: Option<&'a Node>)
    ensures
        node_in(found) == scoped_value(file, value, scope),
{
    if is_opaque_arm_expression(file, value) {
        static_json_value_from_spanned_with_scope(file, value, scope)
    } else {
        scope.rewriting(value.span)
    }
}

/// The inputs that an action is checked with in place of its own, where its
/// type asks for an inputs object.
pub open spec fn scoped_inputs(
    action: &Node,
    action_type: Seq<char>,
    file: &Document,
    scope: &ArmScope,
) -> Option<Node> {
    if one_of(action_type, scoped_input_names()) {
        match field(action, "inputs"@) {
            Some(inputs) => scoped_value(file, &inputs, scope),
            None => None,
        }
    } else {
        None
    }
}

/// What is wrong with an action. Inputs that template expressions supply are
/// checked in their resolved form, and reported where they were written.
pub open spec fn action_findings(
    spec: ActionSpec,
    action: &Node,
    pointer: Seq<char>,
    container: Seq<char>,
    action_type: Seq<char>,
    file: &Document,
    workflow: &Workflow,
    scope: &ArmScope,
) -> Seq<Finding> {
    match (field(action, "inputs"@), scoped_inputs(action, action_type, file, scope)) {
        (Some(inputs), Some(value)) => if value.kind is Object {
            respanned(
                scoped_action_findings(
                    spec,
                    action,
                    &value,
                    pointer,
                    container,
                    action_type,
                    file,
                    workflow,
                ),
                Some(inputs.span),
            )
        } else {
            wrong_type(
                file,
                pointer,
                "inputs"@,
                inputs.span,
                "action field 'inputs' must be an object"@,
            )
        },
        _ => typed_action_findings(spec, action, pointer, container, action_type, file, workflow),
    }
}

/// Validate an action with its inputs resolved; `false` where nothing resolves.
fn validate_with_scoped_inputs(
    spec: ActionSpec,
    action: &Node,
    pointer: &str,
    container: &str,
    action_type: &str,
    file: &Document,
    workflow: &Workflow,
    scope: &ArmScope,
    diagnostics: &mut Vec<Diagnostic>,
) -> (done: bool)
    ensures
        done == (scoped_inputs(action, action_type@, file, scope) is Some),
        findings(final(diagnostics)@) == findings(old(diagnostics)@) + (if done {
            action_findings(spec, action, pointer@, container@, action_type@, file, workflow, scope)
        } else {
            Seq::empty()
        }),
{
    if !in_list(action_type, scoped_input_list().as_slice()) {
        return false;
    }
    match get(action, "inputs") {
        None => false,
        Some(inputs) => match materialized_value(file, inputs, scope) {
            None => false,
            Some(value) => {
                if !value.is_object() {
                    report_type(
                        file,
                        pointer,
                        "inputs",
                        inputs.span,
                        "action field 'inputs' must be an object",
                        diagnostics,
                    );
                    return true;
                }
                let mut found: Vec<Diagnostic> = Vec::new();
                proof {
                    lemma_findings_index(found@);
                    assert(findings(found@) =~= Seq::<Finding>::empty());
                }
                validate_scoped_action(
                    spec,
                    action,
                    value,
                    pointer,
                    container,
                    action_type,
                    file,
                    workflow,
                    &mut found,
                );
                extend_with_span(diagnostics, &found, Some(inputs.span));
                true
            },
        },
    }
}

/// Validate an action.
pub fn validate_action(
    spec: ActionSpec,
    action: &Node,
    pointer: &str,
    container: &str,
    action_type: &str,
    file: &Document,
    workflow: &Workflow,
    scope: &ArmScope,
    diagnostics: &mut Vec<Diagnostic>,
)
    ensures
        findings(final(diagnostics)@) == findings(old(diagnostics)@)
            + action_findings(
                spec,
                action,
                pointer@,
                container@,
                action_type@,
                file,
                workflow,
                scope,
            ),
{
    if !validate_with_scoped_inputs(
        spec,
        action,
        pointer,
        container,
        action_type,
        file,
        workflow,
        scope,
        diagnostics,
    ) {
        validate_typed_action(
            spec,
            action,
            pointer,
            container,
            action_type,
            file,
            workflow,
            diagnostics,
        );
    }
}

/// What is wrong with a trigger, by its type, given its inputs and recurrence.
pub open spec fn typed_trigger_findings(
    spec: TriggerSpec,
    trigger: &Node,
    given: Option<Node>,
    recurrence: Option<Node>,
    pointer: Seq<char>,
    file: &Document,
    workflow: &Workflow,
) -> Seq<Finding> {
    match spec {
        TriggerSpec::ApiConnection => api_connection_trigger_findings(
            trigger,
            given,
            recurrence,
            pointer,
            file,
            workflow,
        ),
        TriggerSpec::ApiConnectionWebhook => api_connection_trigger_findings(
            trigger,
            given,
            recurrence,
            pointer,
            file,
            workflow,
        ),
        TriggerSpec::ApiManagement => api_management_trigger_findings(trigger, given, pointer, file)
            + optional_recurrence_findings(trigger, recurrence, pointer, file),
        TriggerSpec::Batch => batch_trigger_findings(trigger, given, pointer, file, workflow),
        TriggerSpec::Http => http_trigger_findings(trigger, given, recurrence, pointer, file),
        TriggerSpec::HttpWebhook => http_webhook_trigger_findings(
            trigger,
            given,
            pointer,
            file,
            workflow,
        ),
        TriggerSpec::Recurrence => recurrence_findings(trigger, recurrence, pointer, file),
        TriggerSpec::Request => request_trigger_findings(trigger, given, pointer, file),
        TriggerSpec::ServiceProvider => Seq::empty(),
        TriggerSpec::SlidingWindow => sliding_window_trigger_findings(
            trigger,
            given,
            recurrence,
            pointer,
            file,
        ),
    }
}

/// Validate a trigger by its type, given its inputs and recurrence.
pub fn validate_typed_trigger(
    spec: TriggerSpec,
    trigger: &Node,
    given: Option<&Node>,
    recurrence: Option<&Node>,
    pointer: &str,
    file: &Document,
    workflow: &Workflow,
    diagnostics: &mut Vec<Diagnostic>,
)
    ensures
        findings(final(diagnostics)@) == findings(old(diagnostics)@)
            + typed_trigger_findings(
                spec,
                trigger,
                node_in(given),
                node_in(recurrence),
                pointer@,
                file,
                workflow,
            ),
{
    match spec {
        TriggerSpec::ApiConnection => {
            validate_api_connection_trigger(
                trigger,
                given,
                recurrence,
                pointer,
                file,
                workflow,
                diagnostics,
            );
        },
        TriggerSpec::ApiConnectionWebhook => {
            validate_api_connection_trigger(
                trigger,
                given,
                recurrence,
                pointer,
                file,
                workflow,
                diagnostics,
            );
        },
        TriggerSpec::ApiManagement => {
            validate_api_management_trigger(trigger, given, pointer, file, diagnostics);
            validate_optional_recurrence(trigger, recurrence, pointer, file, diagnostics);
        },
        TriggerSpec::Batch => {
            validate_batch_trigger(trigger, given, pointer, file, workflow, diagnostics);
        },
        TriggerSpec::Http => {
            validate_http_trigger(trigger, given, recurrence, pointer, file, diagnostics);
        },
        TriggerSpec::HttpWebhook => {
            validate_http_webhook_trigger(trigger, given, pointer, file, workflow, diagnostics);
        },
        TriggerSpec::Recurrence => {
            validate_recurrence_trigger(trigger, recurrence, pointer, file, diagnostics);
        },
        TriggerSpec::Request => {
            validate_request_trigger(trigger, given, pointer, file, diagnostics);
        },
        TriggerSpec::ServiceProvider => {},
        TriggerSpec::SlidingWindow => {
            validate_sliding_window_trigger(trigger, given, recurrence, pointer, file, diagnostics);
        },
    }
}
} // verus!
