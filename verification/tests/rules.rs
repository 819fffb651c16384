use logicapps_lint::arm::{unevaluated_scope, ArmScope};
use logicapps_lint::json::{Document, JsonFile, Node};
use logicapps_lint::shape::check::check_definition;
use logicapps_lint::workflow::locate_definitions;
use logicapps_lint::Diagnostic;

const SCHEMA: &str = "https://schema.management.azure.com/providers/Microsoft.Logic/schemas/2016-06-01/workflowdefinition.json#";

fn parse(text: &str) -> Node {
    match JsonFile::parse("workflow.json", text) {
        Ok(file) => file.value,
        Err(error) => panic!("{}", error.message()),
    }
}

fn check(value: &Node, scope: &ArmScope) -> Vec<Diagnostic> {
    let finite_numbers = Vec::new();
    let document = Document {
        path: "workflow.json",
        value,
        arm: scope,
        finite_numbers: &finite_numbers,
        clock: Some(1_751_587_200),
    };
    let mut found = Vec::new();
    for located in locate_definitions(value) {
        found.extend(check_definition(
            &document,
            located.definition,
            &located.pointer,
            &located.kind,
            scope,
            &Vec::new(),
            false,
        ));
    }
    found
}

fn lint(text: &str) -> Vec<Diagnostic> {
    let value = parse(text);
    let scope = unevaluated_scope(&value);
    check(&value, &scope)
}

fn definition(triggers: &str, actions: &str) -> String {
    format!(
        "{{\"$schema\": \"{SCHEMA}\", \"contentVersion\": \"1.0.0.0\", \"triggers\": {triggers}, \"actions\": {actions}}}"
    )
}

const MANUAL: &str = "{\"manual\": {\"type\": \"Request\", \"kind\": \"Http\", \"inputs\": {}}}";

fn lint_actions(actions: &str) -> Vec<Diagnostic> {
    lint(&definition(MANUAL, actions))
}

fn lint_trigger(trigger: &str) -> Vec<Diagnostic> {
    lint(&definition(&format!("{{\"t\": {trigger}}}"), "{}"))
}

fn lines(found: &[Diagnostic]) -> Vec<String> {
    found
        .iter()
        .map(|one| format!("{} {} {}", one.code, one.pointer, one.message))
        .collect()
}


#[test]
fn action_until_rules() {
    let found = lint_actions(
        r#"{"U": {"type": "Until", "expression": 1, "limit": {"count": 5001, "timeout": "1 hour"}, "actions": {}}}"#,
    );
    assert_eq!(
        lines(&found),
        vec![
            "workflow-shape-invalid-type /actions/U/expression Until expression must be a string",
            "workflow-shape-invalid-value /actions/U/limit/count Until limit.count value 5001 is out of range",
            "workflow-shape-invalid-value /actions/U/limit/timeout Until limit.timeout must be an ISO 8601 duration",
            "workflow-shape-invalid-value /actions/U/limit/timeout action limit.timeout must be an ISO 8601 duration",
        ]
    );
}

#[test]
fn action_foreach_rules() {
    let found = lint_actions(
        r#"{"F": {"type": "Foreach", "foreach": 5, "actions": []}}"#,
    );
    assert_eq!(
        lines(&found),
        vec![
            "workflow-shape-invalid-type /actions/F/foreach Foreach.foreach must be a string or array",
            "workflow-shape-invalid-type /actions/F/actions action field 'actions' must be an object",
            "workflow-shape-invalid-type /actions/F/actions actions must be an object",
        ]
    );
}

#[test]
fn action_wait_rules() {
    let found = lint_actions(
        r#"{"W": {"type": "Wait", "inputs": {"interval": {"count": 0, "unit": "Fortnight"}, "until": {"timestamp": "x"}}}, "V": {"type": "Wait", "inputs": {}}}"#,
    );
    assert_eq!(
        lines(&found),
        vec![
            "workflow-shape-missing-field /actions/V/inputs Wait inputs must define 'interval' or 'until'",
            "workflow-shape-invalid-shape /actions/W/inputs Wait inputs must define only one of 'interval' or 'until'",
            "workflow-shape-invalid-value /actions/W/inputs/interval/unit Wait inputs.interval.unit 'Fortnight' is not supported",
        ]
    );
}

#[test]
fn action_retry_rules() {
    let found = lint_actions(
        r#"{"H": {"type": "Http", "inputs": {"method": "FETCH", "uri": "ftp:/x y", "retryPolicy": {"type": "fixed", "count": 91, "interval": "PT1S"}}}, "G": {"type": "Http", "inputs": {"method": "GET", "uri": "https://e.com", "retryPolicy": {"type": "exponential", "count": 2, "interval": "PT20S", "minimumInterval": "PT1H", "maximumInterval": "PT30M"}}}}"#,
    );
    assert_eq!(
        lines(&found),
        vec![
            "workflow-shape-invalid-value /actions/G/inputs/retryPolicy/minimumInterval Http inputs.retryPolicy.minimumInterval must be less than or equal to maximumInterval",
            "workflow-shape-invalid-value /actions/H/inputs/method Http inputs.method 'FETCH' is not supported",
            "workflow-shape-invalid-value /actions/H/inputs/uri Http inputs.uri must be an HTTP or HTTPS URL",
            "workflow-shape-invalid-value /actions/H/inputs/retryPolicy/count Http inputs.retryPolicy.count value 91 is out of range",
            "workflow-shape-invalid-value /actions/H/inputs/retryPolicy/interval Http inputs.retryPolicy.interval must be within the supported retry interval range",
        ]
    );
}

#[test]
fn action_variables_rules() {
    let found = lint_actions(
        r#"{"I": {"type": "InitializeVariable", "inputs": {"variables": [{"name": 1, "type": "text"}, {"type": "string", "value": 1}]}}, "S": {"type": "SetVariable", "inputs": {}}, "N": {"type": "IncrementVariable", "inputs": {"name": "v", "value": "x"}}}"#,
    );
    assert_eq!(
        lines(&found),
        vec![
            "workflow-shape-invalid-type /actions/I/inputs/variables/0/name InitializeVariable variable name must be a string",
            "workflow-shape-invalid-value /actions/I/inputs/variables/0/type InitializeVariable variable type 'text' is not supported",
            "workflow-shape-missing-field /actions/I/inputs/variables/1/name object is missing required field 'name'",
            "workflow-shape-invalid-type /actions/N/inputs/value IncrementVariable inputs.value must be a number or expression string",
            "workflow-shape-missing-field /actions/S/inputs/name object is missing required field 'name'",
            "workflow-shape-missing-field /actions/S/inputs/value object is missing required field 'value'",
        ]
    );
}

#[test]
fn action_join_rules() {
    let found = lint_actions(
        r#"{"J": {"type": "Join", "inputs": {"from": 1}}, "Q": {"type": "Query", "inputs": {"from": "x", "where": 1}}, "T": {"type": "Table", "inputs": {"from": [], "format": "XLS", "columns": [{}]}}, "L": {"type": "Select", "inputs": {}}, "P": {"type": "ParseJson", "inputs": {"content": 1}}}"#,
    );
    assert_eq!(
        lines(&found),
        vec![
            "workflow-shape-invalid-type /actions/J/inputs/from Join inputs.from must be a string or array",
            "workflow-shape-missing-field /actions/J/inputs/joinWith object is missing required field 'joinWith'",
            "workflow-shape-missing-field /actions/L/inputs/from object is missing required field 'from'",
            "workflow-shape-missing-field /actions/L/inputs/select object is missing required field 'select'",
            "workflow-shape-missing-field /actions/P/inputs/schema action is missing required object field 'schema'",
            "workflow-shape-invalid-type /actions/Q/inputs/where Query inputs.where must be a string",
            "workflow-shape-invalid-value /actions/T/inputs/format Table inputs.format 'XLS' is not supported",
            "workflow-shape-missing-field /actions/T/inputs/columns/0/header object is missing required field 'header'",
            "workflow-shape-missing-field /actions/T/inputs/columns/0/value object is missing required field 'value'",
        ]
    );
}

#[test]
fn action_terminate_rules() {
    let found = lint_actions(
        r#"{"T": {"type": "Terminate", "inputs": {"runStatus": "Done"}}, "U": {"type": "Terminate", "inputs": {"runStatus": "Failed"}}, "V": {"type": "Terminate", "inputs": {"runStatus": "Cancelled", "runError": {"code": 1}}}}"#,
    );
    assert_eq!(
        lines(&found),
        vec![
            "workflow-shape-invalid-value /actions/T/inputs/runStatus Terminate inputs.runStatus 'Done' is not supported",
            "workflow-shape-invalid-context /actions/V/inputs/runError Terminate inputs.runError can only be used when runStatus is Failed",
            "workflow-shape-missing-field /actions/V/inputs/runError/message object is missing required field 'message'",
        ]
    );
}

#[test]
fn action_response_rules() {
    let found = lint_actions(
        r#"{"R": {"type": "Response", "inputs": {"statusCode": "abc"}}, "S": {"type": "Response", "inputs": {}}}"#,
    );
    assert_eq!(
        lines(&found),
        vec![
            "workflow-shape-invalid-context /actions/R/runAfter Response action cannot be placed in a parallel branch after 'S'",
            "workflow-shape-invalid-type /actions/R/inputs/statusCode Response inputs.statusCode must be an HTTP status code or expression string",
            "workflow-shape-invalid-context /actions/S/runAfter Response action cannot be placed in a parallel branch after 'R'",
            "workflow-shape-missing-field /actions/S/inputs/statusCode object is missing required field 'statusCode'",
        ]
    );
}

#[test]
fn action_switch_rules() {
    let found = lint_actions(
        r#"{"S": {"type": "Switch", "expression": [], "cases": {"a": {"case": "x"}, "b": {"case": "x", "actions": {}}, "c": {"actions": {}}, "d": {"case": "@{y}", "actions": {}}}}}"#,
    );
    assert_eq!(
        lines(&found),
        vec![
            "workflow-shape-invalid-type /actions/S/expression Switch expression must be a string or number",
            "workflow-shape-invalid-value /actions/S/cases/b/case Switch case value duplicates case 'a'",
            "workflow-shape-missing-field /actions/S/cases/c/case action is missing required field 'case'",
            "workflow-shape-invalid-value /actions/S/cases/d/case Switch case values must be static",
        ]
    );
}

#[test]
fn action_if_rules() {
    let found = lint_actions(
        r#"{"I": {"type": "If", "expression": {"and": [{"equals": [1]}, {"nope": []}]}, "actions": {}, "else": []}}"#,
    );
    assert_eq!(
        lines(&found),
        vec![
            "workflow-shape-missing-field /actions/I/else/actions action is missing required object field 'actions'",
        ]
    );
}

#[test]
fn action_connector_rules() {
    let found = lint_actions(
        r#"{"C": {"type": "ApiConnection", "inputs": {"host": {"connection": {}}, "method": "get", "path": 1}}, "F": {"type": "Function", "inputs": {}}, "M": {"type": "ApiManagement", "inputs": {"api": {}}}}"#,
    );
    assert_eq!(
        lines(&found),
        vec![
            "workflow-shape-missing-field /actions/C/inputs/host/connection/name ApiConnection inputs.host.connection must define name, id, or referenceName",
            "workflow-shape-invalid-type /actions/C/inputs/path ApiConnection inputs.path must be a string",
            "workflow-shape-missing-field /actions/F/inputs/function Function inputs must define uri, function, or functionApp",
            "workflow-shape-missing-field /actions/M/inputs/pathTemplate object is missing required field 'pathTemplate'",
        ]
    );
}

#[test]
fn action_options_rules() {
    let found = lint_actions(
        r#"{"A": {"type": "Compose", "inputs": 1, "operationOptions": "Nope"}, "B": {"type": "Http", "inputs": {"method": "GET", "uri": "https://e.com"}, "operationOptions": "DisableAsyncPattern, DisableAutomaticDecompression", "limit": {"timeout": "bad"}}, "C": {"type": "Compose", "inputs": 1, "operationOptions": 5}}"#,
    );
    assert_eq!(
        lines(&found),
        vec![
            "workflow-shape-invalid-value /actions/A/operationOptions action operationOptions 'Nope' is not supported",
            "workflow-shape-invalid-value /actions/B/operationOptions action operationOptions 'DisableAutomaticDecompression' is not supported",
            "workflow-shape-invalid-value /actions/B/limit/timeout action limit.timeout must be an ISO 8601 duration",
            "workflow-shape-invalid-type /actions/C/operationOptions action operationOptions must be a string",
        ]
    );
}

#[test]
fn action_tracked_rules() {
    let found = lint_actions(
        r#"{"A": {"type": "Compose", "inputs": 1, "trackedProperties": 1, "metadata": 2, "description": 3, "correlation": {"clientTrackingId": 1}}}"#,
    );
    assert_eq!(
        lines(&found),
        vec![
            "workflow-shape-invalid-type /actions/A/description action description must be a string",
            "workflow-shape-invalid-type /actions/A/trackedProperties action trackedProperties must be an object",
        ]
    );
}

#[test]
fn action_js_rules() {
    let found = lint_actions(
        r#"{"J": {"type": "JavaScriptCode", "inputs": {"code": 1, "explicitDependencies": {"actions": ["none", 1], "includeTrigger": "x"}}}}"#,
    );
    assert_eq!(
        lines(&found),
        vec![
            "workflow-shape-invalid-type /actions/J/inputs/code JavaScriptCode inputs.code must be a string",
            "unknown-action-reference /actions/J/inputs/explicitDependencies/actions/0 JavaScriptCode inputs.explicitDependencies.actions references missing action 'none'",
            "workflow-shape-invalid-type /actions/J/inputs/explicitDependencies/actions/1 JavaScriptCode inputs.explicitDependencies.actions entries must be strings",
            "workflow-shape-invalid-type /actions/J/inputs/explicitDependencies/includeTrigger JavaScriptCode inputs.explicitDependencies.includeTrigger must be a boolean",
        ]
    );
}

#[test]
fn trigger_request_rules() {
    let found = lint_trigger(
        r#"{"type": "Request", "kind": "Polling", "inputs": {"method": "TRACE", "relativePath": 1, "schema": 2}}"#,
    );
    assert_eq!(
        lines(&found),
        vec![
            "workflow-shape-invalid-type /triggers/t/inputs/relativePath Request trigger inputs.relativePath must be a string",
            "workflow-shape-invalid-value /triggers/t/kind trigger kind 'Polling' is not supported",
        ]
    );
}

#[test]
fn trigger_sliding_rules() {
    let found = lint_trigger(
        r#"{"type": "SlidingWindow", "inputs": {"delay": "x"}, "recurrence": {"frequency": "Month", "interval": 1}}"#,
    );
    assert_eq!(
        lines(&found),
        vec![
            "workflow-shape-invalid-value /triggers/t/inputs/delay SlidingWindow trigger inputs.delay must be an ISO 8601 duration",
        ]
    );
}

#[test]
fn trigger_schedule_rules() {
    let found = lint_trigger(
        r#"{"type": "Recurrence", "recurrence": {"frequency": "Week", "interval": 1, "timeZone": "Nowhere", "schedule": {"hours": [24, "x"], "minutes": "0", "weekDays": ["Monday", "Funday"], "monthDays": [1]}}}"#,
    );
    assert_eq!(
        lines(&found),
        vec![
            "workflow-shape-invalid-value /triggers/t/recurrence/timeZone Recurrence timeZone 'Nowhere' is not a supported Windows time zone",
            "workflow-shape-invalid-context /triggers/t/recurrence/schedule/monthDays Recurrence schedule.monthDays is only supported when frequency is Month",
            "workflow-shape-invalid-value /triggers/t/recurrence/schedule/weekDays/1 Recurrence schedule.weekDays value 'Funday' is not supported",
            "workflow-shape-invalid-type /triggers/t/recurrence/schedule/minutes Recurrence schedule.minutes must be an array",
            "workflow-shape-invalid-value /triggers/t/recurrence/schedule/hours/0 Recurrence schedule.hours value 24 is out of range",
            "workflow-shape-invalid-type /triggers/t/recurrence/schedule/hours/1 Recurrence schedule.hours entries must be integers or integer strings",
        ]
    );
}

#[test]
fn trigger_batch_rules() {
    let found = lint_trigger(
        r#"{"type": "Batch", "inputs": {"mode": "None", "configurations": {}}}"#,
    );
    assert_eq!(
        lines(&found),
        vec![
            "workflow-shape-invalid-value /triggers/t/inputs/mode Batch inputs.mode 'None' is not supported",
        ]
    );
}

#[test]
fn trigger_webhook_rules() {
    let found = lint_trigger(
        r#"{"type": "HttpWebhook", "inputs": {"subscribe": {"method": "POST"}, "unsubscribe": 1}}"#,
    );
    assert_eq!(
        lines(&found),
        vec![
            "workflow-shape-missing-field /triggers/t/inputs/subscribe/uri object is missing required field 'uri'",
            "workflow-shape-invalid-type /triggers/t/inputs/unsubscribe webhook unsubscribe must be an object or string",
        ]
    );
}

#[test]
fn trigger_apiconn_rules() {
    let found = lint_trigger(
        r#"{"type": "ApiConnection", "inputs": {"host": {"connection": {"name": "x"}}, "method": "get", "path": "/x"}}"#,
    );
    assert_eq!(
        lines(&found),
        vec![
            "workflow-shape-missing-field /triggers/t/recurrence Recurrence trigger is missing required object field 'recurrence'",
        ]
    );
}

#[test]
fn action_runtime_rules() {
    let found = lint_actions(
        r#"{"A": {"type": "Compose", "inputs": 1, "runtimeConfiguration": {"concurrency": {"repetitions": 51, "runs": 1}, "maximumWaitingRuns": 5, "paginationPolicy": {"minimumItemCount": 0}}}}"#,
    );
    assert_eq!(
        lines(&found),
        vec![
            "workflow-shape-invalid-context /actions/A/runtimeConfiguration/concurrency/runs action runtimeConfiguration.concurrency.runs is only supported on triggers",
            "workflow-shape-invalid-value /actions/A/runtimeConfiguration/concurrency/repetitions action runtimeConfiguration.concurrency.repetitions value 51 is out of range",
            "workflow-shape-invalid-context /actions/A/runtimeConfiguration/concurrency/repetitions action runtimeConfiguration.concurrency.repetitions is only supported on Foreach actions",
            "workflow-shape-invalid-context /actions/A/runtimeConfiguration/maximumWaitingRuns action runtimeConfiguration.maximumWaitingRuns must be under runtimeConfiguration.concurrency",
            "workflow-shape-invalid-type /actions/A/runtimeConfiguration/paginationPolicy/minimumItemCount action runtimeConfiguration.paginationPolicy.minimumItemCount must be a positive integer",
        ]
    );
}

#[test]
fn tracked_properties_are_measured_in_compact_form() {
    let found = |length: usize| {
        let text = "x".repeat(length);
        lines(&lint_actions(&format!(
            "{{\"A\": {{\"type\": \"Compose\", \"inputs\": 1, \"trackedProperties\": {{   \"a\"  :   \"{text}\"   }}}}}}"
        )))
    };
    assert_eq!(found(7992), Vec::<String>::new());
    assert_eq!(
        found(7993),
        vec!["workflow-shape-invalid-value /actions/A/trackedProperties action trackedProperties exceeds the 8000 character limit"]
    );
}
