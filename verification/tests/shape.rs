use logicapps_lint::arm::{unevaluated_scope, ArmExpression, ArmScope};
use logicapps_lint::json::{Document, Json, JsonFile, Node};
use logicapps_lint::shape::check::check_definition;
use logicapps_lint::shape::root::{
    shape_diagnostics, workflow_content_version_supported, workflow_kind_pointer,
    workflow_schema_supported,
};
use logicapps_lint::workflow::{extract_definition, locate_definitions};
use logicapps_lint::{Diagnostic, Severity};

const SCHEMA: &str = "https://schema.management.azure.com/providers/Microsoft.Logic/schemas/2016-06-01/workflowdefinition.json#";

fn parse(text: &str) -> Node {
    match JsonFile::parse("workflow.json", text) {
        Ok(file) => file.value,
        Err(error) => panic!("{}", error.message()),
    }
}

fn check(value: &Node, scope: &ArmScope) -> Vec<Diagnostic> {
    let finite_numbers = Vec::new();
    let document = Document {
        path: "workflow.json",
        value,
        arm: scope,
        finite_numbers: &finite_numbers,
        clock: Some(1_751_587_200),
    };
    let mut found = Vec::new();
    for located in locate_definitions(value) {
        found.extend(check_definition(
            &document,
            located.definition,
            &located.pointer,
            &located.kind,
            scope,
            &Vec::new(),
            false,
        ));
    }
    found
}

fn lint(text: &str) -> Vec<Diagnostic> {
    let value = parse(text);
    let scope = unevaluated_scope(&value);
    check(&value, &scope)
}

fn definition(triggers: &str, actions: &str) -> String {
    format!(
        "{{\"$schema\": \"{SCHEMA}\", \"contentVersion\": \"1.0.0.0\", \"triggers\": {triggers}, \"actions\": {actions}}}"
    )
}

const MANUAL: &str = "{\"manual\": {\"type\": \"Request\", \"kind\": \"Http\", \"inputs\": {}}}";

fn lint_actions(actions: &str) -> Vec<Diagnostic> {
    lint(&definition(MANUAL, actions))
}

fn lint_trigger(trigger: &str) -> Vec<Diagnostic> {
    lint(&definition(&format!("{{\"t\": {trigger}}}"), "{}"))
}

fn lines(found: &[Diagnostic]) -> Vec<String> {
    found
        .iter()
        .map(|one| format!("{} {} {}", one.code, one.pointer, one.message))
        .collect()
}

#[test]
fn a_plain_workflow_has_no_findings() {
    let found = lint_actions(
        "{\"A\": {\"type\": \"Compose\", \"inputs\": \"x\", \"runAfter\": {}}, \
          \"B\": {\"type\": \"Compose\", \"inputs\": 1, \"runAfter\": {\"A\": [\"Succeeded\"]}}}",
    );
    assert_eq!(lines(&found), Vec::<String>::new());
}

#[test]
fn an_empty_definition_lacks_its_sections_and_metadata() {
    assert_eq!(
        lines(&lint("{}")),
        vec![
            "workflow-shape-missing-field /triggers definition must contain triggers",
            "workflow-shape-missing-field /actions definition must contain actions or triggers",
            "workflow-shape-missing-field /$schema definition is missing required field '$schema'",
            "workflow-shape-missing-field /contentVersion definition is missing required field 'contentVersion'",
        ]
    );
}

#[test]
fn metadata_is_checked() {
    let found = lint(
        "{\"$schema\": \"other\", \"contentVersion\": 1, \"description\": [], \
          \"triggers\": {\"manual\": {\"type\": \"Request\", \"kind\": \"Http\", \"inputs\": {}}}, \"actions\": {}}",
    );
    assert_eq!(
        lines(&found),
        vec![
            "workflow-shape-invalid-value /$schema definition.$schema has an unsupported value",
            "workflow-shape-invalid-type /contentVersion definition.contentVersion must be a string",
            "workflow-shape-invalid-type /description definition.description must be a string",
        ]
    );
    let long = "x".repeat(257);
    let found = lint(&format!(
        "{{\"$schema\": \"{SCHEMA}\", \"contentVersion\": \"1.0.0\", \"description\": \"{long}\", \"triggers\": {MANUAL}, \"actions\": {{}}}}"
    ));
    assert_eq!(
        lines(&found),
        vec![
            "workflow-shape-invalid-value /contentVersion definition.contentVersion has an unsupported value",
            "workflow-shape-invalid-value /description definition.description exceeds the 256 character limit",
        ]
    );
}

#[test]
fn content_versions_are_four_numbers() {
    assert!(workflow_content_version_supported("1.0.0.0"));
    assert!(workflow_content_version_supported("10.20.30.40"));
    for text in ["1.0.0", "1.0.0.0.0", "1..0.0", "1.0.0.", "", "a.0.0.0", "1.0.0.0 "] {
        assert!(!workflow_content_version_supported(text), "{text}");
    }
    assert!(workflow_schema_supported(SCHEMA));
    assert!(!workflow_schema_supported(&SCHEMA[1..]));
}

#[test]
fn the_kind_stands_beside_its_definition() {
    assert_eq!(workflow_kind_pointer("/definition"), "/kind");
    assert_eq!(workflow_kind_pointer("/resources/0/properties/definition"), "/resources/0/kind");
    assert_eq!(workflow_kind_pointer(""), "/kind");
}

#[test]
fn unknown_workflow_kinds_are_reported() {
    let text = format!("{{\"kind\": \"Agentic\", \"definition\": {}}}", definition(MANUAL, "{}"));
    let found = lint(&text);
    assert_eq!(
        lines(&found),
        vec!["workflow-shape-invalid-value /kind workflow kind 'Agentic' is not supported"]
    );
    assert!(found[0].span.is_none());
    let text = format!("{{\"kind\": \"stateful\", \"definition\": {}}}", definition(MANUAL, "{}"));
    assert!(lint(&text).is_empty());
}

#[test]
fn a_wrapped_definition_must_be_an_object() {
    assert_eq!(
        lines(&lint("{\"kind\": \"Stateful\", \"definition\": []}")),
        vec!["workflow-shape-invalid-type /definition definition must be an object"]
    );
}

#[test]
fn sections_must_be_objects() {
    let found = lint(&format!(
        "{{\"$schema\": \"{SCHEMA}\", \"contentVersion\": \"1.0.0.0\", \"triggers\": [], \"actions\": 1, \"parameters\": \"x\", \"outputs\": true}}"
    ));
    assert_eq!(
        lines(&found),
        vec![
            "workflow-shape-invalid-type /actions definition.actions must be an object",
            "workflow-shape-invalid-type /triggers definition.triggers must be an object",
            "workflow-shape-invalid-type /parameters definition.parameters must be an object",
            "workflow-shape-invalid-type /outputs definition.outputs must be an object",
            "workflow-shape-invalid-type /actions actions must be an object",
        ]
    );
}

#[test]
fn triggers_must_not_be_empty() {
    assert_eq!(
        lines(&lint(&definition("{}", "{}"))),
        vec!["workflow-shape-invalid-value /triggers definition.triggers must contain at least one trigger"]
    );
}

#[test]
fn every_finding_is_an_error_about_the_file() {
    let found = lint("{\"triggers\": {\"t\": 1}, \"actions\": {\"A\": {}, \"B\": {\"type\": \"Nope\"}}}");
    assert!(found.len() > 3);
    for one in &found {
        assert_eq!(one.severity, Severity::Error);
        assert_eq!(one.path, "workflow.json");
    }
}

#[test]
fn action_entries_need_a_known_type() {
    let found = lint_actions(
        "{\"A\": 1, \"B\": {}, \"C\": {\"type\": 2}, \"D\": {\"type\": \"InvokeWorkflow\"}}",
    );
    assert_eq!(
        lines(&found),
        vec![
            "workflow-shape-invalid-type /actions/A action entries must be objects",
            "workflow-shape-missing-field /actions/B/type action is missing required field 'type'",
            "workflow-shape-invalid-type /actions/C/type action type must be a string",
            "workflow-shape-unknown-type /actions/D/type unknown action type 'InvokeWorkflow'",
        ]
    );
}

#[test]
fn findings_point_at_the_source() {
    let text = definition(MANUAL, "{\"D\": {\"type\": \"InvokeWorkflow\"}}");
    let found = lint(&text);
    let span = found[0].span.expect("span");
    assert_eq!(&text[span.start..span.end], "\"InvokeWorkflow\"");
}

#[test]
fn pointers_escape_action_names() {
    let found = lint_actions("{\"a/b~c\": {}}");
    assert_eq!(found[0].pointer, "/actions/a~1b~0c/type");
}

#[test]
fn long_names_are_reported() {
    let name = "n".repeat(81);
    let found = lint_actions(&format!("{{\"{name}\": {{\"type\": \"Compose\", \"inputs\": 1}}}}"));
    assert_eq!(found.len(), 1);
    assert_eq!(found[0].code, "workflow-shape-invalid-value");
    assert_eq!(found[0].pointer, format!("/actions/{name}"));
    assert!(found[0].message.contains("80 character"), "{}", found[0].message);
}

#[test]
fn child_actions_are_checked_where_they_are_supported() {
    let found = lint_actions(
        "{\"S\": {\"type\": \"Scope\", \"actions\": {\"A\": {}}}, \
          \"I\": {\"type\": \"If\", \"expression\": \"@equals(1, 1)\", \"actions\": {\"B\": {}}, \"else\": {\"actions\": {\"C\": {}}}}, \
          \"W\": {\"type\": \"Switch\", \"expression\": \"@variables('x')\", \
                 \"cases\": {\"one\": {\"case\": 1, \"actions\": {\"D\": {}}}}, \"default\": {\"actions\": {\"E\": {}}}}, \
          \"C1\": {\"type\": \"Compose\", \"inputs\": 1, \"actions\": {\"F\": {}}}}",
    );
    let pointers: Vec<&str> = found
        .iter()
        .filter(|one| one.code == "workflow-shape-missing-field")
        .map(|one| one.pointer.as_str())
        .collect();
    assert!(pointers.contains(&"/actions/S/actions/A/type"));
    assert!(pointers.contains(&"/actions/I/actions/B/type"));
    assert!(pointers.contains(&"/actions/I/else/actions/C/type"));
    assert!(pointers.contains(&"/actions/W/cases/one/actions/D/type"));
    assert!(pointers.contains(&"/actions/W/default/actions/E/type"));
    assert!(!pointers.contains(&"/actions/C1/actions/F/type"));
    assert!(lines(&found).contains(
        &"workflow-shape-invalid-context /actions/C1/actions Compose action does not support child actions".to_owned()
    ));
}

#[test]
fn run_after_statuses_are_checked() {
    let found = lint_actions(
        "{\"A\": {\"type\": \"Compose\", \"inputs\": 1}, \
          \"B\": {\"type\": \"Compose\", \"inputs\": 1, \"runAfter\": {\"A\": [\"SUCCEEDED\"]}}, \
          \"C\": {\"type\": \"Compose\", \"inputs\": 1, \"runAfter\": 5}}",
    );
    assert_eq!(
        lines(&found),
        vec![
            "runafter-invalid-status /actions/B/runAfter/A/0 runAfter status 'SUCCEEDED' is not supported",
            "workflow-shape-invalid-type /actions/C/runAfter runAfter must be an object",
        ]
    );
}

#[test]
fn http_actions_need_a_method_and_a_uri() {
    let found = lint_actions("{\"H\": {\"type\": \"Http\", \"inputs\": {}}}");
    let text = lines(&found);
    assert!(text.iter().any(|line| line.contains("/actions/H/inputs/method")), "{text:?}");
    assert!(text.iter().any(|line| line.contains("/actions/H/inputs/uri")), "{text:?}");
    let found = lint_actions(
        "{\"H\": {\"type\": \"Http\", \"inputs\": {\"method\": \"GET\", \"uri\": \"https://example.com/a?b=c\"}}}",
    );
    assert_eq!(lines(&found), Vec::<String>::new());
}

#[test]
fn credentials_are_never_pointed_at() {
    let found = lint_actions(
        "{\"H\": {\"type\": \"Http\", \"inputs\": {\"method\": \"GET\", \"uri\": \"https://example.com\", \
          \"authentication\": {\"type\": \"Basic\", \"username\": 1, \"password\": 2}}}}",
    );
    assert_eq!(found.len(), 2, "{:?}", lines(&found));
    for one in &found {
        assert!(one.pointer.starts_with("/actions/H/inputs/authentication/"));
        assert!(one.span.is_none());
    }
}

#[test]
fn trigger_entries_need_a_known_type() {
    let found = lint(&definition(
        "{\"A\": 1, \"B\": {}, \"C\": {\"type\": []}, \"D\": {\"type\": \"Polling\"}}",
        "{}",
    ));
    assert_eq!(
        lines(&found),
        vec![
            "workflow-shape-invalid-type /triggers/A trigger entries must be objects",
            "workflow-shape-missing-field /triggers/B/type trigger is missing required field 'type'",
            "workflow-shape-invalid-type /triggers/C/type trigger type must be a string",
            "workflow-shape-unknown-type /triggers/D/type unknown trigger type 'Polling'",
        ]
    );
}

#[test]
fn stateless_workflows_refuse_triggers_with_state() {
    let recurrence = "{\"t\": {\"type\": \"Recurrence\", \"recurrence\": {\"frequency\": \"Day\", \"interval\": 1}}}";
    let text = format!(
        "{{\"kind\": \"Stateless\", \"definition\": {}}}",
        definition(recurrence, "{}")
    );
    assert_eq!(
        lines(&lint(&text)),
        vec![
            "workflow-shape-invalid-context /definition/triggers/t/type Recurrence trigger is not supported in Stateless workflows"
        ]
    );
    assert_eq!(lines(&lint(&definition(recurrence, "{}"))), Vec::<String>::new());
}

#[test]
fn recurrences_are_checked() {
    let found = lint_trigger(
        "{\"type\": \"Recurrence\", \"recurrence\": {\"frequency\": \"Fortnight\", \"interval\": 0}}",
    );
    let text = lines(&found);
    assert!(text.iter().any(|line| line.contains("/triggers/t/recurrence/frequency")), "{text:?}");
    assert!(text.iter().any(|line| line.contains("/triggers/t/recurrence/interval")), "{text:?}");
}

#[test]
fn start_times_may_be_at_most_49_years_ahead() {
    let trigger = |start: &str| {
        format!(
            "{{\"type\": \"Recurrence\", \"recurrence\": {{\"frequency\": \"Day\", \"interval\": 1, \"startTime\": \"{start}\"}}}}"
        )
    };
    assert!(lint_trigger(&trigger("2074-07-04T00:00:00Z")).is_empty());
    let found = lint_trigger(&trigger("2074-07-05T00:00:00Z"));
    assert_eq!(found.len(), 1, "{:?}", lines(&found));
    assert_eq!(found[0].pointer, "/triggers/t/recurrence/startTime");
}

#[test]
fn standard_workflows_have_one_trigger() {
    let two = "{\"a\": {\"type\": \"Request\", \"kind\": \"Http\", \"inputs\": {}}, \"b\": {\"type\": \"Request\", \"kind\": \"Http\", \"inputs\": {}}}";
    let text = format!("{{\"kind\": \"Stateful\", \"definition\": {}}}", definition(two, "{}"));
    let found = lint(&text);
    assert_eq!(found.len(), 1, "{:?}", lines(&found));
    assert_eq!(found[0].pointer, "/definition/triggers");
    assert!(lint(&definition(two, "{}")).is_empty());
}

#[test]
fn parameters_are_checked() {
    let found = lint(&format!(
        "{{\"$schema\": \"{SCHEMA}\", \"contentVersion\": \"1.0.0.0\", \"triggers\": {MANUAL}, \"actions\": {{}}, \
          \"parameters\": {{\"p\": {{\"type\": \"string\"}}, \"q\": {{\"type\": \"String\", \"defaultValue\": \"x\"}}, \"r\": 1}}}}"
    ));
    let text = lines(&found);
    assert!(
        text.contains(
            &"workflow-shape-invalid-value /parameters/p/type definition parameter type 'string' is not supported".to_owned()
        ),
        "{text:?}"
    );
    assert!(text.iter().any(|line| line.contains(" /parameters/r ")), "{text:?}");
    assert!(!text.iter().any(|line| line.contains("/parameters/q")), "{text:?}");
}

const TEMPLATE: &str = "https://schema.management.azure.com/schemas/2019-04-01/deploymentTemplate.json#";

fn template(definition: &str) -> String {
    format!(
        "{{\"$schema\": \"{TEMPLATE}\", \"resources\": [{{\"type\": \"Microsoft.Logic/workflows\", \"properties\": {{\"definition\": {definition}}}}}]}}"
    )
}

#[test]
fn unresolved_expressions_are_passed_over() {
    assert!(lint(&template("\"[variables('definition')]\"")).is_empty());
    let found = lint(&template(
        "{\"triggers\": \"[variables('t')]\", \"actions\": {\"A\": \"[variables('a')]\", \"B\": {\"type\": \"[variables('type')]\"}}}",
    ));
    assert_eq!(lines(&found), Vec::<String>::new());
}

#[test]
fn null_entries_of_templates_are_absent() {
    let found = lint(&template("{\"triggers\": {\"t\": null}, \"actions\": {\"A\": null}}"));
    assert_eq!(
        lines(&found),
        vec![
            "workflow-shape-invalid-value /resources/0/properties/definition/triggers definition.triggers must contain at least one trigger"
        ]
    );
}

#[test]
fn resolved_actions_are_reported_at_their_expression() {
    let text = template("{\"triggers\": \"[t()]\", \"actions\": {\"A\": \"[a()]\"}}");
    let value = parse(&text);
    let mut scope = unevaluated_scope(&value);
    for expression in &mut scope.expressions {
        if expression.text == "[a()]" {
            expression.value = Some(parse("{\"type\": \"Nope\"}"));
        }
    }
    let found = check(&value, &scope);
    assert_eq!(
        lines(&found),
        vec![
            "workflow-shape-unknown-type /resources/0/properties/definition/actions/A/type unknown action type 'Nope'"
        ]
    );
    let span = found[0].span.expect("span");
    assert_eq!(&text[span.start..span.end], "\"[a()]\"");
}

#[test]
fn resolved_containers_must_be_objects() {
    let text = template("{\"triggers\": \"[t()]\", \"actions\": \"[a()]\"}");
    let value = parse(&text);
    let mut scope = unevaluated_scope(&value);
    for expression in &mut scope.expressions {
        expression.value = Some(parse("[1]"));
    }
    let base = "/resources/0/properties/definition";
    assert_eq!(
        lines(&check(&value, &scope)),
        vec![
            format!("workflow-shape-invalid-type {base}/actions definition.actions must be an object"),
            format!("workflow-shape-invalid-type {base}/triggers definition.triggers must be an object"),
            format!("workflow-shape-invalid-type {base}/actions actions must be an object"),
            format!("workflow-shape-invalid-type {base}/triggers triggers must be an object"),
        ]
    );
}

#[test]
fn a_resolved_definition_is_reported_at_its_expression() {
    let text = template("\"[d()]\"");
    let value = parse(&text);
    let scope = ArmScope {
        expressions: vec![ArmExpression {
            text: "[d()]".to_owned(),
            value: Some(parse("{\"triggers\": {\"t\": 1}, \"actions\": {}}")),
            materialized: None,
            string: None,
            entries: None,
            result_type: None,
        }],
        rewritten: Vec::new(),
    };
    let finite_numbers = Vec::new();
    let document = Document {
        path: "azuredeploy.json",
        value: &value,
        arm: &scope,
        finite_numbers: &finite_numbers,
        clock: None,
    };
    let located = locate_definitions(&value);
    let pointer = located[0].pointer.as_str();
    let inner = scope.expressions[0].value.as_ref().expect("value");
    let outer = extract_definition(located[0].definition, pointer, None);
    let resolved = vec![extract_definition(inner, pointer, None)];
    let found = shape_diagnostics(
        &document,
        located[0].definition,
        pointer,
        &outer,
        &resolved,
        &scope,
        &Vec::new(),
        false,
    );
    assert_eq!(
        lines(&found),
        vec![
            "workflow-shape-invalid-type /resources/0/properties/definition/triggers/t trigger entries must be objects"
        ]
    );
    let span = found[0].span.expect("span");
    assert_eq!(&text[span.start..span.end], "\"[d()]\"");
}

#[test]
fn a_resolved_definition_needs_no_summary_of_the_caller() {
    let text = template("\"[d()]\"");
    let value = parse(&text);
    let mut scope = unevaluated_scope(&value);
    scope.expressions[0].value =
        Some(parse("{\"triggers\": {\"t\": 1}, \"actions\": {\"A\": {}}}"));
    let found = check(&value, &scope);
    assert_eq!(
        lines(&found),
        vec![
            "workflow-shape-missing-field /resources/0/properties/definition/actions/A/type action is missing required field 'type'",
            "workflow-shape-invalid-type /resources/0/properties/definition/triggers/t trigger entries must be objects",
        ]
    );
    for one in &found {
        let span = one.span.expect("span");
        assert_eq!(&text[span.start..span.end], "\"[d()]\"");
    }
}

#[test]
fn expressions_that_give_themselves_are_passed_over() {
    let text = template("\"[d()]\"");
    let value = parse(&text);
    let mut scope = unevaluated_scope(&value);
    scope.expressions[0].value = Some(parse("\"[d()]\""));
    assert!(check(&value, &scope).is_empty());
}

#[test]
fn parameters_have_one_cap() {
    let section = |count: usize| {
        let entries: Vec<String> = (0..count)
            .map(|i| format!("\"p{i}\": {{\"type\": \"String\", \"defaultValue\": \"\"}}"))
            .collect();
        let definition = format!(
            "{{\"$schema\": \"{SCHEMA}\", \"contentVersion\": \"1.0.0.0\", \"triggers\": {MANUAL}, \"actions\": {{}}, \"parameters\": {{{}}}}}",
            entries.join(", ")
        );
        let wrapped = format!("{{\"kind\": \"Stateful\", \"definition\": {definition}}}");
        (lint(&definition).len(), lint(&wrapped).len())
    };
    assert_eq!(section(51), (0, 0));
    assert_eq!(section(500), (0, 0));
    assert_eq!(section(501), (1, 1));
}

#[test]
fn week_days_rule_out_single_hours_and_minutes() {
    let trigger = |schedule: &str| {
        format!(
            "{{\"type\": \"Recurrence\", \"recurrence\": {{\"frequency\": \"Week\", \"interval\": 1, \"schedule\": {schedule}}}}}"
        )
    };
    assert_eq!(
        lines(&lint_trigger(&trigger("{\"weekDays\": [\"Monday\"], \"hours\": 9, \"minutes\": \"30\"}"))),
        vec![
            "workflow-shape-invalid-type /triggers/t/recurrence/schedule/minutes Recurrence schedule.minutes must be an array",
            "workflow-shape-invalid-type /triggers/t/recurrence/schedule/hours Recurrence schedule.hours must be an array",
        ]
    );
    assert!(lint_trigger(&trigger("{\"weekDays\": [\"Monday\"], \"hours\": [9]}")).is_empty());
    assert!(lint_trigger(&trigger("{\"hours\": 9, \"minutes\": \"30\"}")).is_empty());
}

#[test]
fn unresolved_entries_are_passed_over_wherever_they_stand() {
    let found = lint(&template(
        r#"{"triggers": "[variables('t')]",
            "staticResults": {
                "a": {"status": "Failed", "outputs": {"errors": "[variables('e')]"}},
                "b": {"status": "Failed", "outputs": {"errors": ["[variables('e')]"]}}
            },
            "actions": {
                "A": {"type": "Compose", "inputs": 1},
                "B": {"type": "Compose", "inputs": 1, "runAfter": {"A": ["[variables('s')]", "Succeeded"]}},
                "S": {"type": "Switch", "expression": "x", "cases": {
                    "one": "[variables('c')]",
                    "two": {"case": "[parameters('p')]", "actions": {}},
                    "three": {"case": "[parameters('p')]", "actions": {}}
                }},
                "V": {"type": "InitializeVariable", "inputs": {"variables": [
                    "[variables('v')]", {"name": "x", "type": "[variables('k')]"}
                ]}},
                "W": {"type": "InitializeVariable", "inputs": {"variables": "[variables('v')]"}},
                "J": {"type": "JavaScriptCode", "inputs": {
                    "code": "1", "explicitDependencies": {"actions": "[variables('d')]"}
                }}
            }}"#,
    ));
    assert_eq!(lines(&found), Vec::<String>::new());
}

#[test]
fn array_expressions_stand_for_statuses() {
    let text = template(
        r#"{"triggers": "[t()]", "actions": {
            "A": {"type": "Compose", "inputs": 1},
            "B": {"type": "Compose", "inputs": 1, "runAfter": {"A": "[s()]"}}
        }}"#,
    );
    let value = parse(&text);
    let mut scope = unevaluated_scope(&value);
    for expression in &mut scope.expressions {
        if expression.text == "[s()]" {
            expression.value = Some(parse("[\"Succeeded\"]"));
        }
    }
    assert_eq!(lines(&check(&value, &scope)), Vec::<String>::new());
    for expression in &mut scope.expressions {
        if expression.text == "[s()]" {
            expression.value = Some(parse("\"Succeeded\""));
        }
    }
    assert_eq!(
        lines(&check(&value, &scope)),
        vec![
            "runafter-invalid-shape /resources/0/properties/definition/actions/B/runAfter/A runAfter dependency value must be an array of statuses"
        ]
    );
}

#[test]
fn what_only_a_deployment_orders_is_not_reported_missing() {
    let response = r#""R": {"type": "Response", "inputs": {"statusCode": 200}"#;
    let open = lint(&template(&format!(
        r#"{{"triggers": "[t()]", "actions": {{"A": {{"type": "Compose", "inputs": 1}}, {response}, "runAfter": "[r()]"}}}}}}"#
    )));
    assert_eq!(lines(&open), Vec::<String>::new());
    let closed = lint(&template(&format!(
        r#"{{"triggers": {{"t": {{"type": "Batch", "inputs": {{}}}}}}, "actions": {{"A": {{"type": "Compose", "inputs": 1}}, {response}}}}}}}"#
    )));
    let base = "/resources/0/properties/definition/actions/R";
    assert_eq!(
        lines(&closed),
        vec![
            format!("workflow-shape-invalid-context {base} Response actions require a Request trigger"),
            format!("workflow-shape-invalid-context {base}/runAfter Response action cannot be placed in a parallel branch after 'A'"),
        ]
    );
}

#[test]
fn scripts_may_name_what_only_a_deployment_supplies() {
    let script = r#"{"type": "JavaScriptCode", "inputs": {"code": "1", "explicitDependencies": {"actions": ["A"]}}"#;
    let open = lint(&template(&format!(
        r#"{{"triggers": "[t()]", "actions": {{"A": {{"type": "Compose", "inputs": 1}}, "J": {script}, "runAfter": "[r()]"}}}}}}"#
    )));
    assert_eq!(lines(&open), Vec::<String>::new());
    let hidden = lint(&template(&format!(
        r#"{{"triggers": "[t()]", "actions": {{"S": {{"type": "Scope", "actions": "[s()]"}}, "J": {script}}}}}}}"#
    )));
    assert_eq!(lines(&hidden), Vec::<String>::new());
    let closed = lint(&template(&format!(
        r#"{{"triggers": "[t()]", "actions": {{"J": {script}}}}}}}"#
    )));
    assert_eq!(closed.len(), 1);
    assert_eq!(closed[0].code, "unknown-action-reference");
}

#[test]
fn branches_and_statuses_of_templates_are_passed_over() {
    let found = lint(&template(
        r#"{"triggers": "[t()]", "actions": {
            "I": {"type": "If", "expression": "x", "actions": {}, "else": "[e()]"},
            "N": {"type": "If", "expression": "x", "actions": {}, "else": null},
            "T": {"type": "Terminate", "inputs": {"runStatus": "[s()]", "runError": {"code": "1", "message": "m"}}},
            "V": {"type": "InitializeVariable", "inputs": {"variables": [{"name": "v", "type": "[k()]"}]}},
            "P": {"type": "IncrementVariable", "inputs": {"name": "v"}}
        }}"#,
    ));
    assert_eq!(lines(&found), Vec::<String>::new());
}

#[test]
fn powershell_runs_in_standard_workflows_only() {
    let actions = r#"{"P": {"type": "PowershellCode", "inputs": {"codeFile": "a.ps1"}}}"#;
    assert_eq!(
        lines(&lint_actions(actions)),
        vec![
            "workflow-shape-invalid-context /actions/P/type PowershellCode actions are supported only in Standard workflows"
        ]
    );
    let standard = format!(
        "{{\"kind\": \"Stateful\", \"definition\": {}}}",
        definition(MANUAL, actions)
    );
    assert_eq!(lines(&lint(&standard)), Vec::<String>::new());
}

#[test]
fn artifacts_may_be_named_by_the_old_spelling() {
    assert!(lint_actions(
        r#"{"L": {"type": "IntegrationAccountArtifactLookup", "inputs": {"artifactType": "Map", "artifaceName": "m"}}}"#
    )
    .is_empty());
    assert_eq!(
        lines(&lint_actions(
            r#"{"L": {"type": "IntegrationAccountArtifactLookup", "inputs": {"artifactType": "Map"}}}"#
        ))
        .len(),
        1
    );
}

#[test]
fn optional_artifacts_need_names_too() {
    assert_eq!(
        lines(&lint_actions(
            r#"{"X": {"type": "Xslt", "inputs": {"content": "c", "integrationAccount": {"map": {"name": 1}}}}}"#
        )),
        vec![
            "workflow-shape-invalid-type /actions/X/inputs/integrationAccount/map/name integration account artifact name must be a string"
        ]
    );
}

#[test]
fn chunked_actions_track_no_status_codes() {
    let lint_with = |value: &str| {
        lint_actions(&format!(
            r#"{{"H": {{"type": "Http", "inputs": {{"method": "GET", "uri": "https://a.b"}}, "runtimeConfiguration": {{"contentTransfer": {{"transferMode": "chunked"}}}}, "trackedProperties": {{"p": "{value}"}}}}}}"#
        ))
    };
    for value in [
        "@action().outputs.statusCode",
        "@{action()['outputs']['headers']}",
        "@ACTION( )?['outputs'] ?['StatusCode']",
        "code: @{action()?.outputs?.headers}",
    ] {
        assert_eq!(
            lines(&lint_with(value)),
            vec![
                "workflow-shape-invalid-context /actions/H/trackedProperties/p chunked action trackedProperties cannot reference unavailable statusCode or headers outputs"
            ],
            "{value}"
        );
    }
    for value in [
        "action().outputs.statusCode",
        "@action().outputs.body",
        "@{action().name} and .outputs.headers",
        "@@{action().outputs.headers}",
    ] {
        assert_eq!(lines(&lint_with(value)), Vec::<String>::new(), "{value}");
    }
}

#[test]
fn a_recurrence_given_as_null_is_left_out() {
    let text = template(
        r#"{"triggers": {"t": {"type": "Batch", "inputs": {"releaseCriteria": {"messageCount": 1, "recurrence": null}}}}, "actions": {}}"#,
    );
    assert_eq!(lines(&lint(&text)), Vec::<String>::new());
}

fn member<'a>(node: &'a mut Node, name: &str) -> &'a mut Node {
    match &mut node.kind {
        Json::Object(members) => {
            &mut members.iter_mut().find(|member| member.name == name).expect("member").value
        }
        _ => panic!("{name} stands in no object"),
    }
}

#[test]
fn the_order_of_members_does_not_tell_cases_apart() {
    let cases = |second: &str| {
        let actions = format!(
            r#"{{"S": {{"type": "Switch", "expression": "@body('x')", "cases": {{
                "a": {{"case": {{"x": 1, "y": [2, {{"v": 3, "w": 4}}]}}, "actions": {{}}}},
                "b": {{"case": {second}, "actions": {{}}}}
            }}}}}}"#
        );
        let mut value = parse(&definition(MANUAL, &actions));
        let mut node = &mut value;
        for name in ["actions", "S", "cases", "b", "case"] {
            node = member(node, name);
        }
        if let Json::Object(members) = &mut node.kind {
            members.reverse();
        }
        let scope = unevaluated_scope(&value);
        lines(&check(&value, &scope))
    };
    let duplicate = vec![
        "workflow-shape-invalid-value /actions/S/cases/b/case Switch case value duplicates case 'a'"
            .to_owned(),
    ];
    assert_eq!(cases(r#"{"x": 1, "y": [2, {"v": 3, "w": 4}]}"#), duplicate);
    assert_eq!(cases(r#"{"x": 1, "y": [2, {"v": 3, "w": 5}]}"#), Vec::<String>::new());
    assert_eq!(cases(r#"{"x": 1, "z": [2, {"v": 3, "w": 4}]}"#), Vec::<String>::new());
    assert_eq!(cases(r#"{"x": 1}"#), Vec::<String>::new());
}
