use logicapps_lint::arm::unevaluated_scope;
use logicapps_lint::json::{JsonFile, Node};
use logicapps_lint::workflow::{
    extract_definition, locate_definitions, ActionKind, WorkflowKind,
};

fn parse(text: &str) -> Node {
    match JsonFile::parse("workflow.json", text) {
        Ok(file) => file.value,
        Err(error) => panic!("{}", error.message()),
    }
}

#[test]
fn actions_are_flattened_in_front_of_their_children() {
    let value = parse(
        "{\"actions\": {\"A\": {\"type\": \"Scope\", \"actions\": {\"B\": {\"type\": \"Compose\"}}}, \
                        \"C\": {\"type\": \"Switch\", \"cases\": {\"x\": {\"actions\": {\"D\": {}}}}}}}",
    );
    let workflow = extract_definition(&value, "/definition", None);
    let names: Vec<&str> = workflow.action_list.iter().map(|one| one.name.as_str()).collect();
    assert_eq!(names, vec!["A", "B", "C", "D"]);
    let pointers: Vec<&str> = workflow.action_list.iter().map(|one| one.pointer.as_str()).collect();
    assert_eq!(
        pointers,
        vec![
            "/definition/actions/A",
            "/definition/actions/A/actions/B",
            "/definition/actions/C",
            "/definition/actions/C/cases/x/actions/D",
        ]
    );
    let depths: Vec<usize> = workflow.action_list.iter().map(|one| one.depth).collect();
    assert_eq!(depths, vec![1, 2, 1, 2]);
    assert_eq!(workflow.action_list[0].kind, ActionKind::Scope);
    assert_eq!(workflow.action_list[1].container_pointer, "/definition/actions/A/actions");
}

#[test]
fn pointers_lead_back_to_their_actions() {
    let value = parse("{\"actions\": {\"a/b\": {\"type\": \"Compose\"}}}");
    let workflow = extract_definition(&value, "/definition", None);
    let node = workflow.node_at(&workflow.action_list[0].pointer).expect("node");
    assert!(node.is_object());
    assert!(workflow.node_at("/definition/actions/none").is_none());
}

#[test]
fn later_declarations_of_a_name_are_duplicates() {
    let value = parse(
        "{\"actions\": {\"A\": {\"type\": \"Scope\", \"actions\": {\"A\": {\"type\": \"Compose\"}}}}}",
    );
    let workflow = extract_definition(&value, "", None);
    assert_eq!(workflow.actions.len(), 1);
    assert_eq!(workflow.actions[0].pointer, "/actions/A");
    assert_eq!(workflow.duplicate_actions.len(), 1);
    assert_eq!(workflow.duplicate_actions[0].pointer, "/actions/A/actions/A");
    assert_eq!(workflow.duplicate_actions[0].first_pointer, "/actions/A");
}

#[test]
fn edges_and_variables_are_collected() {
    let value = parse(
        "{\"actions\": {\
            \"I\": {\"type\": \"InitializeVariable\", \"inputs\": {\"variables\": [{\"name\": \"v\", \"type\": \"string\"}]}}, \
            \"S\": {\"type\": \"SetVariable\", \"runAfter\": {\"I\": [\"Succeeded\", \"Failed\"]}, \
                   \"inputs\": {\"name\": \"v\", \"value\": {\"a\": [\"x\", 1], \"b\": \"y\"}}}}}",
    );
    let workflow = extract_definition(&value, "", None);
    let init = &workflow.action_list[0];
    assert_eq!(init.initialized_variables.len(), 1);
    assert_eq!(init.initialized_variables[0].name, "v");
    assert_eq!(init.initialized_variables[0].variable_type, "string");
    assert!(init.variable_target.is_none());
    let set = &workflow.action_list[1];
    assert_eq!(set.run_after.len(), 1);
    assert_eq!(set.run_after[0].dependency, "I");
    assert_eq!(set.run_after[0].pointer, "/actions/S/runAfter/I");
    assert_eq!(set.run_after[0].statuses, vec!["Succeeded", "Failed"]);
    assert_eq!(set.variable_target.as_ref().expect("target").name, "v");
    let assigned = set.variable_value.as_ref().expect("value");
    assert_eq!(assigned.values, vec!["x", "y"]);
    assert_eq!(assigned.pointer, "/actions/S/inputs/value");
}

#[test]
fn triggers_and_parameters_are_collected() {
    let value = parse(
        "{\"triggers\": {\"r\": {\"type\": \"Recurrence\", \"recurrence\": {}}, \"s\": {\"splitOn\": \"@x\"}}, \
          \"parameters\": {\"p\": {}}}",
    );
    let workflow = extract_definition(&value, "", None);
    assert_eq!(workflow.triggers, vec!["r", "s"]);
    assert_eq!(workflow.trigger_types, vec![("r".to_owned(), "Recurrence".to_owned())]);
    assert_eq!(workflow.triggers_with_recurrence, vec!["r"]);
    assert_eq!(workflow.triggers_with_split_on, vec!["s"]);
    assert_eq!(workflow.parameters, vec!["p"]);
}

#[test]
fn wrappers_name_the_kind() {
    let value = parse("{\"kind\": \"Stateless\", \"definition\": {}}");
    let located = locate_definitions(&value);
    assert_eq!(located.len(), 1);
    assert_eq!(located[0].pointer, "/definition");
    assert_eq!(located[0].kind, Some(WorkflowKind::Named("Stateless".to_owned())));
    let workflow = extract_definition(
        located[0].definition,
        "/definition",
        Some(WorkflowKind::Named("stateless".to_owned())),
    );
    assert!(workflow.is_stateless());
    assert!(workflow.is_standard());
    let value = parse("{\"kind\": 1, \"definition\": {}}");
    let located = locate_definitions(&value);
    assert_eq!(located[0].kind, Some(WorkflowKind::InvalidType));
    assert_eq!(WorkflowKind::InvalidType.as_named(), None);
}

#[test]
fn templates_hold_definitions_in_their_resources() {
    let value = parse(
        "{\"resources\": [{\"type\": \"Other\"}, {\"type\": \"microsoft.logic/workflows\", \"properties\": {\"definition\": {}}}]}",
    );
    let located = locate_definitions(&value);
    assert_eq!(located.len(), 1);
    assert_eq!(located[0].pointer, "/resources/1/properties/definition");
    let workflow = extract_definition(located[0].definition, &located[0].pointer, None);
    assert!(workflow.is_embedded_arm_definition());
    assert!(!workflow.is_standard());
}

#[test]
fn bracketed_texts_are_expressions() {
    let value = parse("{\"a\": \"[x()]\", \"b\": [\"[[y]\", \"[z\", \"[]\"], \"c\": 1}");
    let scope = unevaluated_scope(&value);
    let texts: Vec<&str> = scope.expressions.iter().map(|one| one.text.as_str()).collect();
    assert_eq!(texts, vec!["[x()]", "[]"]);
    assert!(scope.is_full_expression("[x()]"));
    assert!(scope.static_expression_value("[x()]").is_none());
    assert!(!scope.is_full_expression("[[y]"));
}

#[test]
fn kinds_support_what_their_containers_hold() {
    let kind = ActionKind::from_action_type(Some("FOREACH"));
    assert_eq!(kind, ActionKind::Foreach);
    assert!(kind.supports_actions_container() && kind.supports_items() && kind.supports_result());
    let kind = ActionKind::from_action_type(Some("Select"));
    assert_eq!(kind, ActionKind::DataOperation);
    assert!(kind.supports_current_item() && !kind.supports_actions_container());
    assert!(ActionKind::from_action_type(Some("Agent")).supports_tools_container());
    assert!(ActionKind::from_action_type(Some("Switch")).supports_default_container());
    assert!(ActionKind::from_action_type(Some("If")).supports_else_container());
    assert_eq!(ActionKind::from_action_type(None), ActionKind::Other);
}
