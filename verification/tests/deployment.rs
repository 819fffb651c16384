use logicapps_lint::deployment::is_arm_deployment_parameters_file;

#[test]
fn schema_names_a_deployment_parameters_file() {
    assert!(is_arm_deployment_parameters_file(
        "{\"$schema\": \"https://schema.management.azure.com/schemas/2019-04-01/deploymentParameters.json#\", \"other\": 1}"
    ));
}

#[test]
fn assignments_without_a_schema_are_deployment_parameters() {
    assert!(is_arm_deployment_parameters_file(
        "{\"parameters\": {\"a\": {\"value\": 1}, \"b\": {\"reference\": {}}}}"
    ));
    assert!(is_arm_deployment_parameters_file(
        "{\"contentVersion\": \"1.0.0.0\", \"parameters\": {}}"
    ));
}

#[test]
fn project_parameters_are_not_deployment_parameters() {
    for source in [
        "{\"parameters\": {\"a\": {\"type\": \"String\", \"value\": 1}}}",
        "{\"parameters\": {}}",
        "{\"parameters\": {\"a\": {}}}",
        "{\"parameters\": {\"a\": 1}}",
        "{\"a\": {\"type\": \"String\", \"value\": 1}}",
        "{\"parameters\": {\"a\": {\"value\": 1}}, \"extra\": 1}",
        "[]",
        "not json",
    ] {
        assert!(!is_arm_deployment_parameters_file(source), "{source}");
    }
}
