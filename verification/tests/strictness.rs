use logicapps_lint::diagnostic::{Diagnostic, Severity};
use logicapps_lint::strictness::relax_diagnostics;

fn diag(code: &str, message: &str) -> Diagnostic {
    Diagnostic::error(code, "test.json", "", None, message)
}

#[test]
fn strict_mode_passes_diagnostics_through() {
    let input = vec![diag(
        "runafter-invalid-status",
        "runAfter status 'SUCCEEDED' is not supported",
    )];
    let out = relax_diagnostics(input, true);
    assert_eq!(out.len(), 1);
    assert_eq!(out[0].severity, Severity::Error);
}

#[test]
fn lenient_drops_runafter_case_variants() {
    for variant in ["SUCCEEDED", "succeeded", "Succeeded", "sUcCeEdEd"] {
        let msg = format!("runAfter status '{variant}' is not supported");
        let out = relax_diagnostics(vec![diag("runafter-invalid-status", &msg)], false);
        assert!(out.is_empty(), "variant {variant:?} should be dropped");
    }
    for variant in ["FAILED", "SKIPPED", "TIMEDOUT", "TIMEdOUT"] {
        let msg = format!("runAfter status '{variant}' is not supported");
        let out = relax_diagnostics(vec![diag("runafter-invalid-status", &msg)], false);
        assert!(out.is_empty(), "variant {variant:?} should be dropped");
    }
}

#[test]
fn lenient_keeps_genuinely_unknown_runafter_status() {
    let msg = "runAfter status 'DONE' is not supported";
    let out = relax_diagnostics(vec![diag("runafter-invalid-status", msg)], false);
    assert_eq!(out.len(), 1);
    assert_eq!(out[0].severity, Severity::Error);
}

#[test]
fn lenient_downgrades_unknown_type() {
    let msg = "unknown action type 'ChunkText'";
    let out = relax_diagnostics(vec![diag("workflow-shape-unknown-type", msg)], false);
    assert_eq!(out.len(), 1);
    assert_eq!(out[0].severity, Severity::Warning);
}

#[test]
fn lenient_drops_parameter_type_case_variants() {
    for variant in [
        "string",
        "int",
        "integer",
        "bool",
        "boolean",
        "SECUREOBJECT",
    ] {
        let msg = format!("definition parameter type '{variant}' is not supported");
        let out = relax_diagnostics(vec![diag("workflow-shape-invalid-value", &msg)], false);
        assert!(out.is_empty(), "variant {variant:?} should be dropped");
    }
}

#[test]
fn lenient_downgrades_registry_gap_kinds() {
    for msg in [
        "workflow kind 'Agentic' is not supported",
        "trigger kind 'Polling' is not supported",
        "action kind 'DataMapper' is not supported",
        "action operationOptions 'Asynchronous' is not supported",
    ] {
        let out = relax_diagnostics(vec![diag("workflow-shape-invalid-value", msg)], false);
        assert_eq!(out.len(), 1);
        assert_eq!(out[0].severity, Severity::Warning, "{msg}");
    }
}

#[test]
fn lenient_keeps_structural_invalid_value_as_error() {
    for msg in [
        "definition.triggers must contain at least one trigger",
        "Standard workflow name 'x' exceeds the 32 character limit",
    ] {
        let out = relax_diagnostics(vec![diag("workflow-shape-invalid-value", msg)], false);
        assert_eq!(out.len(), 1);
        assert_eq!(out[0].severity, Severity::Error, "{msg}");
    }
}

#[test]
fn lenient_passes_unrelated_codes_through() {
    let out = relax_diagnostics(vec![diag("wdl-syntax-error", "unclosed literal")], false);
    assert_eq!(out.len(), 1);
    assert_eq!(out[0].severity, Severity::Error);
}

#[test]
fn relaxing_twice_is_relaxing_once() {
    let input = || {
        vec![
            diag("workflow-shape-unknown-type", "unknown action type 'X'"),
            diag("runafter-invalid-status", "runAfter status 'failed' is not supported"),
            diag("other", "message"),
        ]
    };
    let once = relax_diagnostics(input(), false);
    let twice = relax_diagnostics(relax_diagnostics(input(), false), false);
    assert_eq!(once.len(), 2);
    assert_eq!(twice.len(), 2);
    for (left, right) in once.iter().zip(&twice) {
        assert_eq!(left.code, right.code);
        assert_eq!(left.severity, right.severity);
    }
}

#[test]
fn relaxing_keeps_everything_but_the_severity() {
    let out = relax_diagnostics(
        vec![Diagnostic::error("workflow-shape-unknown-type", "a.json", "/b", None, "unknown")],
        false,
    );
    assert_eq!(out[0].path, "a.json");
    assert_eq!(out[0].pointer, "/b");
    assert_eq!(out[0].message, "unknown");
}

#[test]
fn messages_without_a_quoted_token_are_kept() {
    let out = relax_diagnostics(vec![diag("runafter-invalid-status", "status 'Failed")], false);
    assert_eq!(out.len(), 1);
}

#[test]
fn lenient_downgrades_unregistered_trigger_options() {
    let out = relax_diagnostics(
        vec![diag(
            "workflow-shape-invalid-value",
            "trigger operationOptions 'Newer' is not supported",
        )],
        false,
    );
    assert_eq!(out.len(), 1);
    assert_eq!(out[0].severity, Severity::Warning);
}
