use logicapps_lint::cli::{
    apply_severity_overrides, args_request_json_format, exit_code, marker_file_under_root,
    project_output_base, redact_absolute_paths, tool_error_path, MarkerFacts, Markers,
};
use logicapps_lint::{sanitize_for_terminal, Diagnostic, Severity};

fn diagnostic(code: &str) -> Diagnostic {
    Diagnostic::error(code, "workflow.json", "/a", None, "message")
}

fn codes(list: &[&str]) -> Vec<String> {
    list.iter().map(|code| code.to_string()).collect()
}

#[test]
fn allowed_codes_are_dropped_and_warn_codes_downgraded() {
    let kept = apply_severity_overrides(
        vec![diagnostic("one"), diagnostic("two"), diagnostic("three")],
        &codes(&["one"]),
        &codes(&["two"]),
    );
    assert_eq!(kept.len(), 2);
    assert_eq!(kept[0].code, "two");
    assert_eq!(kept[0].severity, Severity::Warning);
    assert_eq!(kept[1].code, "three");
    assert_eq!(kept[1].severity, Severity::Error);
}

#[test]
fn allow_takes_precedence_over_warn() {
    let kept =
        apply_severity_overrides(vec![diagnostic("one")], &codes(&["one"]), &codes(&["one"]));
    assert!(kept.is_empty());
}

#[test]
fn only_errors_fail_the_run() {
    assert_eq!(exit_code(&Vec::new()), 0);
    assert_eq!(exit_code(&vec![diagnostic("one")]), 1);
    let warnings = apply_severity_overrides(vec![diagnostic("one")], &[], &codes(&["one"]));
    assert_eq!(warnings.len(), 1);
    assert_eq!(exit_code(&warnings), 0);
}

#[test]
fn json_format_is_recognized_in_both_spellings() {
    assert!(args_request_json_format(&codes(&["--format", "json"])));
    assert!(args_request_json_format(&codes(&["x", "--format=json"])));
    assert!(!args_request_json_format(&codes(&["--format", "human"])));
    assert!(!args_request_json_format(&codes(&["--format"])));
    assert!(!args_request_json_format(&codes(&["--", "--format=json"])));
    assert!(!args_request_json_format(&codes(&["--format", "human", "--format=json"])));
    assert!(!args_request_json_format(&[]));
}

#[test]
fn quoted_absolute_paths_are_redacted() {
    assert_eq!(
        redact_absolute_paths("unexpected argument '/home/me/a b' found"),
        "unexpected argument '<path>' found"
    );
    assert_eq!(
        redact_absolute_paths("unexpected argument '/home/me/it's' found\n\nUsage: x"),
        "unexpected argument '<path>' found\n\nUsage: x"
    );
    assert_eq!(redact_absolute_paths("open '/home/me"), "open '<path>");
}

#[test]
fn bare_absolute_paths_are_redacted() {
    assert_eq!(redact_absolute_paths("see /etc/passwd now"), "see <path> now");
    assert_eq!(redact_absolute_paths(r"see C:\Users\me now"), "see <path> now");
    assert_eq!(redact_absolute_paths(r"see \\server\share"), "see <path>");
    assert_eq!(redact_absolute_paths("see \"/etc\""), "see \"<path>\"");
}

#[test]
fn other_text_is_not_redacted() {
    assert_eq!(
        redact_absolute_paths("unexpected argument '--nope' found"),
        "unexpected argument '--nope' found"
    );
    assert_eq!(redact_absolute_paths(r"a\b c:d"), r"a\b c:d");
}

#[test]
fn nothing_that_starts_a_path_is_left_after_redaction() {
    for message in ["/a/b/c", "x/y z/w", r"C:\a C:/b", "'/a' '/b"] {
        assert!(!redact_absolute_paths(message).contains('/'), "{message}");
    }
}

#[test]
fn tool_errors_fall_back_to_the_target() {
    assert_eq!(tool_error_path("/work", "/work/app", "/work/app/x.json"), "/work/app/x.json");
    assert_eq!(tool_error_path("/work", "/work/app", "/etc/x.json"), "/work/app");
}

fn facts(escapes: bool, is_file: bool, root: Option<&str>, place: Option<&str>) -> MarkerFacts {
    MarkerFacts {
        escapes,
        is_file,
        root: root.map(str::to_owned),
        place: place.map(str::to_owned),
    }
}

#[test]
fn marker_files_count_inside_their_directory_only() {
    assert!(marker_file_under_root(&facts(false, true, Some("/p"), Some("/p/host.json"))));
    assert!(!marker_file_under_root(&facts(false, true, Some("/p"), Some("/q/host.json"))));
    assert!(!marker_file_under_root(&facts(true, true, Some("/p"), Some("/p/host.json"))));
    assert!(!marker_file_under_root(&facts(false, false, Some("/p"), Some("/p/host.json"))));
    assert!(marker_file_under_root(&facts(false, true, None, Some("/q/host.json"))));
    assert!(marker_file_under_root(&facts(false, true, Some("/p"), None)));
}

const NONE: Markers = Markers {
    manifest: false,
    host: false,
    workflow_parameters: false,
    connections: false,
    parameters: false,
};

#[test]
fn project_base_prefers_host_and_package_files() {
    let hint = Markers { connections: true, ..NONE };
    let host = Markers { host: true, ..NONE };
    let package = Markers { manifest: true, ..NONE };
    assert_eq!(project_output_base(&[hint, NONE, host]), Some(2));
    assert_eq!(project_output_base(&[hint, package, host]), Some(1));
    assert_eq!(project_output_base(&[NONE, hint, hint]), Some(1));
    assert_eq!(project_output_base(&[NONE, NONE]), None);
    assert_eq!(project_output_base(&[]), None);
}

#[test]
fn control_characters_do_not_reach_the_terminal() {
    assert_eq!(sanitize_for_terminal("a\u{1b}[31mb"), "a\\x1b[31mb");
    assert_eq!(sanitize_for_terminal("\u{0}\u{7f}\u{9f}\n"), "\\x00\\x7f\\x9f\\x0a");
    assert_eq!(sanitize_for_terminal("a\tb\u{1b}[31m"), "a\\x09b\\x1b[31m");
    assert_eq!(sanitize_for_terminal("plain é"), "plain é");
}

#[test]
fn json_contract_shows_the_path_relative_to_the_base() {
    let diagnostic = Diagnostic::error(
        "unknown-action-reference",
        "/work/app/Workflow/workflow.json",
        "/definition/actions/Compose/inputs",
        None,
        "WDL expression references missing action 'Missing'",
    );
    let contract = diagnostic.as_json_contract("/work/app");
    assert_eq!(contract.code, "unknown-action-reference");
    assert_eq!(contract.severity, Severity::Error);
    assert_eq!(contract.path, "Workflow/workflow.json");
    assert_eq!(contract.pointer, "/definition/actions/Compose/inputs");
    assert_eq!(contract.message, "WDL expression references missing action 'Missing'");
}
