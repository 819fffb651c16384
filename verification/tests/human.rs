use logicapps_lint::diagnostic::{ByteSpan, Diagnostic, Severity};
use logicapps_lint::human::{normalized_span, render_diagnostic};

#[test]
fn renders_source_span_and_json_pointer() {
    let source = "{\n  \"type\": \"InvokeWorkflow\"\n}\n";
    let start = source.find("InvokeWorkflow").expect("fixture text");
    let diagnostic = Diagnostic::error(
        "workflow-shape-unknown-type",
        "workflow.json",
        "/actions/Call/type",
        Some(ByteSpan {
            start,
            end: start + "InvokeWorkflow".len(),
        }),
        "unknown action type 'InvokeWorkflow'",
    );

    let rendered = render_diagnostic(
        false,
        &diagnostic,
        "workflow.json",
        Some(source),
    );

    assert!(
        rendered.contains(
            "error[workflow-shape-unknown-type]: unknown action type 'InvokeWorkflow'"
        )
    );
    assert!(rendered.contains("--> workflow.json:2:12"));
    assert!(rendered.contains("^"));
    assert!(rendered.contains("= note: JSON pointer: /actions/Call/type"));
}

#[test]
fn renders_path_without_source_span() {
    let diagnostic = Diagnostic::error(
        "workflow-shape-invalid-value",
        "LongName/workflow.json",
        "",
        None,
        "workflow name is too long",
    );

    let rendered = render_diagnostic(
        false,
        &diagnostic,
        "LongName/workflow.json",
        None,
    );

    assert!(rendered.contains("error[workflow-shape-invalid-value]"));
    assert!(rendered.contains("--> LongName/workflow.json"));
    assert!(!rendered.contains("JSON pointer"));
}

#[test]
fn warnings_are_rendered_as_such() {
    let mut diagnostic = Diagnostic::error("code", "workflow.json", "/a", None, "message");
    diagnostic.severity = Severity::Warning;
    let rendered = render_diagnostic(false, &diagnostic, "workflow.json", Some("{}"));
    assert!(rendered.contains("warning[code]: message"));
    assert!(rendered.contains("--> workflow.json"));
}

#[test]
fn control_characters_of_pointers_are_not_rendered() {
    let diagnostic = Diagnostic::error("code", "workflow.json", "/\u{1b}[31m", None, "message");
    let rendered = render_diagnostic(false, &diagnostic, "workflow.json", None);
    assert!(rendered.contains("JSON pointer: /"));
    assert!(!rendered.contains('\u{1b}'));
}

#[test]
fn styled_output_is_coloured() {
    let diagnostic = Diagnostic::error("code", "workflow.json", "", None, "message");
    assert!(render_diagnostic(true, &diagnostic, "workflow.json", None).contains('\u{1b}'));
    assert!(!render_diagnostic(false, &diagnostic, "workflow.json", None).contains('\u{1b}'));
}

#[test]
fn spans_are_widened_to_whole_characters() {
    let source = "aéb";
    assert_eq!(normalized_span(source, ByteSpan { start: 2, end: 2 }), Some((1, 3)));
    assert_eq!(normalized_span(source, ByteSpan { start: 0, end: 1 }), Some((0, 1)));
    assert_eq!(normalized_span(source, ByteSpan { start: 1, end: 99 }), Some((1, 4)));
}

#[test]
fn empty_spans_are_not_underlined() {
    assert_eq!(normalized_span("", ByteSpan { start: 0, end: 1 }), None);
    assert_eq!(normalized_span("ab", ByteSpan { start: 1, end: 1 }), None);
    assert_eq!(normalized_span("ab", ByteSpan { start: 9, end: 10 }), None);
    assert_eq!(normalized_span("ab", ByteSpan { start: 2, end: 1 }), None);
}

#[test]
fn styled_output_shows_the_same_report() {
    let source = "{\"type\": 1}";
    let diagnostic = Diagnostic::error(
        "some-code",
        "workflow.json",
        "/type",
        Some(ByteSpan { start: 9, end: 10 }),
        "some message",
    );
    let rendered = render_diagnostic(true, &diagnostic, "shown.json", Some(source));
    for part in ["some-code", "some message", "shown.json", "JSON pointer: /type"] {
        assert!(rendered.contains(part), "{rendered}");
    }
    let code = rendered.find("some-code").expect("code");
    let message = rendered.find("some message").expect("message");
    let path = rendered.find("shown.json").expect("path");
    assert!(code < message && message < path);
}
