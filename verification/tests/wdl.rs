use logicapps_lint::wdl::{
    function_call_suffixes_in_string, function_calls_in_string, references_in_string,
    string_arg_function_call_suffixes_in_string, syntax_issues_in_string,
    zero_arg_function_call_in_string, zero_arg_function_call_suffixes_in_string, Reference,
    ReferenceKind,
};

#[test]
fn ignores_escaped_at() {
    assert!(references_in_string("@@{outputs('A')}").is_empty());
}

#[test]
fn extracts_interpolation() {
    let refs = references_in_string("prefix @{outputs('A')?['body']} suffix");
    assert_eq!(refs[0].name, "A");
}

#[test]
fn extracts_action_scoped_and_loop_reference_functions() {
    let refs = references_in_string(
        "@concat(formDataValue('FormAction', 'subject'), multipartBody('MultipartAction', 0), result('ScopeAction'), iterationIndexes('UntilAction'))",
    );
    assert_eq!(
        refs,
        vec![
            Reference {
                kind: ReferenceKind::Action,
                name: "FormAction".to_owned(),
            },
            Reference {
                kind: ReferenceKind::Action,
                name: "MultipartAction".to_owned(),
            },
            Reference {
                kind: ReferenceKind::ScopedAction,
                name: "ScopeAction".to_owned(),
            },
            Reference {
                kind: ReferenceKind::UntilLoop,
                name: "UntilAction".to_owned(),
            },
        ]
    );
}

#[test]
fn extracts_multiple_interpolations() {
    let refs = references_in_string("@{outputs('A')} and @{body('B')}");
    assert_eq!(refs.len(), 2);
    assert_eq!(refs[0].name, "A");
    assert_eq!(refs[1].name, "B");
}

#[test]
fn escaped_leading_at_does_not_disable_later_interpolation() {
    let refs = references_in_string("@@literal @{outputs('A')}");
    assert_eq!(refs[0].name, "A");
}

#[test]
fn escaped_interpolation_is_literal_inside_plain_text() {
    assert!(references_in_string("literal @@{outputs('Missing')}").is_empty());
    assert!(syntax_issues_in_string("literal @@{outputs('Missing')}").is_empty());
}

#[test]
fn root_expression_string_literals_are_not_interpolations() {
    assert!(syntax_issues_in_string("@concat('literal @{ without close', 'ok')").is_empty());
}

#[test]
fn handles_escaped_single_quote() {
    let refs = references_in_string("@parameters('it''s')");
    assert_eq!(refs[0].name, "it's");
}

#[test]
fn ignores_calls_inside_string_literals() {
    let refs = references_in_string("@concat('outputs(''Fake'')', outputs('Real'))");
    assert_eq!(refs.len(), 1);
    assert_eq!(refs[0].name, "Real");
}

#[test]
fn extracts_arm_escaped_string_arguments() {
    let refs = references_in_string("@{encodeURIComponent(body(''Create_job'')?[''id''])}");
    assert_eq!(refs[0].name, "Create_job");
}

#[test]
fn extracts_utf8_string_arguments() {
    let refs = references_in_string("@body('BLOB_コンテンツを取得する_(V2)')");
    assert_eq!(refs[0].name, "BLOB_コンテンツを取得する_(V2)");
}

#[test]
fn extracts_function_calls_for_project_expression_policy() {
    let calls = function_calls_in_string("@concat(parameters('name'), appsetting('SETTING'))");
    let names: Vec<_> = calls.into_iter().map(|call| call.name).collect();
    assert_eq!(names, vec!["concat", "parameters", "appsetting"]);
}

#[test]
fn extracts_bare_root_identifier_for_project_expression_policy() {
    let calls = function_calls_in_string("@variables");
    assert_eq!(calls.len(), 1);
    assert_eq!(calls[0].name, "variables");
    assert!(!calls[0].parenthesized);
}

#[test]
fn extracts_bare_root_identifier_even_with_nested_calls() {
    let calls = function_calls_in_string("@variables + appsetting('SETTING')");
    assert_eq!(calls.len(), 2);
    assert_eq!(calls[0].name, "appsetting");
    assert!(calls[0].parenthesized);
    assert_eq!(calls[1].name, "variables");
    assert!(!calls[1].parenthesized);
}

#[test]
fn reports_unclosed_interpolation() {
    let issues = syntax_issues_in_string("prefix @{outputs('A')");
    assert_eq!(issues.len(), 1);
}

#[test]
fn reports_unclosed_string_literal() {
    let issues = syntax_issues_in_string("@concat('open)");
    assert_eq!(issues.len(), 1);
}

#[test]
fn reports_unclosed_string_literal_after_escaped_quote() {
    let issues = syntax_issues_in_string("@concat('open'')");
    assert_eq!(issues.len(), 1);
}

#[test]
fn reports_root_expression_plain_text_suffix() {
    let issues = syntax_issues_in_string("@parameters('name')/suffix");
    assert_eq!(issues.len(), 1);
}

#[test]
fn reports_reference_function_arity() {
    let issues = syntax_issues_in_string("@outputs('A', 'extra')");
    assert_eq!(issues.len(), 1);
    assert!(issues[0].message.contains("expects 1 argument"));
}

#[test]
fn reports_concat_minimum_arity() {
    let issues = syntax_issues_in_string("@concat('one')");
    assert_eq!(issues.len(), 1);
    assert!(issues[0].message.contains("expects at least 2 argument"));

    assert!(syntax_issues_in_string("@concat('one', 'two')").is_empty());
}

#[test]
fn reports_malformed_reference_arguments_without_panicking() {
    let issues = syntax_issues_in_string("@outputs('A'])");
    assert!(!issues.is_empty());
    assert!(issues.iter().any(
        |issue| issue.message.contains("malformed") || issue.message.contains("mismatched")
    ));
}

#[test]
fn reports_empty_reference_arguments() {
    for expression in [
        "@outputs(,)",
        "@formDataValue('A',,)",
        "@triggerFormDataValue(,)",
    ] {
        let issues = syntax_issues_in_string(expression);
        assert!(
            issues
                .iter()
                .any(|issue| issue.message.contains("empty argument")),
            "{expression}: {issues:?}"
        );
    }
}

#[test]
fn allows_nested_reference_function_argument() {
    let issues = syntax_issues_in_string("@outputs(parameters('ActionName'))");
    assert!(issues.is_empty());
}

#[test]
fn reports_item_function_arity() {
    let issues = syntax_issues_in_string("@item('unexpected')");
    assert_eq!(issues.len(), 1);
    assert!(issues[0].message.contains("expects 0 argument"));
}

#[test]
fn reports_action_function_arity() {
    let issues = syntax_issues_in_string("@action('unexpected')");
    assert_eq!(issues.len(), 1);
    assert!(issues[0].message.contains("expects 0 argument"));
}

#[test]
fn detects_zero_arg_function_calls_with_spacing() {
    assert!(zero_arg_function_call_in_string("@action ()", "action"));
    assert!(!zero_arg_function_call_in_string(
        "@action('unexpected')",
        "action"
    ));
}

#[test]
fn reports_list_callback_url_function_arity() {
    let issues = syntax_issues_in_string("@listCallbackUrl('unexpected')");
    assert_eq!(issues.len(), 1);
    assert!(issues[0].message.contains("expects 0 argument"));
}

#[test]
fn reports_zero_arg_workflow_function_arity() {
    let issues = syntax_issues_in_string("@triggerBody('unexpected')");
    assert_eq!(issues.len(), 1);
    assert!(issues[0].message.contains("expects 0 argument"));

    let issues = syntax_issues_in_string("@workflow('unexpected')");
    assert_eq!(issues.len(), 1);
    assert!(issues[0].message.contains("expects 0 argument"));
}

#[test]
fn reports_trigger_helper_function_arity() {
    let issues = syntax_issues_in_string("@trigger('unexpected')");
    assert_eq!(issues.len(), 1);
    assert!(issues[0].message.contains("expects 0 argument"));

    let issues = syntax_issues_in_string("@triggerOutputs('unexpected')");
    assert_eq!(issues.len(), 1);
    assert!(issues[0].message.contains("expects 0 argument"));

    let issues = syntax_issues_in_string("@triggerFormDataValue()");
    assert_eq!(issues.len(), 1);
    assert!(issues[0].message.contains("expects 1 argument"));

    let issues = syntax_issues_in_string("@triggerMultipartBody()");
    assert_eq!(issues.len(), 1);
    assert!(issues[0].message.contains("expects 1 argument"));
}

#[test]
fn reports_appsetting_function_arity() {
    let issues = syntax_issues_in_string("@appsetting()");
    assert_eq!(issues.len(), 1);
    assert!(issues[0].message.contains("expects 1 argument"));
}

#[test]
fn reports_unbraced_expression_inside_plain_text() {
    let issues = syntax_issues_in_string("/subscriptions/@appsetting('SUBSCRIPTION_ID')");
    assert_eq!(issues.len(), 1);
    assert!(issues[0].message.contains("plain text"));
}

#[test]
fn ignores_escaped_unbraced_expression_inside_plain_text() {
    assert!(syntax_issues_in_string("@@appsetting('SUBSCRIPTION_ID')").is_empty());
}

#[test]
fn allows_root_expression_accessors() {
    assert!(syntax_issues_in_string("@outputs('A')?['body'].value").is_empty());
    assert!(syntax_issues_in_string("@trigger().outputs?.body").is_empty());
}

#[test]
fn escaped_text_is_inert() {
    for text in ["@@", "@@{outputs('A')}", "a @@b @@{c"] {
        assert!(references_in_string(text).is_empty(), "{text}");
        assert!(function_calls_in_string(text).is_empty(), "{text}");
        assert!(syntax_issues_in_string(text).is_empty(), "{text}");
    }
}

#[test]
fn names_read_back_from_quoted_arguments() {
    for name in ["", "a", "it's", "a''b'", "@{x}", "(", "日本"] {
        let quoted = name.replace('\'', "''");
        let refs = references_in_string(&format!("@variables('{quoted}')"));
        assert_eq!(refs.len(), 1, "{name}");
        assert_eq!(refs[0].kind, ReferenceKind::Variable);
        assert_eq!(refs[0].name, name);
    }
}

#[test]
fn suffixes_follow_their_calls() {
    assert_eq!(
        function_call_suffixes_in_string("@concat(body('A')?['x'], body('B'))", "BODY"),
        vec!["?['x'], body('B'))", ")"]
    );
    assert_eq!(function_call_suffixes_in_string("@f(f(1))", "f"), vec!["", ")"]);
    assert_eq!(
        string_arg_function_call_suffixes_in_string("@concat(body('A').x, body('B').y)", "body", "B"),
        vec![".y)"]
    );
    assert_eq!(
        zero_arg_function_call_suffixes_in_string("@action()?['a']", "action"),
        vec!["?['a']"]
    );
    assert!(zero_arg_function_call_suffixes_in_string("@action('x')", "action").is_empty());
}

#[test]
fn current_item_has_no_name() {
    let refs = references_in_string("@item()?['a']");
    assert_eq!(refs, vec![Reference { kind: ReferenceKind::CurrentItem, name: String::new() }]);
}

#[test]
fn double_quoted_literals_are_reported() {
    assert!(!syntax_issues_in_string("@concat(\"a\", 'b')").is_empty());
}

#[test]
fn a_leading_escape_does_not_escape_the_next_interpolation() {
    let refs = references_in_string("@@@{outputs('A')}");
    assert_eq!(refs, vec![Reference { kind: ReferenceKind::Action, name: "A".to_owned() }]);
    assert!(references_in_string("@@@@{outputs('A')}").is_empty());
    assert!(references_in_string("x @@{outputs('A')}").is_empty());
}

#[test]
fn two_interpolations_are_read_one_by_one() {
    let refs = references_in_string("@{body('A')}, {or} @{concat('it''s', variables('v'))}");
    let first = references_in_string("@body('A')");
    let second = references_in_string("@concat('it''s', variables('v'))");
    assert_eq!(refs.len(), 2);
    assert_eq!(refs[0], first[0]);
    assert_eq!(refs[1], second[0]);
}

#[test]
fn zero_argument_suffixes_and_calls_agree_in_any_case() {
    for text in ["@action()", "@concat(ACTION( ), 'x')", "@action(1)", "@{action()} @{action()}", "plain"] {
        for name in ["action", "Action"] {
            assert_eq!(
                zero_arg_function_call_suffixes_in_string(text, name).is_empty(),
                !zero_arg_function_call_in_string(text, name),
                "{text}"
            );
        }
        assert_eq!(
            zero_arg_function_call_suffixes_in_string(text, "action"),
            zero_arg_function_call_suffixes_in_string(text, "ACTION"),
        );
    }
}

#[test]
fn a_space_after_a_root_expression_is_plain_text() {
    for text in ["@parameters('x') suffix", "@parameters('x') ", "@parameters('x') .body"] {
        let issues = syntax_issues_in_string(text);
        assert_eq!(issues.len(), 1, "{text}");
        assert_eq!(
            issues[0].message,
            "WDL root expression has plain text after the expression; use interpolation with @{...}",
        );
    }
    for text in ["@parameters('x')", "@parameters('x').body?['a'].b", "@ parameters ('x')?.body"] {
        assert!(syntax_issues_in_string(text).is_empty(), "{text}");
    }
}
