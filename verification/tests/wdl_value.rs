use logicapps_lint::wdl::WdlStringValue;

#[test]
fn classifies_full_expression_and_interpolation_separately() {
    assert!(WdlStringValue::classify("@concat('a', 'b')").is_full_expression());
    let value = WdlStringValue::classify("@{concat('a', 'b')}");
    let template = value.template().expect("interpolation template");
    assert_eq!(template.literal_segments(), &[String::new(), String::new()]);
}

#[test]
fn exact_matching_uses_static_template_suffixes() {
    let value = WdlStringValue::classify("@{parameters('prefix')}Bogus");
    assert!(!value.may_match_exact(&["Second", "Minute"]));
    let value = WdlStringValue::classify("@{parameters('prefix')}cond");
    assert!(value.may_match_exact(&["Second"]));
}

#[test]
fn leading_at_escape_is_a_literal_value() {
    let value = WdlStringValue::classify("@@");
    assert_eq!(value.literal(), Some("@"));
}

#[test]
fn leading_at_escape_keeps_later_interpolation_dynamic() {
    let value = WdlStringValue::classify("@@prefix @{parameters('suffix')}");
    let template = value.template().expect("interpolation template");
    assert_eq!(template.static_prefix(), "@prefix ");
    assert_eq!(template.static_suffix(), "");

    let value = WdlStringValue::classify("@@@{parameters('suffix')}");
    let template = value.template().expect("interpolation template");
    assert_eq!(template.static_prefix(), "@");
}

#[test]
fn malformed_interpolation_remains_dynamic_but_opaque() {
    let value = WdlStringValue::classify("prefix @{parameters('suffix')");
    assert!(value.has_dynamic_value());
    assert!(value.template().is_none());
}

#[test]
fn templates_match_whatever_fills_their_gaps() {
    let value = WdlStringValue::classify("a@{x()}b@{y()}c");
    assert!(value.may_match_exact(&["abc", "zzz"]));
    assert!(value.may_match_exact(&["a--b--c"]));
    assert!(!value.may_match_exact(&["acb"]));
    assert!(!value.may_match_exact(&["ABC"]));
    assert!(value.may_match_exact_ignore_case(&["ABC"]));
}

#[test]
fn overlapping_prefix_and_suffix_do_not_match() {
    let value = WdlStringValue::classify("ab@{x()}bc");
    assert!(!value.may_match_exact(&["abc"]));
    assert!(value.may_match_exact(&["abbc"]));
}

#[test]
fn lengths_count_the_literal_parts() {
    let value = WdlStringValue::classify("ab@{x()}c");
    assert!(value.may_have_char_len(3));
    assert!(value.may_have_char_len(9));
    assert!(!value.may_have_char_len(2));
    assert!(WdlStringValue::classify("abc").may_have_char_len(3));
    assert!(!WdlStringValue::classify("abc").may_have_char_len(4));
}
