use logicapps_lint::shape::dynamic_wdl::{
    wdl_string_may_be_integer, wdl_string_may_be_iso8601_duration,
    wdl_string_may_be_positive_integer,
};
use logicapps_lint::shape::http_uri::{valid_dynamic_http_endpoint_uri, valid_http_endpoint_uri};
use logicapps_lint::shape::operation_options::{
    operation_option_enabled, operation_option_tokens,
};
use logicapps_lint::wdl::value::WdlStringValue;

fn may_be_url(text: &str) -> bool {
    match WdlStringValue::classify(text) {
        WdlStringValue::Template(template) => valid_dynamic_http_endpoint_uri(&template),
        _ => panic!("{text} has no interpolation"),
    }
}

#[test]
fn urls_pass_where_an_interpolation_may_complete_them() {
    for text in [
        "@{parameters('url')}",
        "ht@{parameters('rest')}",
        "https://@{parameters('host')}/a",
        "https://example.com:@{parameters('port')}/a",
        "https://example.com:8@{parameters('port')}/a",
        "https://user:@{parameters('key')}@@example.com/a",
        "https://[@{parameters('address')}]/a",
        "https://[::1]:@{parameters('port')}/a",
        "https://a%2@{parameters('rest')}",
        "https://example.com/@{parameters('path')}",
    ] {
        assert!(may_be_url(text), "{text}");
    }
}

#[test]
fn urls_fail_where_nothing_can_complete_them() {
    for text in [
        "ftp://@{parameters('host')}",
        "https:///@{parameters('path')}",
        "https://:80/@{parameters('path')}",
        "https://exa<mple@{parameters('rest')}",
        "https://[::1]x@{parameters('port')}",
        "https://host/ @{parameters('path')}",
        "x@{parameters('url')}",
    ] {
        assert!(!may_be_url(text), "{text}");
    }
    assert!(valid_http_endpoint_uri("https://example.com:80/a"));
    assert!(!valid_http_endpoint_uri("https://example.com:/a"));
}

#[test]
fn numbers_pass_where_an_interpolation_may_complete_them() {
    assert!(wdl_string_may_be_integer("+5"));
    assert!(wdl_string_may_be_integer("+@{variables('n')}"));
    assert!(wdl_string_may_be_integer("-@{variables('n')}0"));
    assert!(!wdl_string_may_be_integer("@{variables('n')}x"));
    assert!(wdl_string_may_be_positive_integer("+@{variables('n')}"));
    assert!(!wdl_string_may_be_positive_integer("-@{variables('n')}"));
    assert!(wdl_string_may_be_positive_integer("@variables('n')"));
}

#[test]
fn durations_pass_where_an_interpolation_may_complete_them() {
    assert!(wdl_string_may_be_iso8601_duration("PT@{variables('n')}S"));
    assert!(wdl_string_may_be_iso8601_duration("@{variables('n')}"));
    assert!(!wdl_string_may_be_iso8601_duration("T@{variables('n')}S"));
    assert!(!wdl_string_may_be_iso8601_duration("PT@{variables('n')}x"));
    assert!(!wdl_string_may_be_iso8601_duration("PT@{variables('n')}1"));
}

#[test]
fn an_interpolation_is_one_token() {
    assert_eq!(
        operation_option_tokens("@{parameters('x')}, Sequential"),
        vec!["@{parameters('x')}", "Sequential"]
    );
    assert_eq!(
        operation_option_tokens("@{concat('}', ' a')} Sequential,,Sequential"),
        vec!["@{concat('}', ' a')}", "Sequential", "Sequential"]
    );
    assert_eq!(operation_option_tokens("a @{b, c"), vec!["a", "@{b, c"]);
    assert_eq!(operation_option_tokens("@@{a, b}"), vec!["@@{a", "b}"]);
}

#[test]
fn only_literal_tokens_enable_an_option() {
    assert!(operation_option_enabled("A,SingleInstance B", "SingleInstance"));
    assert!(!operation_option_enabled("@{if(true, SingleInstance , 1)}", "SingleInstance"));
    assert!(!operation_option_enabled("@if(true, SingleInstance , 1)", "SingleInstance"));
    assert!(!operation_option_enabled("singleInstance", "SingleInstance"));
}
