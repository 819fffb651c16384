//! What the triggers and webhooks of connectors are judged by.

use vstd::prelude::*;
use vstd::utf8::{is_ascii_chars, is_ascii_chars_encode_utf8};

use crate::arm::ArmScope;
use crate::json::{field, joined, text_field, Document, Node};
use crate::shape::actions::connectors::{
    connection_webhook_findings, unsubscribe_method_findings, access_key_type_names, api_connection_host_findings};
use crate::shape::data_laws::is_text;
use crate::shape::field_validators::resource_findings;
use crate::shape::http::{
    bounds_of, endpoint_method_names, http_inputs_findings, request_method_names,
    RetryPolicyIntervalBounds, webhook_findings, WebhookOperationOptions, WebhookOperationString,
};
use crate::shape::http_laws::{is_host, is_word, law_urls_are_told_by_their_scheme};
use crate::shape::operations::authored_action_findings;
use crate::shape::plain_laws::{
    holds_only, is_plain, lemma_action_alone, lemma_action_by_type, lemma_plain,
};
use crate::shape::recurrence_laws::{is_unmarked, lemma_unmarked_is_literal};
use crate::shape::registry::ActionSpec;
use crate::shape::triggers::http::{
    api_connection_trigger_findings, connector_method_findings, http_trigger_findings,
    unsupported_schedule_findings,
};
use crate::shape::triggers::recurrence::recurrence_findings;
use crate::shape::type_laws::lemma_action_types;
use crate::text::{one_of, one_of_ignoring_case, same_ignoring_case};
use crate::workflow::Workflow;

verus! {

proof fn lemma_request_method_names(name: Seq<char>)
    ensures
        one_of(name, request_method_names()) == (name == "DELETE"@ || name == "GET"@ || name == "HEAD"@ || name == "OPTIONS"@ || name == "PATCH"@ || name == "POST"@ || name == "PUT"@ || name == "TRACE"@),
{
    let list = request_method_names();
    if one_of(name, list) {
        let k = choose|k: int| 0 <= k < list.len() && list[k] == name;
        assert(list[k] == name);
    }
    assert(list[0] == "DELETE"@);
    assert(list[1] == "GET"@);
    assert(list[2] == "HEAD"@);
    assert(list[3] == "OPTIONS"@);
    assert(list[4] == "PATCH"@);
    assert(list[5] == "POST"@);
    assert(list[6] == "PUT"@);
    assert(list[7] == "TRACE"@);
}

proof fn lemma_access_key_type_names(name: Seq<char>)
    ensures
        one_of(name, access_key_type_names()) == (name == "Primary"@ || name == "Secondary"@),
{
    let list = access_key_type_names();
    if one_of(name, list) {
        let k = choose|k: int| 0 <= k < list.len() && list[k] == name;
        assert(list[k] == name);
    }
    assert(list[0] == "Primary"@);
    assert(list[1] == "Secondary"@);
}

proof fn lemma_endpoint_method_names(name: Seq<char>)
    ensures
        one_of_ignoring_case(name, endpoint_method_names()) == (same_ignoring_case(name, "DELETE"@) || same_ignoring_case(name, "GET"@) || same_ignoring_case(name, "PATCH"@) || same_ignoring_case(name, "POST"@) || same_ignoring_case(name, "PUT"@)),
{
    let list = endpoint_method_names();
    assert(list[0] == "DELETE"@);
    assert(list[1] == "GET"@);
    assert(list[2] == "PATCH"@);
    assert(list[3] == "POST"@);
    assert(list[4] == "PUT"@);
    if one_of_ignoring_case(name, list) {
        let k = choose|k: int| 0 <= k < list.len() && same_ignoring_case(name, #[trigger] list[k]);
        assert(same_ignoring_case(name, list[k]));
    }
}

/// Inputs with these members have nothing else.
proof fn lemma_call_alone(node: &Node)
    requires
        holds_only(node, seq!["method"@, "uri"@]),
    ensures
        field(node, "headers"@) is None,
        field(node, "queries"@) is None,
        field(node, "cookie"@) is None,
        field(node, "operationOptions"@) is None,
        field(node, "authentication"@) is None,
        field(node, "retryPolicy"@) is None,
{
    reveal_strlit("method");
    reveal_strlit("uri");
    reveal_strlit("headers");
    reveal_strlit("queries");
    reveal_strlit("cookie");
    reveal_strlit("operationOptions");
    reveal_strlit("authentication");
    reveal_strlit("retryPolicy");
    assert("method"@.len() == 6 && "method"@[0] == 'm');
    assert("uri"@.len() == 3 && "uri"@[0] == 'u');
    assert("headers"@.len() == 7 && "headers"@[0] == 'h');
    assert("queries"@.len() == 7 && "queries"@[0] == 'q');
    assert("cookie"@.len() == 6 && "cookie"@[0] == 'c');
    assert("operationOptions"@.len() == 16 && "operationOptions"@[0] == 'o');
    assert("authentication"@.len() == 14 && "authentication"@[0] == 'a');
    assert("retryPolicy"@.len() == 11 && "retryPolicy"@[0] == 'r');
    let keys = seq!["method"@, "uri"@];
    if field(node, "headers"@) is Some {
        assert(keys.contains("headers"@));
        let i = choose|i: int| 0 <= i < keys.len() && keys[i] == "headers"@;
        assert(keys[i] == "headers"@);
    }
    if field(node, "queries"@) is Some {
        assert(keys.contains("queries"@));
        let i = choose|i: int| 0 <= i < keys.len() && keys[i] == "queries"@;
        assert(keys[i] == "queries"@);
    }
    if field(node, "cookie"@) is Some {
        assert(keys.contains("cookie"@));
        let i = choose|i: int| 0 <= i < keys.len() && keys[i] == "cookie"@;
        assert(keys[i] == "cookie"@);
    }
    if field(node, "operationOptions"@) is Some {
        assert(keys.contains("operationOptions"@));
        let i = choose|i: int| 0 <= i < keys.len() && keys[i] == "operationOptions"@;
        assert(keys[i] == "operationOptions"@);
    }
    if field(node, "authentication"@) is Some {
        assert(keys.contains("authentication"@));
        let i = choose|i: int| 0 <= i < keys.len() && keys[i] == "authentication"@;
        assert(keys[i] == "authentication"@);
    }
    if field(node, "retryPolicy"@) is Some {
        assert(keys.contains("retryPolicy"@));
        let i = choose|i: int| 0 <= i < keys.len() && keys[i] == "retryPolicy"@;
        assert(keys[i] == "retryPolicy"@);
    }
}

/// Inputs with these members have nothing else.
proof fn lemma_connector_alone(node: &Node)
    requires
        holds_only(node, seq!["host"@, "method"@, "path"@, "accessKeyType"@]),
    ensures
        field(node, "headers"@) is None,
        field(node, "queries"@) is None,
        field(node, "cookie"@) is None,
        field(node, "operationOptions"@) is None,
        field(node, "authentication"@) is None,
        field(node, "retryPolicy"@) is None,
{
    reveal_strlit("host");
    reveal_strlit("method");
    reveal_strlit("path");
    reveal_strlit("accessKeyType");
    reveal_strlit("headers");
    reveal_strlit("queries");
    reveal_strlit("cookie");
    reveal_strlit("operationOptions");
    reveal_strlit("authentication");
    reveal_strlit("retryPolicy");
    assert("host"@.len() == 4 && "host"@[0] == 'h');
    assert("method"@.len() == 6 && "method"@[0] == 'm');
    assert("path"@.len() == 4 && "path"@[0] == 'p');
    assert("accessKeyType"@.len() == 13 && "accessKeyType"@[0] == 'a');
    assert("headers"@.len() == 7 && "headers"@[0] == 'h');
    assert("queries"@.len() == 7 && "queries"@[0] == 'q');
    assert("cookie"@.len() == 6 && "cookie"@[0] == 'c');
    assert("operationOptions"@.len() == 16 && "operationOptions"@[0] == 'o');
    assert("authentication"@.len() == 14 && "authentication"@[0] == 'a');
    assert("retryPolicy"@.len() == 11 && "retryPolicy"@[0] == 'r');
    let keys = seq!["host"@, "method"@, "path"@, "accessKeyType"@];
    if field(node, "headers"@) is Some {
        assert(keys.contains("headers"@));
        let i = choose|i: int| 0 <= i < keys.len() && keys[i] == "headers"@;
        assert(keys[i] == "headers"@);
    }
    if field(node, "queries"@) is Some {
        assert(keys.contains("queries"@));
        let i = choose|i: int| 0 <= i < keys.len() && keys[i] == "queries"@;
        assert(keys[i] == "queries"@);
    }
    if field(node, "cookie"@) is Some {
        assert(keys.contains("cookie"@));
        let i = choose|i: int| 0 <= i < keys.len() && keys[i] == "cookie"@;
        assert(keys[i] == "cookie"@);
    }
    if field(node, "operationOptions"@) is Some {
        assert(keys.contains("operationOptions"@));
        let i = choose|i: int| 0 <= i < keys.len() && keys[i] == "operationOptions"@;
        assert(keys[i] == "operationOptions"@);
    }
    if field(node, "authentication"@) is Some {
        assert(keys.contains("authentication"@));
        let i = choose|i: int| 0 <= i < keys.len() && keys[i] == "authentication"@;
        assert(keys[i] == "authentication"@);
    }
    if field(node, "retryPolicy"@) is Some {
        assert(keys.contains("retryPolicy"@));
        let i = choose|i: int| 0 <= i < keys.len() && keys[i] == "retryPolicy"@;
        assert(keys[i] == "retryPolicy"@);
    }
}

/// A connection is named.
pub open spec fn names_connection(host: &Node) -> bool {
    match field(host, "connection"@) {
        Some(connection) => connection.kind is Object && (is_text(&connection, "name"@) || is_text(
            &connection,
            "referenceName"@,
        ) || is_text(&connection, "id"@)),
        None => false,
    }
}

/// A connection has texts for names.
pub open spec fn has_text_names(host: &Node) -> bool {
    match field(host, "connection"@) {
        Some(connection) => {
            &&& field(&connection, "name"@) is Some ==> is_text(&connection, "name"@)
            &&& field(&connection, "referenceName"@) is Some ==> is_text(
                &connection,
                "referenceName"@,
            )
            &&& field(&connection, "id"@) is Some ==> is_text(&connection, "id"@)
        },
        None => true,
    }
}

/// An `Http` trigger that recurs as it may is clean exactly where it polls a URL of
/// HTTP, of at most 2048 bytes, by a method of HTTP.
pub proof fn law_http_triggers_poll_a_url(
    trigger: &Node,
    inputs: &Node,
    recurrence: &Node,
    method: Seq<char>,
    protocol: Seq<char>,
    host: Seq<char>,
    pointer: Seq<char>,
    file: &Document,
    scope: &ArmScope,
)
    requires
        is_plain(file, scope),
        recurrence_findings(trigger, Some(*recurrence), pointer, file).len() == 0,
        inputs.kind is Object,
        holds_only(inputs, seq!["method"@, "uri"@]),
        text_field(inputs, "method"@) == Some(method),
        is_unmarked(method),
        is_word(protocol),
        is_host(host),
        text_field(inputs, "uri"@) == Some(protocol + seq![':', '/', '/'] + host),
    ensures
        (http_trigger_findings(trigger, Some(*inputs), Some(*recurrence), pointer, file).len() == 0)
            == {
            &&& method == "DELETE"@ || method == "GET"@ || method == "HEAD"@ || method == "OPTIONS"@ || method == "PATCH"@ || method == "POST"@ || method == "PUT"@ || method == "TRACE"@
            &&& same_ignoring_case(protocol, "http"@) || same_ignoring_case(protocol, "https"@)
            &&& protocol.len() + 3 + host.len() <= 2048
        },
        http_trigger_findings(trigger, Some(*inputs), None, pointer, file).len() > 0,
{
    lemma_plain(file, scope);
    lemma_call_alone(inputs);
    lemma_unmarked_is_literal(method);
    lemma_request_method_names(method);
    let uri = protocol + seq![':', '/', '/'] + host;
    assert(uri =~= protocol + seq![':', '/', '/'] + host + Seq::empty());
    law_urls_are_told_by_their_scheme(protocol, host, Seq::empty());
    let n = protocol.len() as int;
    assert forall|i: int| 0 <= i < uri.len() implies #[trigger] uri[i] != '@' && '\0' <= uri[i]
        <= '\u{7f}' by {
        if i < n {
            assert(uri[i] == protocol[i]);
        } else if i >= n + 3 {
            assert(uri[i] == host[i - n - 3]);
        }
    }
    assert(is_ascii_chars(uri));
    is_ascii_chars_encode_utf8(uri);
    lemma_unmarked_is_literal(uri);
    let at = joined(pointer, "inputs"@);
    assert(http_inputs_findings(
        inputs,
        at,
        "Http trigger inputs"@,
        RetryPolicyIntervalBounds::Stateful,
        file,
    ).len() == 0);
}

/// An `ApiConnection` trigger that recurs as it may is clean exactly where it has no
/// schedule and polls a path of a named connection by a known method, whatever its
/// case, with a known key.
pub proof fn law_connector_triggers_poll_a_path(
    trigger: &Node,
    inputs: &Node,
    recurrence: &Node,
    host: &Node,
    method: Seq<char>,
    key: Seq<char>,
    pointer: Seq<char>,
    file: &Document,
    workflow: &Workflow,
    scope: &ArmScope,
)
    requires
        is_plain(file, scope),
        text_field(trigger, "type"@) == Some("ApiConnection"@),
        recurrence_findings(trigger, Some(*recurrence), pointer, file).len() == 0,
        field(recurrence, "schedule"@) is Some ==> (field(
            recurrence,
            "schedule"@,
        )->Some_0).kind is Object,
        inputs.kind is Object,
        holds_only(inputs, seq!["host"@, "method"@, "path"@, "accessKeyType"@]),
        field(inputs, "host"@) == Some(*host),
        host.kind is Object,
        has_text_names(host),
        text_field(inputs, "method"@) == Some(method),
        is_unmarked(method),
        text_field(inputs, "accessKeyType"@) == Some(key),
        is_unmarked(key),
    ensures
        (api_connection_trigger_findings(
            trigger,
            Some(*inputs),
            Some(*recurrence),
            pointer,
            file,
            workflow,
        ).len() == 0) == {
            &&& names_connection(host)
            &&& is_text(inputs, "path"@)
            &&& field(recurrence, "schedule"@) is None
            &&& key == "Primary"@ || key == "Secondary"@
            &&& same_ignoring_case(method, "DELETE"@) || same_ignoring_case(method, "GET"@) || same_ignoring_case(method, "PATCH"@) || same_ignoring_case(method, "POST"@) || same_ignoring_case(method, "PUT"@)
        },
{
    lemma_plain(file, scope);
    lemma_connector_alone(inputs);
    lemma_unmarked_is_literal(method);
    lemma_unmarked_is_literal(key);
    lemma_endpoint_method_names(method);
    lemma_access_key_type_names(key);
    assert(same_ignoring_case("ApiConnection"@, "ApiConnection"@));
    let at = joined(pointer, "inputs"@);
    assert(http_inputs_findings(
        inputs,
        at,
        "ApiConnection trigger inputs"@,
        bounds_of(workflow),
        file,
    ).len() == 0);
    let named = api_connection_host_findings(inputs, at, file);
    assert((named.len() == 0) == names_connection(host));
    let called = connector_method_findings(trigger, inputs, at, file);
    assert((called.len() == 0) == one_of_ignoring_case(method, endpoint_method_names()));
    let refused = unsupported_schedule_findings(trigger, Some(*recurrence), pointer, file);
    assert((refused.len() == 0) == (field(recurrence, "schedule"@) is None));
}

/// Inputs with these members have nothing else.
proof fn lemma_inputs_of_webhooks_of_connectors_call_a_path(node: &Node)
    requires
        holds_only(node, seq!["host"@, "method"@, "path"@, "accessKeyType"@]),
    ensures
        field(node, "subscribe"@) is None,
        field(node, "unsubscribe"@) is None,
{
    reveal_strlit("host");
    reveal_strlit("method");
    reveal_strlit("path");
    reveal_strlit("accessKeyType");
    reveal_strlit("subscribe");
    reveal_strlit("unsubscribe");
    assert("host"@.len() == 4 && "host"@[0] == 'h');
    assert("method"@.len() == 6 && "method"@[0] == 'm');
    assert("path"@.len() == 4 && "path"@[0] == 'p');
    assert("accessKeyType"@.len() == 13 && "accessKeyType"@[0] == 'a');
    assert("subscribe"@.len() == 9 && "subscribe"@[0] == 's');
    assert("unsubscribe"@.len() == 11 && "unsubscribe"@[0] == 'u');
    let keys = seq!["host"@, "method"@, "path"@, "accessKeyType"@];
    if field(node, "subscribe"@) is Some {
        assert(keys.contains("subscribe"@));
        let i = choose|i: int| 0 <= i < keys.len() && keys[i] == "subscribe"@;
        assert(keys[i] == "subscribe"@);
    }
    if field(node, "unsubscribe"@) is Some {
        assert(keys.contains("unsubscribe"@));
        let i = choose|i: int| 0 <= i < keys.len() && keys[i] == "unsubscribe"@;
        assert(keys[i] == "unsubscribe"@);
    }
}

/// An `ApiConnectionWebhook` action without operations of its own is clean exactly
/// where it calls a path of a named connection by a method of HTTP, with a known
/// key.
pub proof fn law_webhooks_of_connectors_call_a_path(
    action: &Node,
    inputs: &Node,
    kind: Seq<char>,
    host: &Node,
    method: Seq<char>,
    key: Seq<char>,
    pointer: Seq<char>,
    container: Seq<char>,
    file: &Document,
    workflow: &Workflow,
    scope: &ArmScope,
)
    requires
        is_plain(file, scope),
        holds_only(action, seq!["type"@, "inputs"@]),
        text_field(action, "type"@) == Some(kind),
        same_ignoring_case(kind, "ApiConnectionWebhook"@),
        field(action, "inputs"@) == Some(*inputs),
        inputs.kind is Object,
        holds_only(inputs, seq!["host"@, "method"@, "path"@, "accessKeyType"@]),
        field(inputs, "host"@) == Some(*host),
        host.kind is Object,
        has_text_names(host),
        text_field(inputs, "method"@) == Some(method),
        is_unmarked(method),
        text_field(inputs, "accessKeyType"@) == Some(key),
        is_unmarked(key),
    ensures
        (authored_action_findings(action, pointer, container, file, workflow, scope).len() == 0)
            == ({
            &&& names_connection(host)
            &&& is_text(inputs, "path"@)
            &&& key == "Primary"@ || key == "Secondary"@
            &&& method == "DELETE"@ || method == "GET"@ || method == "HEAD"@ || method == "OPTIONS"@ || method == "PATCH"@ || method == "POST"@ || method == "PUT"@ || method == "TRACE"@
        }),
{
    let declared = field(action, "type"@)->Some_0;
    lemma_plain(file, scope);
    lemma_action_alone(action);
    lemma_action_types(kind);
    lemma_action_by_type(
        action,
        pointer,
        container,
        file,
        workflow,
        scope,
        &declared,
        kind,
        ActionSpec::ApiConnectionWebhook,
    );
    lemma_inputs_of_webhooks_of_connectors_call_a_path(inputs);
    lemma_connector_alone(inputs);
    lemma_unmarked_is_literal(method);
    lemma_unmarked_is_literal(key);
    lemma_request_method_names(method);
    lemma_access_key_type_names(key);
    let at = joined(pointer, "inputs"@);
    assert(http_inputs_findings(
        inputs,
        at,
        "ApiConnectionWebhook inputs"@,
        bounds_of(workflow),
        file,
    ).len() == 0);
    let named = api_connection_host_findings(inputs, at, file);
    assert((named.len() == 0) == names_connection(host));
}

/// A resource is clean exactly where it is an object that is named in one way at
/// least.
pub proof fn law_resources_are_named(
    object: &Node,
    value: &Node,
    base: Seq<char>,
    key: Seq<char>,
    label: Seq<char>,
    file: &Document,
    scope: &ArmScope,
)
    requires
        is_plain(file, scope),
        field(object, key) == Some(*value),
        !(value.kind is Null),
        field(value, "connectionName"@) is Some ==> is_text(value, "connectionName"@),
        field(value, "id"@) is Some ==> is_text(value, "id"@),
        field(value, "name"@) is Some ==> is_text(value, "name"@),
        field(value, "type"@) is Some ==> is_text(value, "type"@),
    ensures
        (resource_findings(object, base, key, label, file).len() == 0) == (value.kind is Object && (
        is_text(value, "connectionName"@) || is_text(value, "id"@) || is_text(value, "name"@)
            || is_text(value, "type"@))),
{
    lemma_plain(file, scope);
}

/// A webhook of a connector that subscribes by an object, and ends the subscription
/// by one too, is reported where either names no method, and where it subscribes by
/// a text.
pub proof fn law_operations_of_webhooks_name_a_method(
    inputs: &Node,
    subscribe: &Node,
    unsubscribe: &Node,
    base: Seq<char>,
    file: &Document,
    workflow: &Workflow,
    scope: &ArmScope,
)
    requires
        is_plain(file, scope),
        field(inputs, "subscribe"@) == Some(*subscribe),
        field(inputs, "unsubscribe"@) == Some(*unsubscribe),
    ensures
        subscribe.kind is Object && field(subscribe, "method"@) is None
            ==> connection_webhook_findings(inputs, base, file, workflow).len() > 0,
        unsubscribe.kind is Object && field(unsubscribe, "method"@) is None
            ==> connection_webhook_findings(inputs, base, file, workflow).len() > 0,
        subscribe.kind is String || unsubscribe.kind is String ==> connection_webhook_findings(
            inputs,
            base,
            file,
            workflow,
        ).len() > 0,
{
    lemma_plain(file, scope);
    let options = WebhookOperationOptions {
        string_operation: WebhookOperationString::Disallow,
        retry_bounds: bounds_of(workflow),
    };
    let first = webhook_findings(inputs, base, "subscribe"@, true, options, file);
    let second = webhook_findings(inputs, base, "unsubscribe"@, false, options, file);
    let method = unsubscribe_method_findings(inputs, base, "unsubscribe"@, file);
    assert(connection_webhook_findings(inputs, base, file, workflow).len() >= first.len()
        + second.len() + method.len());
    if subscribe.kind is Object && field(subscribe, "method"@) is None {
        assert(first.len() > 0);
    }
    if unsubscribe.kind is Object && field(unsubscribe, "method"@) is None {
        assert(method.len() > 0);
    }
}

} // verus!
