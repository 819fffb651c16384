//! What the lesser fields of actions are judged by.

use vstd::prelude::*;

use crate::arm::ArmScope;
use crate::json::{field, joined, text_field, text_of, Document, Json, Member, Node, Number};
use crate::shape::actions::connectors::function_authentication_findings;
use crate::shape::actions::control::{
    is_request, is_request_node, response_placement_findings, wait_choice_findings,
};
use crate::shape::actions::data::column_findings;
use crate::shape::actions::integration::{
    criteria_findings, criteria_pace_findings, xslt_parameter_findings,
};
use crate::shape::actions::variables::{
    initialized_findings, initializer_findings, initializer_list_findings, variable_type_names,
};
use crate::shape::data_laws::{is_text, names_artifact};

use crate::shape::field_validators::scalar_findings;
use crate::shape::graph::{in_loop, parallel_dependency, successor_of};
use crate::shape::holes::{are_triggers_open, is_order_open_beside};
use crate::shape::http::{
    authentication_findings, bounds_of, http_inputs_findings, request_method_names,
};
use crate::shape::operations::authored_action_findings;

use crate::shape::plain_laws::{
    holds_only, is_plain, keeps_state, lemma_action_alone, lemma_action_by_type, lemma_plain,
};
use crate::shape::recurrence_laws::{is_unmarked, lemma_unmarked_is_literal};
use crate::shape::registry::ActionSpec;
use crate::shape::type_laws::lemma_action_types;
use crate::text::{folded, one_of, one_of_ignoring_case, same_ignoring_case};
use crate::wdl::value::is_root_expression;
use crate::workflow::{node_of, Workflow};

verus! {

/// No member is an object or a list.
pub open spec fn are_scalars(members: Seq<Member>, n: int) -> bool {
    forall|i: int|
        0 <= i < n ==> !((#[trigger] members[i]).value.kind is Object) && !(
        members[i].value.kind is Array)
}

proof fn lemma_scalars(
    members: Seq<Member>,
    n: nat,
    base: Seq<char>,
    label: Seq<char>,
    file: &Document,
    scope: &ArmScope,
)
    requires
        is_plain(file, scope),
        n <= members.len(),
    ensures
        (scalar_findings(members, n, base, label, file).len() == 0) == are_scalars(
            members,
            n as int,
        ),
    decreases n,
{
    lemma_plain(file, scope);
    if n > 0 {
        lemma_scalars(members, (n - 1) as nat, base, label, file, scope);
    }
}

/// Inputs with these members have nothing else.
proof fn lemma_headers_alone(node: &Node)
    requires
        holds_only(node, seq!["method"@, "uri"@, "headers"@]),
    ensures
        field(node, "queries"@) is None,
        field(node, "cookie"@) is None,
        field(node, "operationOptions"@) is None,
        field(node, "authentication"@) is None,
        field(node, "retryPolicy"@) is None,
{
    reveal_strlit("method");
    reveal_strlit("uri");
    reveal_strlit("headers");
    reveal_strlit("queries");
    reveal_strlit("cookie");
    reveal_strlit("operationOptions");
    reveal_strlit("authentication");
    reveal_strlit("retryPolicy");
    assert("method"@.len() == 6 && "method"@[0] == 'm');
    assert("uri"@.len() == 3 && "uri"@[0] == 'u');
    assert("headers"@.len() == 7 && "headers"@[0] == 'h');
    assert("queries"@.len() == 7 && "queries"@[0] == 'q');
    assert("cookie"@.len() == 6 && "cookie"@[0] == 'c');
    assert("operationOptions"@.len() == 16 && "operationOptions"@[0] == 'o');
    assert("authentication"@.len() == 14 && "authentication"@[0] == 'a');
    assert("retryPolicy"@.len() == 11 && "retryPolicy"@[0] == 'r');
    let keys = seq!["method"@, "uri"@, "headers"@];
    if field(node, "queries"@) is Some {
        assert(keys.contains("queries"@));
        let i = choose|i: int| 0 <= i < keys.len() && keys[i] == "queries"@;
        assert(keys[i] == "queries"@);
    }
    if field(node, "cookie"@) is Some {
        assert(keys.contains("cookie"@));
        let i = choose|i: int| 0 <= i < keys.len() && keys[i] == "cookie"@;
        assert(keys[i] == "cookie"@);
    }
    if field(node, "operationOptions"@) is Some {
        assert(keys.contains("operationOptions"@));
        let i = choose|i: int| 0 <= i < keys.len() && keys[i] == "operationOptions"@;
        assert(keys[i] == "operationOptions"@);
    }
    if field(node, "authentication"@) is Some {
        assert(keys.contains("authentication"@));
        let i = choose|i: int| 0 <= i < keys.len() && keys[i] == "authentication"@;
        assert(keys[i] == "authentication"@);
    }
    if field(node, "retryPolicy"@) is Some {
        assert(keys.contains("retryPolicy"@));
        let i = choose|i: int| 0 <= i < keys.len() && keys[i] == "retryPolicy"@;
        assert(keys[i] == "retryPolicy"@);
    }
}

/// The headers of a call are clean exactly where they are a text or an object whose
/// members are neither objects nor lists.
pub proof fn law_headers_are_flat(
    inputs: &Node,
    headers: &Node,
    base: Seq<char>,
    label: Seq<char>,
    file: &Document,
    workflow: &Workflow,
    scope: &ArmScope,
)
    requires
        is_plain(file, scope),
        holds_only(inputs, seq!["method"@, "uri"@, "headers"@]),
        field(inputs, "headers"@) == Some(*headers),
        !(headers.kind is Null),
    ensures
        (http_inputs_findings(inputs, base, label, bounds_of(workflow), file).len() == 0) == (
        headers.kind is String || (match headers.kind {
            Json::Object(members) => are_scalars(members@, members@.len() as int),
            _ => false,
        })),
{
    lemma_plain(file, scope);
    lemma_headers_alone(inputs);
    if let Json::Object(members) = headers.kind {
        lemma_scalars(
            members@,
            members@.len(),
            joined(base, "headers"@),
            label + ".headers"@,
            file,
            scope,
        );
    }
}

/// Inputs with these members have nothing else.
proof fn lemma_queries_alone(node: &Node)
    requires
        holds_only(node, seq!["method"@, "uri"@, "queries"@]),
    ensures
        field(node, "headers"@) is None,
        field(node, "cookie"@) is None,
        field(node, "operationOptions"@) is None,
        field(node, "authentication"@) is None,
        field(node, "retryPolicy"@) is None,
{
    reveal_strlit("method");
    reveal_strlit("uri");
    reveal_strlit("queries");
    reveal_strlit("headers");
    reveal_strlit("cookie");
    reveal_strlit("operationOptions");
    reveal_strlit("authentication");
    reveal_strlit("retryPolicy");
    assert("method"@.len() == 6 && "method"@[0] == 'm');
    assert("uri"@.len() == 3 && "uri"@[0] == 'u');
    assert("queries"@.len() == 7 && "queries"@[0] == 'q');
    assert("headers"@.len() == 7 && "headers"@[0] == 'h');
    assert("cookie"@.len() == 6 && "cookie"@[0] == 'c');
    assert("operationOptions"@.len() == 16 && "operationOptions"@[0] == 'o');
    assert("authentication"@.len() == 14 && "authentication"@[0] == 'a');
    assert("retryPolicy"@.len() == 11 && "retryPolicy"@[0] == 'r');
    let keys = seq!["method"@, "uri"@, "queries"@];
    if field(node, "headers"@) is Some {
        assert(keys.contains("headers"@));
        let i = choose|i: int| 0 <= i < keys.len() && keys[i] == "headers"@;
        assert(keys[i] == "headers"@);
    }
    if field(node, "cookie"@) is Some {
        assert(keys.contains("cookie"@));
        let i = choose|i: int| 0 <= i < keys.len() && keys[i] == "cookie"@;
        assert(keys[i] == "cookie"@);
    }
    if field(node, "operationOptions"@) is Some {
        assert(keys.contains("operationOptions"@));
        let i = choose|i: int| 0 <= i < keys.len() && keys[i] == "operationOptions"@;
        assert(keys[i] == "operationOptions"@);
    }
    if field(node, "authentication"@) is Some {
        assert(keys.contains("authentication"@));
        let i = choose|i: int| 0 <= i < keys.len() && keys[i] == "authentication"@;
        assert(keys[i] == "authentication"@);
    }
    if field(node, "retryPolicy"@) is Some {
        assert(keys.contains("retryPolicy"@));
        let i = choose|i: int| 0 <= i < keys.len() && keys[i] == "retryPolicy"@;
        assert(keys[i] == "retryPolicy"@);
    }
}

/// The queries of a call are clean exactly where they are an expression or an object
/// whose members are neither objects nor lists.
pub proof fn law_queries_are_flat(
    inputs: &Node,
    queries: &Node,
    base: Seq<char>,
    label: Seq<char>,
    file: &Document,
    workflow: &Workflow,
    scope: &ArmScope,
)
    requires
        is_plain(file, scope),
        holds_only(inputs, seq!["method"@, "uri"@, "queries"@]),
        field(inputs, "queries"@) == Some(*queries),
        !(queries.kind is Null),
    ensures
        (http_inputs_findings(inputs, base, label, bounds_of(workflow), file).len() == 0) == (
        (queries.kind is String && is_root_expression(text_of(queries)->Some_0)) || (match queries.kind {
            Json::Object(members) => are_scalars(members@, members@.len() as int),
            _ => false,
        })),
{
    lemma_plain(file, scope);
    lemma_queries_alone(inputs);
    if let Json::Object(members) = queries.kind {
        lemma_scalars(
            members@,
            members@.len(),
            joined(base, "queries"@),
            label + ".queries"@,
            file,
            scope,
        );
    }
}

proof fn lemma_request_method_names(name: Seq<char>)
    ensures
        one_of(name, request_method_names()) == (name == "DELETE"@ || name == "GET"@ || name == "HEAD"@ || name == "OPTIONS"@ || name == "PATCH"@ || name == "POST"@ || name == "PUT"@ || name == "TRACE"@),
{
    let list = request_method_names();
    if one_of(name, list) {
        let k = choose|k: int| 0 <= k < list.len() && list[k] == name;
        assert(list[k] == name);
    }
    assert(list[0] == "DELETE"@);
    assert(list[1] == "GET"@);
    assert(list[2] == "HEAD"@);
    assert(list[3] == "OPTIONS"@);
    assert(list[4] == "PATCH"@);
    assert(list[5] == "POST"@);
    assert(list[6] == "PUT"@);
    assert(list[7] == "TRACE"@);
}

/// Inputs with these members have nothing else.
proof fn lemma_inputs_of_managed_apis_are_called_by_path(node: &Node)
    requires
        holds_only(node, seq!["api"@, "pathTemplate"@, "method"@]),
    ensures
        field(node, "headers"@) is None,
        field(node, "queries"@) is None,
        field(node, "cookie"@) is None,
        field(node, "operationOptions"@) is None,
        field(node, "authentication"@) is None,
        field(node, "retryPolicy"@) is None,
        field(node, "subscriptionKey"@) is None,
{
    reveal_strlit("api");
    reveal_strlit("pathTemplate");
    reveal_strlit("method");
    reveal_strlit("headers");
    reveal_strlit("queries");
    reveal_strlit("cookie");
    reveal_strlit("operationOptions");
    reveal_strlit("authentication");
    reveal_strlit("retryPolicy");
    reveal_strlit("subscriptionKey");
    assert("api"@.len() == 3 && "api"@[0] == 'a');
    assert("pathTemplate"@.len() == 12 && "pathTemplate"@[0] == 'p');
    assert("method"@.len() == 6 && "method"@[0] == 'm');
    assert("headers"@.len() == 7 && "headers"@[0] == 'h');
    assert("queries"@.len() == 7 && "queries"@[0] == 'q');
    assert("cookie"@.len() == 6 && "cookie"@[0] == 'c');
    assert("operationOptions"@.len() == 16 && "operationOptions"@[0] == 'o');
    assert("authentication"@.len() == 14 && "authentication"@[0] == 'a');
    assert("retryPolicy"@.len() == 11 && "retryPolicy"@[0] == 'r');
    assert("subscriptionKey"@.len() == 15 && "subscriptionKey"@[0] == 's');
    let keys = seq!["api"@, "pathTemplate"@, "method"@];
    if field(node, "headers"@) is Some {
        assert(keys.contains("headers"@));
        let i = choose|i: int| 0 <= i < keys.len() && keys[i] == "headers"@;
        assert(keys[i] == "headers"@);
    }
    if field(node, "queries"@) is Some {
        assert(keys.contains("queries"@));
        let i = choose|i: int| 0 <= i < keys.len() && keys[i] == "queries"@;
        assert(keys[i] == "queries"@);
    }
    if field(node, "cookie"@) is Some {
        assert(keys.contains("cookie"@));
        let i = choose|i: int| 0 <= i < keys.len() && keys[i] == "cookie"@;
        assert(keys[i] == "cookie"@);
    }
    if field(node, "operationOptions"@) is Some {
        assert(keys.contains("operationOptions"@));
        let i = choose|i: int| 0 <= i < keys.len() && keys[i] == "operationOptions"@;
        assert(keys[i] == "operationOptions"@);
    }
    if field(node, "authentication"@) is Some {
        assert(keys.contains("authentication"@));
        let i = choose|i: int| 0 <= i < keys.len() && keys[i] == "authentication"@;
        assert(keys[i] == "authentication"@);
    }
    if field(node, "retryPolicy"@) is Some {
        assert(keys.contains("retryPolicy"@));
        let i = choose|i: int| 0 <= i < keys.len() && keys[i] == "retryPolicy"@;
        assert(keys[i] == "retryPolicy"@);
    }
    if field(node, "subscriptionKey"@) is Some {
        assert(keys.contains("subscriptionKey"@));
        let i = choose|i: int| 0 <= i < keys.len() && keys[i] == "subscriptionKey"@;
        assert(keys[i] == "subscriptionKey"@);
    }
}

/// An `ApiManagement` action is clean exactly where it calls a path of an API by a
/// method of HTTP.
pub proof fn law_managed_apis_are_called_by_path(
    action: &Node,
    inputs: &Node,
    kind: Seq<char>,
    api: &Node,
    method: Seq<char>,
    pointer: Seq<char>,
    container: Seq<char>,
    file: &Document,
    workflow: &Workflow,
    scope: &ArmScope,
)
    requires
        is_plain(file, scope),
        holds_only(action, seq!["type"@, "inputs"@]),
        text_field(action, "type"@) == Some(kind),
        same_ignoring_case(kind, "ApiManagement"@),
        field(action, "inputs"@) == Some(*inputs),
        inputs.kind is Object,
        holds_only(inputs, seq!["api"@, "pathTemplate"@, "method"@]),
        field(inputs, "api"@) == Some(*api),
        field(api, "id"@) is Some ==> is_text(api, "id"@),
        field(api, "name"@) is None,
        field(api, "type"@) is None,
        text_field(inputs, "method"@) == Some(method),
        is_unmarked(method),
    ensures
        (authored_action_findings(action, pointer, container, file, workflow, scope).len() == 0)
            == (api.kind is Object && field(inputs, "pathTemplate"@) is Some && (method == "DELETE"@ || method == "GET"@ || method == "HEAD"@ || method == "OPTIONS"@ || method == "PATCH"@ || method == "POST"@ || method == "PUT"@ || method == "TRACE"@)),
{
    let declared = field(action, "type"@)->Some_0;
    lemma_plain(file, scope);
    lemma_action_alone(action);
    lemma_action_types(kind);
    lemma_action_by_type(
        action,
        pointer,
        container,
        file,
        workflow,
        scope,
        &declared,
        kind,
        ActionSpec::ApiManagement,
    );
    lemma_inputs_of_managed_apis_are_called_by_path(inputs);
    lemma_unmarked_is_literal(method);
    lemma_request_method_names(method);
    assert(http_inputs_findings(
        inputs,
        joined(pointer, "inputs"@),
        "ApiManagement inputs"@,
        bounds_of(workflow),
        file,
    ).len() == 0);
}

proof fn lemma_parameters(
    members: Seq<Member>,
    n: nat,
    base: Seq<char>,
    file: &Document,
    scope: &ArmScope,
)
    requires
        is_plain(file, scope),
        n <= members.len(),
    ensures
        (xslt_parameter_findings(members, n, base, file).len() == 0) == (forall|i: int|
            0 <= i < n ==> (#[trigger] members[i]).value.kind is String || members[i].value.kind is Number
                || members[i].value.kind is Bool),
    decreases n,
{
    lemma_plain(file, scope);
    if n > 0 {
        lemma_parameters(members, (n - 1) as nat, base, file, scope);
    }
}

/// Inputs with these members have nothing else.
proof fn lemma_inputs_of_transformations_take_plain_parameters(node: &Node)
    requires
        holds_only(node, seq!["content"@, "integrationAccount"@, "parameters"@]),
    ensures
        field(node, "transformOptions"@) is None,
{
    reveal_strlit("content");
    reveal_strlit("integrationAccount");
    reveal_strlit("parameters");
    reveal_strlit("transformOptions");
    assert("content"@.len() == 7 && "content"@[0] == 'c');
    assert("integrationAccount"@.len() == 18 && "integrationAccount"@[0] == 'i');
    assert("parameters"@.len() == 10 && "parameters"@[0] == 'p');
    assert("transformOptions"@.len() == 16 && "transformOptions"@[0] == 't');
    let keys = seq!["content"@, "integrationAccount"@, "parameters"@];
    if field(node, "transformOptions"@) is Some {
        assert(keys.contains("transformOptions"@));
        let i = choose|i: int| 0 <= i < keys.len() && keys[i] == "transformOptions"@;
        assert(keys[i] == "transformOptions"@);
    }
}

/// An `Xslt` action is clean exactly where it has content, names a map, and each
/// parameter is a text, a number or a truth value.
pub proof fn law_transformations_take_plain_parameters(
    action: &Node,
    inputs: &Node,
    kind: Seq<char>,
    members: Vec<Member>,
    pointer: Seq<char>,
    container: Seq<char>,
    file: &Document,
    workflow: &Workflow,
    scope: &ArmScope,
)
    requires
        is_plain(file, scope),
        holds_only(action, seq!["type"@, "inputs"@]),
        text_field(action, "type"@) == Some(kind),
        same_ignoring_case(kind, "Xslt"@),
        field(action, "inputs"@) == Some(*inputs),
        inputs.kind is Object,
        holds_only(inputs, seq!["content"@, "integrationAccount"@, "parameters"@]),
        field(inputs, "integrationAccount"@) is Some,
        field(inputs, "parameters"@) is Some,
        (field(inputs, "parameters"@)->Some_0).kind == Json::Object(members),
    ensures
        (authored_action_findings(action, pointer, container, file, workflow, scope).len() == 0)
            == ({
            &&& field(inputs, "content"@) is Some
            &&& names_artifact(inputs, "map"@)
            &&& forall|i: int|
                0 <= i < members@.len() ==> (#[trigger] members@[i]).value.kind is String
                    || members@[i].value.kind is Number || members@[i].value.kind is Bool
        }),
{
    let declared = field(action, "type"@)->Some_0;
    lemma_plain(file, scope);
    lemma_action_alone(action);
    lemma_action_types(kind);
    lemma_action_by_type(
        action,
        pointer,
        container,
        file,
        workflow,
        scope,
        &declared,
        kind,
        ActionSpec::Xslt,
    );
    lemma_inputs_of_transformations_take_plain_parameters(inputs);
    lemma_parameters(
        members@,
        members@.len(),
        joined(joined(pointer, "inputs"@), "parameters"@),
        file,
        scope,
    );
}

/// Inputs with these members have nothing else.
proof fn lemma_uri_alone(node: &Node)
    requires
        holds_only(node, seq!["uri"@, "authentication"@]),
    ensures
        field(node, "headers"@) is None,
        field(node, "queries"@) is None,
        field(node, "cookie"@) is None,
        field(node, "operationOptions"@) is None,
        field(node, "retryPolicy"@) is None,
        field(node, "method"@) is None,
        field(node, "function"@) is None,
        field(node, "functionApp"@) is None,
{
    reveal_strlit("uri");
    reveal_strlit("authentication");
    reveal_strlit("headers");
    reveal_strlit("queries");
    reveal_strlit("cookie");
    reveal_strlit("operationOptions");
    reveal_strlit("retryPolicy");
    reveal_strlit("method");
    reveal_strlit("function");
    reveal_strlit("functionApp");
    assert("uri"@.len() == 3 && "uri"@[0] == 'u');
    assert("authentication"@.len() == 14 && "authentication"@[0] == 'a');
    assert("headers"@.len() == 7 && "headers"@[0] == 'h');
    assert("queries"@.len() == 7 && "queries"@[0] == 'q');
    assert("cookie"@.len() == 6 && "cookie"@[0] == 'c');
    assert("operationOptions"@.len() == 16 && "operationOptions"@[0] == 'o');
    assert("retryPolicy"@.len() == 11 && "retryPolicy"@[0] == 'r');
    assert("method"@.len() == 6 && "method"@[0] == 'm');
    assert("function"@.len() == 8 && "function"@[0] == 'f');
    assert("functionApp"@.len() == 11 && "functionApp"@[0] == 'f');
    let keys = seq!["uri"@, "authentication"@];
    if field(node, "headers"@) is Some {
        assert(keys.contains("headers"@));
        let i = choose|i: int| 0 <= i < keys.len() && keys[i] == "headers"@;
        assert(keys[i] == "headers"@);
    }
    if field(node, "queries"@) is Some {
        assert(keys.contains("queries"@));
        let i = choose|i: int| 0 <= i < keys.len() && keys[i] == "queries"@;
        assert(keys[i] == "queries"@);
    }
    if field(node, "cookie"@) is Some {
        assert(keys.contains("cookie"@));
        let i = choose|i: int| 0 <= i < keys.len() && keys[i] == "cookie"@;
        assert(keys[i] == "cookie"@);
    }
    if field(node, "operationOptions"@) is Some {
        assert(keys.contains("operationOptions"@));
        let i = choose|i: int| 0 <= i < keys.len() && keys[i] == "operationOptions"@;
        assert(keys[i] == "operationOptions"@);
    }
    if field(node, "retryPolicy"@) is Some {
        assert(keys.contains("retryPolicy"@));
        let i = choose|i: int| 0 <= i < keys.len() && keys[i] == "retryPolicy"@;
        assert(keys[i] == "retryPolicy"@);
    }
    if field(node, "method"@) is Some {
        assert(keys.contains("method"@));
        let i = choose|i: int| 0 <= i < keys.len() && keys[i] == "method"@;
        assert(keys[i] == "method"@);
    }
    if field(node, "function"@) is Some {
        assert(keys.contains("function"@));
        let i = choose|i: int| 0 <= i < keys.len() && keys[i] == "function"@;
        assert(keys[i] == "function"@);
    }
    if field(node, "functionApp"@) is Some {
        assert(keys.contains("functionApp"@));
        let i = choose|i: int| 0 <= i < keys.len() && keys[i] == "functionApp"@;
        assert(keys[i] == "functionApp"@);
    }
}

/// A `Function` action that authenticates by its managed identity is clean exactly
/// where the workflow is a Consumption one.
pub proof fn law_managed_identities_call_no_functions_from_standard_workflows(
    action: &Node,
    inputs: &Node,
    kind: Seq<char>,
    auth: &Node,
    pointer: Seq<char>,
    container: Seq<char>,
    file: &Document,
    workflow: &Workflow,
    scope: &ArmScope,
)
    requires
        is_plain(file, scope),
        holds_only(action, seq!["type"@, "inputs"@]),
        text_field(action, "type"@) == Some(kind),
        same_ignoring_case(kind, "Function"@),
        field(action, "inputs"@) == Some(*inputs),
        inputs.kind is Object,
        holds_only(inputs, seq!["uri"@, "authentication"@]),
        is_text(inputs, "uri"@),
        field(inputs, "authentication"@) == Some(*auth),
        auth.kind is Object,
        text_field(auth, "type"@) == Some("ManagedServiceIdentity"@),
        authentication_findings(inputs, joined(pointer, "inputs"@), "Function inputs"@, file).len() == 0,
    ensures
        (authored_action_findings(action, pointer, container, file, workflow, scope).len() == 0)
            == (workflow.kind is None),
{
    let declared = field(action, "type"@)->Some_0;
    lemma_plain(file, scope);
    lemma_action_alone(action);
    lemma_action_types(kind);
    lemma_action_by_type(
        action,
        pointer,
        container,
        file,
        workflow,
        scope,
        &declared,
        kind,
        ActionSpec::Function,
    );
    lemma_uri_alone(inputs);
    assert(same_ignoring_case("ManagedServiceIdentity"@, "ManagedServiceIdentity"@));
    let at = joined(pointer, "inputs"@);
    assert(http_inputs_findings(inputs, at, "Function inputs"@, bounds_of(workflow), file).len()
        == 0);
    let identity = function_authentication_findings(inputs, at, file, workflow);
    assert((identity.len() == 0) == (workflow.kind is None));
}

proof fn lemma_variable_type_names(name: Seq<char>)
    ensures
        one_of_ignoring_case(name, variable_type_names()) == (same_ignoring_case(name, "Array"@) || same_ignoring_case(name, "Boolean"@) || same_ignoring_case(name, "Float"@) || same_ignoring_case(name, "Integer"@) || same_ignoring_case(name, "Object"@) || same_ignoring_case(name, "String"@)),
{
    let list = variable_type_names();
    assert(list[0] == "Array"@);
    assert(list[1] == "Boolean"@);
    assert(list[2] == "Float"@);
    assert(list[3] == "Integer"@);
    assert(list[4] == "Object"@);
    assert(list[5] == "String"@);
    if one_of_ignoring_case(name, list) {
        let k = choose|k: int| 0 <= k < list.len() && same_ignoring_case(name, #[trigger] list[k]);
        assert(same_ignoring_case(name, list[k]));
    }
}

/// An object declares a variable of a known type.
pub open spec fn is_declaration(node: &Node) -> bool {
    &&& node.kind is Object
    &&& is_text(node, "name"@)
    &&& match text_field(node, "type"@) {
        Some(kind) => same_ignoring_case(kind, "Array"@) || same_ignoring_case(kind, "Boolean"@) || same_ignoring_case(kind, "Float"@) || same_ignoring_case(kind, "Integer"@) || same_ignoring_case(kind, "Object"@) || same_ignoring_case(kind, "String"@),
        None => false,
    }
}

proof fn lemma_declarations(
    items: Seq<Node>,
    n: nat,
    base: Seq<char>,
    file: &Document,
    scope: &ArmScope,
)
    requires
        is_plain(file, scope),
        n <= items.len(),
    ensures
        (initializer_list_findings(items, n, base, file).len() == 0) == (forall|i: int|
            0 <= i < n ==> is_declaration(#[trigger] &items[i])),
    decreases n,
{
    lemma_plain(file, scope);
    if n > 0 {
        lemma_declarations(items, (n - 1) as nat, base, file, scope);
        if let Some(kind) = text_field(&items[n - 1], "type"@) {
            lemma_variable_type_names(kind);
        }
        let at = joined(base, crate::text::decimal(n - 1));
        assert(items[n - 1].kind is Object ==> (initializer_findings(
            &items[n - 1],
            at,
            file,
        ).len() == 0) == is_declaration(&items[n - 1]));
    }
}

/// A list of variables is clean exactly where it is not empty and each entry
/// declares one of a known type.
pub proof fn law_lists_of_variables_declare_each(
    inputs: &Node,
    items: Vec<Node>,
    base: Seq<char>,
    file: &Document,
    scope: &ArmScope,
)
    requires
        is_plain(file, scope),
        field(inputs, "variables"@) is Some,
        (field(inputs, "variables"@)->Some_0).kind == Json::Array(items),
    ensures
        (initialized_findings(inputs, base, file).len() == 0) == (items@.len() > 0 && forall|
            i: int,
        |
            0 <= i < items@.len() ==> is_declaration(#[trigger] &items@[i])),
{
    lemma_plain(file, scope);
    lemma_declarations(items@, items@.len(), joined(base, "variables"@), file, scope);
}

proof fn lemma_columns(
    items: Seq<Node>,
    n: nat,
    base: Seq<char>,
    file: &Document,
    scope: &ArmScope,
)
    requires
        is_plain(file, scope),
        n <= items.len(),
    ensures
        (column_findings(items, n, base, file).len() == 0) == (forall|i: int|
            0 <= i < n ==> (#[trigger] items[i]).kind is Object && is_text(&items[i], "header"@)
                && field(&items[i], "value"@) is Some),
    decreases n,
{
    lemma_plain(file, scope);
    if n > 0 {
        lemma_columns(items, (n - 1) as nat, base, file, scope);
    }
}

/// A `Table` action with columns over a text is clean exactly where each column has
/// a header and a value.
pub proof fn law_columns_have_a_header_and_a_value(
    action: &Node,
    inputs: &Node,
    kind: Seq<char>,
    items: Vec<Node>,
    pointer: Seq<char>,
    container: Seq<char>,
    file: &Document,
    workflow: &Workflow,
    scope: &ArmScope,
)
    requires
        is_plain(file, scope),
        holds_only(action, seq!["type"@, "inputs"@]),
        text_field(action, "type"@) == Some(kind),
        same_ignoring_case(kind, "Table"@),
        field(action, "inputs"@) == Some(*inputs),
        inputs.kind is Object,
        is_text(inputs, "from"@),
        text_field(inputs, "format"@) == Some("CSV"@),
        field(inputs, "columns"@) is Some,
        (field(inputs, "columns"@)->Some_0).kind == Json::Array(items),
    ensures
        (authored_action_findings(action, pointer, container, file, workflow, scope).len() == 0)
            == (forall|i: int|
            0 <= i < items@.len() ==> (#[trigger] items@[i]).kind is Object && is_text(
                &items@[i],
                "header"@,
            ) && field(&items@[i], "value"@) is Some),
{
    let declared = field(action, "type"@)->Some_0;
    lemma_plain(file, scope);
    lemma_action_alone(action);
    lemma_action_types(kind);
    lemma_action_by_type(
        action,
        pointer,
        container,
        file,
        workflow,
        scope,
        &declared,
        kind,
        ActionSpec::Table,
    );
    lemma_columns(
        items@,
        items@.len(),
        joined(joined(pointer, "inputs"@), "columns"@),
        file,
        scope,
    );
    reveal_strlit("CSV");
    assert("CSV"@.len() == 3 && "CSV"@[0] == 'C' && "CSV"@[1] == 'S' && "CSV"@[2] == 'V');
    assert(is_unmarked("CSV"@));
    lemma_unmarked_is_literal("CSV"@);
    assert(crate::shape::actions::data::table_format_names()[0] == "CSV"@);
    assert(one_of("CSV"@, crate::shape::actions::data::table_format_names()));
    assert(same_ignoring_case("Table"@, "table"@)) by {
        reveal_strlit("Table");
        reveal_strlit("table");
        assert("Table"@.len() == 5 && "table"@.len() == 5);
        assert(folded("Table"@[0]) == 't' && folded("table"@[0]) == 't');
        assert(folded("Table"@[1]) == 'a' && folded("table"@[1]) == 'a');
        assert(folded("Table"@[2]) == 'b' && folded("table"@[2]) == 'b');
        assert(folded("Table"@[3]) == 'l' && folded("table"@[3]) == 'l');
        assert(folded("Table"@[4]) == 'e' && folded("table"@[4]) == 'e');
    }
    assert(!same_ignoring_case("Table"@, "query"@)) by {
        reveal_strlit("Table");
        reveal_strlit("query");
        assert(folded("Table"@[0]) == 't' && folded("query"@[0]) == 'q');
    }
}

/// A criterion of release by seconds is clean exactly where it waits a minute at
/// least.
pub proof fn law_releases_wait_a_minute(
    criteria: &Node,
    recurrence: &Node,
    seconds: u64,
    pointer: Seq<char>,
    file: &Document,
    scope: &ArmScope,
)
    requires
        is_plain(file, scope),
        field(criteria, "recurrence"@) == Some(*recurrence),
        recurrence.kind is Object,
        field(recurrence, "interval"@) is Some,
        (field(recurrence, "interval"@)->Some_0).kind == Json::Number(Number::PosInt(seconds)),
        seconds <= i64::MAX,
    ensures
        text_field(recurrence, "frequency"@) == Some("Second"@) ==> (criteria_pace_findings(
            criteria,
            pointer,
            file,
        ).len() == 0) == (seconds >= 60),
        text_field(recurrence, "frequency"@) != Some("Second"@) ==> criteria_pace_findings(
            criteria,
            pointer,
            file,
        ).len() == 0,
        criteria_findings(criteria, pointer, file).len() == 0 ==> criteria_pace_findings(
            criteria,
            pointer,
            file,
        ).len() == 0,
{
    lemma_plain(file, scope);
}

/// A `Wait` action is clean exactly where it waits until a time, and by no interval
/// besides.
pub proof fn law_waits_are_by_interval_or_until(
    action: &Node,
    inputs: &Node,
    kind: Seq<char>,
    until: &Node,
    pointer: Seq<char>,
    container: Seq<char>,
    file: &Document,
    workflow: &Workflow,
    scope: &ArmScope,
)
    requires
        is_plain(file, scope),
        holds_only(action, seq!["type"@, "inputs"@]),
        text_field(action, "type"@) == Some(kind),
        same_ignoring_case(kind, "Wait"@),
        field(action, "inputs"@) == Some(*inputs),
        inputs.kind is Object,
        field(inputs, "until"@) == Some(*until),
        field(inputs, "interval"@) is Some ==> (field(inputs, "interval"@)->Some_0).kind is Object,
        until.kind is Object,
    ensures
        (authored_action_findings(action, pointer, container, file, workflow, scope).len() == 0)
            == (inputs.kind->Object_0@.len() <= 1 && field(inputs, "interval"@) is None && is_text(until, "timestamp"@)),
{
    let declared = field(action, "type"@)->Some_0;
    lemma_plain(file, scope);
    lemma_action_alone(action);
    lemma_action_types(kind);
    lemma_action_by_type(
        action,
        pointer,
        container,
        file,
        workflow,
        scope,
        &declared,
        kind,
        ActionSpec::Wait,
    );
    let at = joined(pointer, "inputs"@);
    let choice = wait_choice_findings(inputs, at, file);
    if let Json::Object(members) = inputs.kind {
        if members@.len() == 0 {
            assert(crate::json::member_named(members@, "until"@) is None);
        }
    }
    assert((choice.len() == 0) == (inputs.kind->Object_0@.len() <= 1 && field(
        inputs,
        "interval"@,
    ) is None));
}

/// A trigger that takes requests is one by its type.
pub open spec fn takes_requests(workflow: &Workflow) -> bool {
    ||| exists|i: int|
        0 <= i < workflow.trigger_types@.len() && same_ignoring_case(
            (#[trigger] workflow.trigger_types@[i]).1@,
            "Request"@,
        )
    ||| exists|i: int|
        0 <= i < workflow.triggers@.len() && names_request(
            workflow,
            (#[trigger] workflow.triggers@[i])@,
        )
}

/// The trigger of this name is of type `Request`.
pub open spec fn names_request(workflow: &Workflow, name: Seq<char>) -> bool {
    match node_of(
        workflow,
        joined(joined(workflow.definition_pointer@, "triggers"@), name),
    ) {
        Some(trigger) => text_field(&trigger, "type"@) is Some && same_ignoring_case(
            text_field(&trigger, "type"@)->Some_0,
            "Request"@,
        ),
        None => false,
    }
}

/// A response may stand where a request started the run, no loop encloses it, no
/// branch runs beside it, and nothing follows it in a Stateless workflow.
pub proof fn law_responses_answer_a_request(
    action: &Node,
    pointer: Seq<char>,
    file: &Document,
    workflow: &Workflow,
    scope: &ArmScope,
)
    requires
        is_plain(file, scope),
        workflow.triggers_with_opaque_type@.len() == 0,
        forall|i: int|
            0 <= i < workflow.action_list@.len() ==> !(
            #[trigger] workflow.action_list@[i]).has_opaque_run_after,
    ensures
        (response_placement_findings(action, pointer, file, workflow).len() == 0) == {
            &&& takes_requests(workflow)
            &&& !in_loop(workflow.action_list@, pointer)
            &&& parallel_dependency(workflow.action_list@, pointer) is None
            &&& keeps_state(workflow) || successor_of(workflow.action_list@, pointer) is None
        },
{
    lemma_plain(file, scope);
    assert(!are_triggers_open(workflow, file));
    assert(!is_order_open_beside(workflow, file, pointer)) by {
        let list = workflow.action_list@;
        assert forall|j: int| 0 <= j < list.len() implies !crate::shape::holes::has_open_order(
            workflow,
            file,
            &(#[trigger] list[j]),
        ) by {}
    }
    let has = crate::shape::actions::control::has_request_trigger(workflow);
    assert(has == takes_requests(workflow)) by {
        if has {
            if exists|i: int|
                0 <= i < workflow.trigger_types@.len() && is_request(
                    #[trigger] &workflow.trigger_types@[i].1,
                ) {
                let i = choose|i: int|
                    0 <= i < workflow.trigger_types@.len() && is_request(
                        #[trigger] &workflow.trigger_types@[i].1,
                    );
                assert(same_ignoring_case(workflow.trigger_types@[i].1@, "Request"@));
            } else {
                let i = choose|i: int|
                    0 <= i < workflow.triggers@.len() && is_request_node(
                        workflow,
                        #[trigger] &workflow.triggers@[i],
                    );
                assert(names_request(workflow, workflow.triggers@[i]@));
            }
        }
        if takes_requests(workflow) {
            if exists|i: int|
                0 <= i < workflow.trigger_types@.len() && same_ignoring_case(
                    (#[trigger] workflow.trigger_types@[i]).1@,
                    "Request"@,
                ) {
                let i = choose|i: int|
                    0 <= i < workflow.trigger_types@.len() && same_ignoring_case(
                        (#[trigger] workflow.trigger_types@[i]).1@,
                        "Request"@,
                    );
                assert(is_request(&workflow.trigger_types@[i].1));
            } else {
                let i = choose|i: int|
                    0 <= i < workflow.triggers@.len() && names_request(
                        workflow,
                        (#[trigger] workflow.triggers@[i])@,
                    );
                assert(is_request_node(workflow, &workflow.triggers@[i]));
            }
        }
    }
}

} // verus!
