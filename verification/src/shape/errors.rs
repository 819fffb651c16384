//! What holds of every shape finding, whatever rule made it.

use vstd::prelude::*;

use crate::arm::ArmScope;
use crate::diagnostic::{ByteSpan, Finding, Severity};
use crate::json::{field, joined, lemma_field_smaller, Document, Json, Member, Node};
use crate::shape::actions::connectors;
use crate::shape::actions::control;
use crate::shape::actions::data;
use crate::shape::actions::integration;
use crate::shape::actions::variables;
use crate::shape::common;
use crate::shape::content_transfer;
use crate::shape::definition_io;
use crate::shape::field_validators;
use crate::shape::http;
use crate::shape::http_uri;
use crate::shape::limits;
use crate::shape::operation_options;
use crate::shape::operations;
use crate::shape::registry;
use crate::shape::required_fields;
use crate::shape::root;
use crate::shape::run_after;
use crate::shape::runtime;
use crate::shape::secure_data;
use crate::shape::static_results;
use crate::shape::supplied;
use crate::shape::triggers::batch;
use crate::shape::triggers::common as trigger_common;
use crate::shape::triggers::date;
use crate::shape::triggers::http as trigger_http;
use crate::shape::triggers::recurrence;
use crate::shape::triggers::request;
use crate::shape::triggers::schedule;
use crate::text::has_prefix;
use crate::shape::arm_boundary::{is_opaque, static_text};
use crate::shape::root::resolved_definition;
use crate::shape::supplied::{may_have_actions, supplied_text};
use crate::text::decimal;
use crate::shape::report::{issue, missing, respanned, wrong_context, wrong_type, wrong_value};
use crate::workflow::ActionInfo;
use crate::shape::registry::ActionSpec;
use crate::shape::http::RetryPolicyIntervalBounds;
use crate::shape::required_fields::Shape;
use crate::shape::registry::TriggerSpec;
use crate::shape::http::WebhookOperationOptions;
use crate::workflow::Workflow;
use crate::shape::triggers::schedule::IntegerListRule;

verus! {

/// The codes of the shape rules.
pub open spec fn is_shape_code(code: Seq<char>) -> bool {
    ||| code == "runafter-invalid-shape"@
    ||| code == "runafter-invalid-status"@
    ||| code == "unknown-action-reference"@
    ||| code == "workflow-shape-invalid-context"@
    ||| code == "workflow-shape-invalid-reference"@
    ||| code == "workflow-shape-invalid-shape"@
    ||| code == "workflow-shape-invalid-type"@
    ||| code == "workflow-shape-invalid-value"@
    ||| code == "workflow-shape-missing-field"@
    ||| code == "workflow-shape-unknown-type"@
}

/// Every finding is an error about the file at `path`, with a code of the
/// shape rules.
pub open spec fn all_errors(list: Seq<Finding>, path: Seq<char>) -> bool {
    forall|i: int|
        0 <= i < list.len() ==> {
            &&& (#[trigger] list[i]).severity == Severity::Error
            &&& list[i].path == path
            &&& is_shape_code(list[i].code)
        }
}

/// `pointer` begins with `root`.
#[verifier::opaque]
pub open spec fn is_below(pointer: Seq<char>, root: Seq<char>) -> bool {
    has_prefix(pointer, root)
}

/// Every finding points below `root`.
pub open spec fn all_below(list: Seq<Finding>, root: Seq<char>) -> bool {
    forall|i: int| 0 <= i < list.len() ==> is_below((#[trigger] list[i]).pointer, root)
}

/// Every finding is an error about the file at `path` that points below `root`.
#[verifier::opaque]
pub open spec fn are_errors_below(list: Seq<Finding>, path: Seq<char>, root: Seq<char>) -> bool {
    all_errors(list, path) && all_below(list, root)
}

broadcast proof fn below_joined(base: Seq<char>, token: Seq<char>, root: Seq<char>)
    requires
        is_below(base, root),
    ensures
        #[trigger] is_below(joined(base, token), root),
{
    reveal(is_below);
    assert(joined(base, token).subrange(0, root.len() as int) =~= base.subrange(
        0,
        root.len() as int,
    ));
}

broadcast proof fn errors_in_sum(
    left: Seq<Finding>,
    right: Seq<Finding>,
    path: Seq<char>,
    root: Seq<char>,
)
    requires
        are_errors_below(left, path, root),
        are_errors_below(right, path, root),
    ensures
        #[trigger] are_errors_below(left + right, path, root),
{
    reveal(are_errors_below);
    let whole = left + right;
    assert forall|i: int| 0 <= i < whole.len() implies {
        &&& (#[trigger] whole[i]).severity == Severity::Error
        &&& whole[i].path == path
        &&& is_shape_code(whole[i].code)
        &&& is_below(whole[i].pointer, root)
    } by {
        if i < left.len() {
            assert(whole[i] == left[i]);
        } else {
            assert(whole[i] == right[i - left.len()]);
        }
    }
}

broadcast proof fn errors_in_nothing(path: Seq<char>, root: Seq<char>)
    ensures
        #[trigger] are_errors_below(Seq::<Finding>::empty(), path, root),
{
    reveal(are_errors_below);
}

broadcast proof fn errors_in_issue(
    file: &Document,
    code: Seq<char>,
    pointer: Seq<char>,
    span: Option<ByteSpan>,
    message: Seq<char>,
    path: Seq<char>,
    root: Seq<char>,
)
    requires
        is_shape_code(code),
        path == file.path@,
        is_below(pointer, root),
    ensures
        #[trigger] are_errors_below(issue(file, code, pointer, span, message), path, root),
{
    reveal(are_errors_below);
}

broadcast proof fn errors_in_respanned(
    list: Seq<Finding>,
    span: Option<ByteSpan>,
    path: Seq<char>,
    root: Seq<char>,
)
    requires
        are_errors_below(list, path, root),
    ensures
        #[trigger] are_errors_below(respanned(list, span), path, root),
{
    reveal(are_errors_below);
    assert forall|i: int| 0 <= i < list.len() implies {
        &&& (#[trigger] respanned(list, span)[i]).severity == Severity::Error
        &&& respanned(list, span)[i].path == path
        &&& is_shape_code(respanned(list, span)[i].code)
        &&& is_below(respanned(list, span)[i].pointer, root)
    } by {
        assert(list[i].severity == Severity::Error);
        assert(is_below(list[i].pointer, root));
    }
}

pub proof fn lemma_below_itself(root: Seq<char>)
    ensures
        is_below(root, root),
{
    reveal(is_below);
    assert(root.subrange(0, root.len() as int) =~= root);
}

proof fn lemma_below_nothing(root: Seq<char>)
    requires
        root.len() == 0,
    ensures
        forall|pointer: Seq<char>| #[trigger] is_below(pointer, root),
{
    reveal(is_below);
    assert forall|pointer: Seq<char>| #[trigger] is_below(pointer, root) by {
        assert(pointer.subrange(0, 0) =~= root);
    }
}

broadcast group group_errors {
    below_joined,
    errors_in_sum,
    errors_in_nothing,
    errors_in_issue,
    errors_in_respanned,
}

broadcast proof fn errors_in_wrong_type(
    file: &Document, base: Seq<char>, key: Seq<char>, span: ByteSpan, message: Seq<char>,
    path: Seq<char>, root: Seq<char>,
)
    requires
        path == file.path@,
        is_below(base, root),
    ensures
        #[trigger] are_errors_below(wrong_type(file, base, key, span, message), path, root),
{
    broadcast use group_errors;
}

broadcast proof fn errors_in_missing(
    file: &Document, base: Seq<char>, key: Seq<char>, span: ByteSpan, message: Seq<char>,
    path: Seq<char>, root: Seq<char>,
)
    requires
        path == file.path@,
        is_below(base, root),
    ensures
        #[trigger] are_errors_below(missing(file, base, key, span, message), path, root),
{
    broadcast use group_errors;
}

broadcast proof fn errors_in_typed_field(
    object: &Node, base: Seq<char>, key: Seq<char>, message: Seq<char>, shape: Shape,
    file: &Document, path: Seq<char>, root: Seq<char>,
)
    requires
        path == file.path@,
        is_below(base, root),
    ensures
        #[trigger] are_errors_below(required_fields::typed_field_findings(
            object, base, key, message, shape, file,
        ), path, root),
{
    broadcast use {group_errors, errors_in_wrong_type, errors_in_missing};
}

broadcast proof fn errors_in_wrong_value(
    file: &Document, base: Seq<char>, key: Seq<char>, span: ByteSpan, message: Seq<char>,
    path: Seq<char>, root: Seq<char>,
)
    requires
        path == file.path@,
        is_below(base, root),
    ensures
        #[trigger] are_errors_below(wrong_value(file, base, key, span, message), path, root),
{
    broadcast use group_errors;
}

broadcast proof fn errors_in_enum_value(
    value: &Node, base: Seq<char>, key: Seq<char>, label: Seq<char>, allowed: Seq<Seq<char>>,
    file: &Document, path: Seq<char>, root: Seq<char>,
)
    requires
        path == file.path@,
        is_below(base, root),
    ensures
        #[trigger] are_errors_below(field_validators::enum_value_findings(
            value, base, key, label, allowed, file,
        ), path, root),
{
    broadcast use {group_errors, errors_in_wrong_type, errors_in_wrong_value};
}

broadcast proof fn errors_in_enum(
    object: &Node, base: Seq<char>, key: Seq<char>, label: Seq<char>, allowed: Seq<Seq<char>>,
    file: &Document, path: Seq<char>, root: Seq<char>,
)
    requires
        path == file.path@,
        is_below(base, root),
    ensures
        #[trigger] are_errors_below(field_validators::enum_findings(
            object, base, key, label, allowed, file,
        ), path, root),
{
    broadcast use {group_errors, errors_in_enum_value};
}

broadcast proof fn errors_in_endpoint_value(
    value: &Node, text: Seq<char>, base: Seq<char>, key: Seq<char>, label: Seq<char>,
    file: &Document, path: Seq<char>, root: Seq<char>,
)
    requires
        path == file.path@,
        is_below(base, root),
    ensures
        #[trigger] are_errors_below(http_uri::endpoint_value_findings(
            value, text, base, key, label, file,
        ), path, root),
{
    broadcast use {group_errors, errors_in_wrong_value};
}

broadcast proof fn errors_in_endpoint(
    object: &Node, base: Seq<char>, key: Seq<char>, label: Seq<char>, file: &Document,
    path: Seq<char>, root: Seq<char>,
)
    requires
        path == file.path@,
        is_below(base, root),
    ensures
        #[trigger] are_errors_below(http_uri::endpoint_findings(
            object, base, key, label, file,
        ), path, root),
{
    broadcast use {group_errors, errors_in_endpoint_value};
}

broadcast proof fn errors_in_scalar(
    members: Seq<Member>, n: nat, base: Seq<char>, label: Seq<char>, file: &Document,
    path: Seq<char>, root: Seq<char>,
)
    requires
        path == file.path@,
        is_below(base, root),
    ensures
        #[trigger] are_errors_below(field_validators::scalar_findings(
            members, n, base, label, file,
        ), path, root),
    decreases n,
{
    broadcast use {group_errors, errors_in_wrong_type};

    if n > 0 {
        errors_in_scalar(members, (n - 1) as nat, base, label, file, path, root);
    }
}

broadcast proof fn errors_in_scalar_object(
    value: &Node, base: Seq<char>, label: Seq<char>, file: &Document, path: Seq<char>,
    root: Seq<char>,
)
    requires
        path == file.path@,
        is_below(base, root),
    ensures
        #[trigger] are_errors_below(field_validators::scalar_object_findings(
            value, base, label, file,
        ), path, root),
{
    broadcast use {group_errors, errors_in_scalar};
}

broadcast proof fn errors_in_object_or_string(
    object: &Node, base: Seq<char>, key: Seq<char>, label: Seq<char>, file: &Document,
    path: Seq<char>, root: Seq<char>,
)
    requires
        path == file.path@,
        is_below(base, root),
    ensures
        #[trigger] are_errors_below(field_validators::object_or_string_findings(
            object, base, key, label, file,
        ), path, root),
{
    broadcast use {group_errors, errors_in_scalar_object, errors_in_wrong_type};
}

broadcast proof fn errors_in_object_or_expression(
    object: &Node, base: Seq<char>, key: Seq<char>, label: Seq<char>, file: &Document,
    path: Seq<char>, root: Seq<char>,
)
    requires
        path == file.path@,
        is_below(base, root),
    ensures
        #[trigger] are_errors_below(http::object_or_expression_findings(
            object, base, key, label, file,
        ), path, root),
{
    broadcast use {group_errors, errors_in_scalar_object, errors_in_wrong_type};
}

broadcast proof fn errors_in_string(
    object: &Node, base: Seq<char>, key: Seq<char>, label: Seq<char>, file: &Document,
    path: Seq<char>, root: Seq<char>,
)
    requires
        path == file.path@,
        is_below(base, root),
    ensures
        #[trigger] are_errors_below(field_validators::string_findings(
            object, base, key, label, file,
        ), path, root),
{
    broadcast use {group_errors, errors_in_wrong_type};
}

broadcast proof fn errors_in_unknown_option(
    options: &Node, option: Seq<char>, pointer: Seq<char>, label: Seq<char>, file: &Document,
    path: Seq<char>, root: Seq<char>,
)
    requires
        path == file.path@,
        is_below(pointer, root),
    ensures
        #[trigger] are_errors_below(operation_options::unknown_option_findings(
            options, option, pointer, label, file,
        ), path, root),
{
    broadcast use {group_errors, errors_in_wrong_value};
}

broadcast proof fn errors_in_unknown_option_list(
    tokens: Seq<Seq<char>>, n: nat, options: &Node, pointer: Seq<char>, label: Seq<char>,
    file: &Document, path: Seq<char>, root: Seq<char>,
)
    requires
        path == file.path@,
        is_below(pointer, root),
    ensures
        #[trigger] are_errors_below(operation_options::unknown_option_list_findings(
            tokens, n, options, pointer, label, file,
        ), path, root),
    decreases n,
{
    broadcast use {group_errors, errors_in_unknown_option};

    if n > 0 {
        errors_in_unknown_option_list(tokens, (n - 1) as nat, options, pointer, label, file, path, root);
    }
}

broadcast proof fn errors_in_unknown_options(
    value: &Node, pointer: Seq<char>, label: Seq<char>, file: &Document, path: Seq<char>,
    root: Seq<char>,
)
    requires
        path == file.path@,
        is_below(pointer, root),
    ensures
        #[trigger] are_errors_below(operation_options::unknown_options_findings(
            value, pointer, label, file,
        ), path, root),
{
    broadcast use {group_errors, errors_in_unknown_option_list};
}

broadcast proof fn errors_in_unused_credentials(
    members: Seq<Member>, n: nat, base: Seq<char>, label: Seq<char>, file: &Document,
    path: Seq<char>, root: Seq<char>,
)
    requires
        path == file.path@,
        is_below(base, root),
    ensures
        #[trigger] are_errors_below(http::unused_credentials_findings(
            members, n, base, label, file,
        ), path, root),
    decreases n,
{
    broadcast use {group_errors, errors_in_wrong_value};

    if n > 0 {
        errors_in_unused_credentials(members, (n - 1) as nat, base, label, file, path, root);
    }
}

broadcast proof fn errors_in_caseless_enum(
    object: &Node, base: Seq<char>, key: Seq<char>, label: Seq<char>, allowed: Seq<Seq<char>>,
    file: &Document, path: Seq<char>, root: Seq<char>,
)
    requires
        path == file.path@,
        is_below(base, root),
    ensures
        #[trigger] are_errors_below(field_validators::caseless_enum_findings(
            object, base, key, label, allowed, file,
        ), path, root),
{
    broadcast use {group_errors, errors_in_wrong_type, errors_in_wrong_value};
}

broadcast proof fn errors_in_required_credential(
    auth: &Node, base: Seq<char>, key: Seq<char>, label: Seq<char>, file: &Document,
    path: Seq<char>, root: Seq<char>,
)
    requires
        path == file.path@,
        is_below(base, root),
    ensures
        #[trigger] are_errors_below(http::required_credential_findings(
            auth, base, key, label, file,
        ), path, root),
{
    broadcast use {group_errors, errors_in_wrong_type, errors_in_missing};
}

broadcast proof fn errors_in_required_credentials(
    keys: Seq<Seq<char>>, n: nat, auth: &Node, base: Seq<char>, label: Seq<char>, file: &Document,
    path: Seq<char>, root: Seq<char>,
)
    requires
        path == file.path@,
        is_below(base, root),
    ensures
        #[trigger] are_errors_below(http::required_credentials_findings(
            keys, n, auth, base, label, file,
        ), path, root),
    decreases n,
{
    broadcast use {group_errors, errors_in_required_credential};

    if n > 0 {
        errors_in_required_credentials(keys, (n - 1) as nat, auth, base, label, file, path, root);
    }
}

broadcast proof fn errors_in_other_credentials(
    keys: Seq<Seq<char>>, n: nat, required: Seq<Seq<char>>, auth: &Node, base: Seq<char>,
    label: Seq<char>, file: &Document, path: Seq<char>, root: Seq<char>,
)
    requires
        path == file.path@,
        is_below(base, root),
    ensures
        #[trigger] are_errors_below(http::other_credentials_findings(
            keys, n, required, auth, base, label, file,
        ), path, root),
    decreases n,
{
    broadcast use {group_errors, errors_in_string};

    if n > 0 {
        errors_in_other_credentials(keys, (n - 1) as nat, required, auth, base, label, file, path, root);
    }
}

broadcast proof fn errors_in_credentials(
    auth: &Node, kind: Seq<char>, base: Seq<char>, label: Seq<char>, file: &Document,
    path: Seq<char>, root: Seq<char>,
)
    requires
        path == file.path@,
        is_below(base, root),
    ensures
        #[trigger] are_errors_below(http::credentials_findings(
            auth, kind, base, label, file,
        ), path, root),
{
    broadcast use {
        group_errors, errors_in_caseless_enum, errors_in_required_credentials,
        errors_in_other_credentials,
    };
}

broadcast proof fn errors_in_authentication_object(
    auth: &Node, base: Seq<char>, label: Seq<char>, file: &Document, path: Seq<char>,
    root: Seq<char>,
)
    requires
        path == file.path@,
        is_below(base, root),
    ensures
        #[trigger] are_errors_below(http::authentication_object_findings(
            auth, base, label, file,
        ), path, root),
{
    broadcast use {
        group_errors, errors_in_enum, errors_in_missing, errors_in_unused_credentials,
        errors_in_credentials, errors_in_other_credentials,
    };
}

broadcast proof fn errors_in_authentication_value(
    auth: &Node, base: Seq<char>, label: Seq<char>, file: &Document, path: Seq<char>,
    root: Seq<char>,
)
    requires
        path == file.path@,
        is_below(base, root),
    ensures
        #[trigger] are_errors_below(http::authentication_value_findings(
            auth, base, label, file,
        ), path, root),
{
    broadcast use {
        group_errors, errors_in_authentication_object, errors_in_wrong_value, errors_in_wrong_type,
    };
}

broadcast proof fn errors_in_authentication(
    inputs: &Node, base: Seq<char>, label: Seq<char>, file: &Document, path: Seq<char>,
    root: Seq<char>,
)
    requires
        path == file.path@,
        is_below(base, root),
    ensures
        #[trigger] are_errors_below(http::authentication_findings(
            inputs, base, label, file,
        ), path, root),
{
    broadcast use {group_errors, errors_in_authentication_value};
}

broadcast proof fn errors_in_retry_type(
    policy: &Node, base: Seq<char>, label: Seq<char>, file: &Document, path: Seq<char>,
    root: Seq<char>,
)
    requires
        path == file.path@,
        is_below(base, root),
    ensures
        #[trigger] are_errors_below(http::retry_type_findings(
            policy, base, label, file,
        ), path, root),
{
    broadcast use {group_errors, errors_in_wrong_value, errors_in_wrong_type, errors_in_missing};
}

broadcast proof fn errors_in_range(
    object: &Node, base: Seq<char>, key: Seq<char>, label: Seq<char>, low: int, high: int,
    file: &Document, path: Seq<char>, root: Seq<char>,
)
    requires
        path == file.path@,
        is_below(base, root),
    ensures
        #[trigger] are_errors_below(field_validators::range_findings(
            object, base, key, label, low, high, file,
        ), path, root),
{
    broadcast use {group_errors, errors_in_wrong_type, errors_in_wrong_value};
}

broadcast proof fn errors_in_retry_interval(
    policy: &Node, base: Seq<char>, key: Seq<char>, label: Seq<char>,
    bounds: RetryPolicyIntervalBounds, file: &Document, path: Seq<char>, root: Seq<char>,
)
    requires
        path == file.path@,
        is_below(base, root),
    ensures
        #[trigger] are_errors_below(http::retry_interval_findings(
            policy, base, key, label, bounds, file,
        ), path, root),
{
    broadcast use {group_errors, errors_in_wrong_value, errors_in_wrong_type};
}

broadcast proof fn errors_in_retry_order(
    policy: &Node, base: Seq<char>, label: Seq<char>, file: &Document, path: Seq<char>,
    root: Seq<char>,
)
    requires
        path == file.path@,
        is_below(base, root),
    ensures
        #[trigger] are_errors_below(http::retry_order_findings(
            policy, base, label, file,
        ), path, root),
{
    broadcast use {group_errors, errors_in_wrong_value};
}

broadcast proof fn errors_in_retry_required(
    policy: &Node, base: Seq<char>, file: &Document, path: Seq<char>, root: Seq<char>,
)
    requires
        path == file.path@,
        is_below(base, root),
    ensures
        #[trigger] are_errors_below(http::retry_required_findings(policy, base, file), path, root),
{
    broadcast use {group_errors, errors_in_missing};
}

broadcast proof fn errors_in_retry_policy_object(
    policy: &Node, base: Seq<char>, label: Seq<char>, bounds: RetryPolicyIntervalBounds,
    file: &Document, path: Seq<char>, root: Seq<char>,
)
    requires
        path == file.path@,
        is_below(base, root),
    ensures
        #[trigger] are_errors_below(http::retry_policy_object_findings(
            policy, base, label, bounds, file,
        ), path, root),
{
    broadcast use {
        group_errors, errors_in_retry_type, errors_in_range, errors_in_retry_interval,
        errors_in_retry_order, errors_in_retry_required,
    };
}

broadcast proof fn errors_in_retry_policy(
    inputs: &Node, base: Seq<char>, label: Seq<char>, bounds: RetryPolicyIntervalBounds,
    file: &Document, path: Seq<char>, root: Seq<char>,
)
    requires
        path == file.path@,
        is_below(base, root),
    ensures
        #[trigger] are_errors_below(http::retry_policy_findings(
            inputs, base, label, bounds, file,
        ), path, root),
{
    broadcast use {group_errors, errors_in_wrong_type, errors_in_retry_policy_object};
}

broadcast proof fn errors_in_http_inputs(
    inputs: &Node, inputs_pointer: Seq<char>, label: Seq<char>, bounds: RetryPolicyIntervalBounds,
    file: &Document, path: Seq<char>, root: Seq<char>,
)
    requires
        path == file.path@,
        is_below(inputs_pointer, root),
    ensures
        #[trigger] are_errors_below(http::http_inputs_findings(
            inputs, inputs_pointer, label, bounds, file,
        ), path, root),
{
    broadcast use {
        group_errors, errors_in_object_or_string, errors_in_object_or_expression, errors_in_string,
        errors_in_unknown_options, errors_in_authentication, errors_in_retry_policy,
    };
}

broadcast proof fn errors_in_http_action_inputs(
    inputs: &Node, inputs_pointer: Seq<char>, file: &Document, workflow: &Workflow,
    path: Seq<char>, root: Seq<char>,
)
    requires
        path == file.path@,
        is_below(inputs_pointer, root),
    ensures
        #[trigger] are_errors_below(connectors::http_action_inputs_findings(
            inputs, inputs_pointer, file, workflow,
        ), path, root),
{
    broadcast use {
        group_errors, errors_in_typed_field, errors_in_enum, errors_in_endpoint,
        errors_in_http_inputs,
    };
}

broadcast proof fn errors_in_inputs(
    action: &Node, base: Seq<char>, file: &Document, path: Seq<char>, root: Seq<char>,
)
    requires
        path == file.path@,
        is_below(base, root),
    ensures
        #[trigger] are_errors_below(required_fields::inputs_findings(
            action, base, file,
        ), path, root),
{
    broadcast use {group_errors, errors_in_missing, errors_in_wrong_type};
}

broadcast proof fn errors_in_http_action(
    action: &Node, action_pointer: Seq<char>, file: &Document, workflow: &Workflow,
    path: Seq<char>, root: Seq<char>,
)
    requires
        path == file.path@,
        is_below(action_pointer, root),
    ensures
        #[trigger] are_errors_below(connectors::http_action_findings(
            action, action_pointer, file, workflow,
        ), path, root),
{
    broadcast use {group_errors, errors_in_inputs, errors_in_http_action_inputs};
}

broadcast proof fn errors_in_object_field(
    action: &Node, base: Seq<char>, key: Seq<char>, file: &Document, path: Seq<char>,
    root: Seq<char>,
)
    requires
        path == file.path@,
        is_below(base, root),
    ensures
        #[trigger] are_errors_below(required_fields::object_field_findings(
            action, base, key, file,
        ), path, root),
{
    broadcast use {group_errors, errors_in_wrong_type, errors_in_missing};
}

broadcast proof fn errors_in_connection(
    connection: &Node, connection_pointer: Seq<char>, file: &Document, path: Seq<char>,
    root: Seq<char>,
)
    requires
        path == file.path@,
        is_below(connection_pointer, root),
    ensures
        #[trigger] are_errors_below(connectors::connection_findings(
            connection, connection_pointer, file,
        ), path, root),
{
    broadcast use {group_errors, errors_in_missing, errors_in_wrong_type};
}

broadcast proof fn errors_in_api_connection_host(
    inputs: &Node, inputs_pointer: Seq<char>, file: &Document, path: Seq<char>, root: Seq<char>,
)
    requires
        path == file.path@,
        is_below(inputs_pointer, root),
    ensures
        #[trigger] are_errors_below(connectors::api_connection_host_findings(
            inputs, inputs_pointer, file,
        ), path, root),
{
    broadcast use {group_errors, errors_in_connection, errors_in_wrong_type, errors_in_missing};
}

broadcast proof fn errors_in_api_connection_action_inputs(
    inputs: &Node, inputs_pointer: Seq<char>, file: &Document, workflow: &Workflow,
    path: Seq<char>, root: Seq<char>,
)
    requires
        path == file.path@,
        is_below(inputs_pointer, root),
    ensures
        #[trigger] are_errors_below(connectors::api_connection_action_inputs_findings(
            inputs, inputs_pointer, file, workflow,
        ), path, root),
{
    broadcast use {
        group_errors, errors_in_object_field, errors_in_api_connection_host,
        errors_in_caseless_enum, errors_in_typed_field, errors_in_enum, errors_in_http_inputs,
    };
}

broadcast proof fn errors_in_api_connection_action(
    action: &Node, action_pointer: Seq<char>, file: &Document, workflow: &Workflow,
    path: Seq<char>, root: Seq<char>,
)
    requires
        path == file.path@,
        is_below(action_pointer, root),
    ensures
        #[trigger] are_errors_below(connectors::api_connection_action_findings(
            action, action_pointer, file, workflow,
        ), path, root),
{
    broadcast use {group_errors, errors_in_inputs, errors_in_api_connection_action_inputs};
}

broadcast proof fn errors_in_unsubscribe_method(
    inputs: &Node, inputs_pointer: Seq<char>, key: Seq<char>, file: &Document, path: Seq<char>,
    root: Seq<char>,
)
    requires
        path == file.path@,
        is_below(inputs_pointer, root),
    ensures
        #[trigger] are_errors_below(connectors::unsubscribe_method_findings(
            inputs, inputs_pointer, key, file,
        ), path, root),
{
    broadcast use {group_errors, errors_in_missing};
}

broadcast proof fn errors_in_required_enum(
    object: &Node, base: Seq<char>, key: Seq<char>, label: Seq<char>, allowed: Seq<Seq<char>>,
    file: &Document, path: Seq<char>, root: Seq<char>,
)
    requires
        path == file.path@,
        is_below(base, root),
    ensures
        #[trigger] are_errors_below(field_validators::required_enum_findings(
            object, base, key, label, allowed, file,
        ), path, root),
{
    broadcast use {group_errors, errors_in_missing, errors_in_enum_value};
}

broadcast proof fn errors_in_webhook_url(
    operation: &Node, operation_pointer: Seq<char>, key: Seq<char>, file: &Document,
    path: Seq<char>, root: Seq<char>,
)
    requires
        path == file.path@,
        is_below(operation_pointer, root),
    ensures
        #[trigger] are_errors_below(http::webhook_url_findings(
            operation, operation_pointer, key, file,
        ), path, root),
{
    broadcast use {group_errors, errors_in_typed_field, errors_in_endpoint, errors_in_missing};
}

broadcast proof fn errors_in_optional_webhook_url(
    operation: &Node, operation_pointer: Seq<char>, file: &Document, path: Seq<char>,
    root: Seq<char>,
)
    requires
        path == file.path@,
        is_below(operation_pointer, root),
    ensures
        #[trigger] are_errors_below(http::optional_webhook_url_findings(
            operation, operation_pointer, file,
        ), path, root),
{
    broadcast use {group_errors, errors_in_typed_field, errors_in_endpoint};
}

broadcast proof fn errors_in_webhook_object(
    operation: &Node, operation_pointer: Seq<char>, key: Seq<char>, required: bool,
    bounds: RetryPolicyIntervalBounds, file: &Document, path: Seq<char>, root: Seq<char>,
)
    requires
        path == file.path@,
        is_below(operation_pointer, root),
    ensures
        #[trigger] are_errors_below(http::webhook_object_findings(
            operation, operation_pointer, key, required, bounds, file,
        ), path, root),
{
    broadcast use {
        group_errors, errors_in_required_enum, errors_in_webhook_url, errors_in_enum,
        errors_in_optional_webhook_url, errors_in_http_inputs,
    };
}

broadcast proof fn errors_in_webhook(
    inputs: &Node, inputs_pointer: Seq<char>, key: Seq<char>, required: bool,
    options: WebhookOperationOptions, file: &Document, path: Seq<char>, root: Seq<char>,
)
    requires
        path == file.path@,
        is_below(inputs_pointer, root),
    ensures
        #[trigger] are_errors_below(http::webhook_findings(
            inputs, inputs_pointer, key, required, options, file,
        ), path, root),
{
    broadcast use {group_errors, errors_in_webhook_object, errors_in_wrong_type, errors_in_missing};
}

broadcast proof fn errors_in_connection_webhook(
    inputs: &Node, inputs_pointer: Seq<char>, file: &Document, workflow: &Workflow,
    path: Seq<char>, root: Seq<char>,
)
    requires
        path == file.path@,
        is_below(inputs_pointer, root),
    ensures
        #[trigger] are_errors_below(connectors::connection_webhook_findings(
            inputs, inputs_pointer, file, workflow,
        ), path, root),
{
    broadcast use {
        group_errors, errors_in_webhook, errors_in_unsubscribe_method, errors_in_enum,
        errors_in_object_field, errors_in_api_connection_host, errors_in_typed_field,
        errors_in_http_inputs,
    };
}

broadcast proof fn errors_in_api_connection_webhook_action_inputs(
    inputs: &Node, inputs_pointer: Seq<char>, file: &Document, workflow: &Workflow,
    path: Seq<char>, root: Seq<char>,
)
    requires
        path == file.path@,
        is_below(inputs_pointer, root),
    ensures
        #[trigger] are_errors_below(connectors::api_connection_webhook_action_inputs_findings(
            inputs, inputs_pointer, file, workflow,
        ), path, root),
{
    broadcast use {group_errors, errors_in_connection_webhook};
}

broadcast proof fn errors_in_api_connection_webhook_action(
    action: &Node, action_pointer: Seq<char>, file: &Document, workflow: &Workflow,
    path: Seq<char>, root: Seq<char>,
)
    requires
        path == file.path@,
        is_below(action_pointer, root),
    ensures
        #[trigger] are_errors_below(connectors::api_connection_webhook_action_findings(
            action, action_pointer, file, workflow,
        ), path, root),
{
    broadcast use {group_errors, errors_in_inputs, errors_in_api_connection_webhook_action_inputs};
}

broadcast proof fn errors_in_wrong_context(
    file: &Document, base: Seq<char>, key: Seq<char>, span: ByteSpan, message: Seq<char>,
    path: Seq<char>, root: Seq<char>,
)
    requires
        path == file.path@,
        is_below(base, root),
    ensures
        #[trigger] are_errors_below(wrong_context(file, base, key, span, message), path, root),
{
    broadcast use group_errors;
}

broadcast proof fn errors_in_function_authentication(
    inputs: &Node, inputs_pointer: Seq<char>, file: &Document, workflow: &Workflow,
    path: Seq<char>, root: Seq<char>,
)
    requires
        path == file.path@,
        is_below(inputs_pointer, root),
    ensures
        #[trigger] are_errors_below(connectors::function_authentication_findings(
            inputs, inputs_pointer, file, workflow,
        ), path, root),
{
    broadcast use {group_errors, errors_in_wrong_context};
}

broadcast proof fn errors_in_resource(
    object: &Node, base: Seq<char>, key: Seq<char>, label: Seq<char>, file: &Document,
    path: Seq<char>, root: Seq<char>,
)
    requires
        path == file.path@,
        is_below(base, root),
    ensures
        #[trigger] are_errors_below(field_validators::resource_findings(
            object, base, key, label, file,
        ), path, root),
{
    broadcast use {group_errors, errors_in_wrong_type, errors_in_missing, errors_in_string};
}

broadcast proof fn errors_in_function_action_inputs(
    inputs: &Node, inputs_pointer: Seq<char>, file: &Document, workflow: &Workflow,
    path: Seq<char>, root: Seq<char>,
)
    requires
        path == file.path@,
        is_below(inputs_pointer, root),
    ensures
        #[trigger] are_errors_below(connectors::function_action_inputs_findings(
            inputs, inputs_pointer, file, workflow,
        ), path, root),
{
    broadcast use {
        group_errors, errors_in_missing, errors_in_wrong_type, errors_in_enum,
        errors_in_http_inputs, errors_in_function_authentication, errors_in_resource,
    };
}

broadcast proof fn errors_in_function_action(
    action: &Node, action_pointer: Seq<char>, file: &Document, workflow: &Workflow,
    path: Seq<char>, root: Seq<char>,
)
    requires
        path == file.path@,
        is_below(action_pointer, root),
    ensures
        #[trigger] are_errors_below(connectors::function_action_findings(
            action, action_pointer, file, workflow,
        ), path, root),
{
    broadcast use {group_errors, errors_in_inputs, errors_in_function_action_inputs};
}

broadcast proof fn errors_in_api_management(
    inputs: &Node, inputs_pointer: Seq<char>, bounds: RetryPolicyIntervalBounds, file: &Document,
    path: Seq<char>, root: Seq<char>,
)
    requires
        path == file.path@,
        is_below(inputs_pointer, root),
    ensures
        #[trigger] are_errors_below(http::api_management_findings(
            inputs, inputs_pointer, bounds, file,
        ), path, root),
{
    broadcast use {
        group_errors, errors_in_object_field, errors_in_string, errors_in_typed_field,
        errors_in_enum, errors_in_http_inputs,
    };
}

broadcast proof fn errors_in_api_management_action_inputs(
    inputs: &Node, inputs_pointer: Seq<char>, file: &Document, workflow: &Workflow,
    path: Seq<char>, root: Seq<char>,
)
    requires
        path == file.path@,
        is_below(inputs_pointer, root),
    ensures
        #[trigger] are_errors_below(connectors::api_management_action_inputs_findings(
            inputs, inputs_pointer, file, workflow,
        ), path, root),
{
    broadcast use {group_errors, errors_in_api_management};
}

broadcast proof fn errors_in_api_management_action(
    action: &Node, action_pointer: Seq<char>, file: &Document, workflow: &Workflow,
    path: Seq<char>, root: Seq<char>,
)
    requires
        path == file.path@,
        is_below(action_pointer, root),
    ensures
        #[trigger] are_errors_below(connectors::api_management_action_findings(
            action, action_pointer, file, workflow,
        ), path, root),
{
    broadcast use {group_errors, errors_in_inputs, errors_in_api_management_action_inputs};
}

broadcast proof fn errors_in_http_webhook_action_inputs(
    inputs: &Node, inputs_pointer: Seq<char>, file: &Document, workflow: &Workflow,
    path: Seq<char>, root: Seq<char>,
)
    requires
        path == file.path@,
        is_below(inputs_pointer, root),
    ensures
        #[trigger] are_errors_below(connectors::http_webhook_action_inputs_findings(
            inputs, inputs_pointer, file, workflow,
        ), path, root),
{
    broadcast use {group_errors, errors_in_enum, errors_in_webhook};
}

broadcast proof fn errors_in_http_webhook_action(
    action: &Node, action_pointer: Seq<char>, file: &Document, workflow: &Workflow,
    path: Seq<char>, root: Seq<char>,
)
    requires
        path == file.path@,
        is_below(action_pointer, root),
    ensures
        #[trigger] are_errors_below(connectors::http_webhook_action_findings(
            action, action_pointer, file, workflow,
        ), path, root),
{
    broadcast use {group_errors, errors_in_inputs, errors_in_http_webhook_action_inputs};
}

broadcast proof fn errors_in_foreach_expression(
    action: &Node, action_pointer: Seq<char>, file: &Document, path: Seq<char>, root: Seq<char>,
)
    requires
        path == file.path@,
        is_below(action_pointer, root),
    ensures
        #[trigger] are_errors_below(control::foreach_expression_findings(
            action, action_pointer, file,
        ), path, root),
{
    broadcast use {group_errors, errors_in_wrong_type};
}

broadcast proof fn errors_in_field(
    action: &Node, base: Seq<char>, key: Seq<char>, file: &Document, path: Seq<char>,
    root: Seq<char>,
)
    requires
        path == file.path@,
        is_below(base, root),
    ensures
        #[trigger] are_errors_below(required_fields::field_findings(
            action, base, key, file,
        ), path, root),
{
    broadcast use {group_errors, errors_in_missing};
}

broadcast proof fn errors_in_foreach_action(
    action: &Node, action_pointer: Seq<char>, file: &Document, path: Seq<char>, root: Seq<char>,
)
    requires
        path == file.path@,
        is_below(action_pointer, root),
    ensures
        #[trigger] are_errors_below(control::foreach_action_findings(
            action, action_pointer, file,
        ), path, root),
{
    broadcast use {
        group_errors, errors_in_field, errors_in_foreach_expression, errors_in_object_field,
    };
}

broadcast proof fn errors_in_until_expression(
    action: &Node, action_pointer: Seq<char>, file: &Document, path: Seq<char>, root: Seq<char>,
)
    requires
        path == file.path@,
        is_below(action_pointer, root),
    ensures
        #[trigger] are_errors_below(control::until_expression_findings(
            action, action_pointer, file,
        ), path, root),
{
    broadcast use {group_errors, errors_in_wrong_type};
}

broadcast proof fn errors_in_until_limit_required(
    action: &Node, action_pointer: Seq<char>, file: &Document, path: Seq<char>, root: Seq<char>,
)
    requires
        path == file.path@,
        is_below(action_pointer, root),
    ensures
        #[trigger] are_errors_below(control::until_limit_required_findings(
            action, action_pointer, file,
        ), path, root),
{
    broadcast use {group_errors, errors_in_missing};
}

broadcast proof fn errors_in_until_count(
    limit: &Node, limit_pointer: Seq<char>, stateless: bool, file: &Document, path: Seq<char>,
    root: Seq<char>,
)
    requires
        path == file.path@,
        is_below(limit_pointer, root),
    ensures
        #[trigger] are_errors_below(control::until_count_findings(
            limit, limit_pointer, stateless, file,
        ), path, root),
{
    broadcast use {group_errors, errors_in_wrong_type, errors_in_wrong_value};
}

broadcast proof fn errors_in_until_timeout(
    limit: &Node, limit_pointer: Seq<char>, file: &Document, path: Seq<char>, root: Seq<char>,
)
    requires
        path == file.path@,
        is_below(limit_pointer, root),
    ensures
        #[trigger] are_errors_below(control::until_timeout_findings(
            limit, limit_pointer, file,
        ), path, root),
{
    broadcast use {group_errors, errors_in_wrong_value, errors_in_wrong_type};
}

broadcast proof fn errors_in_until_limit(
    action: &Node, action_pointer: Seq<char>, file: &Document, stateless: bool, path: Seq<char>,
    root: Seq<char>,
)
    requires
        path == file.path@,
        is_below(action_pointer, root),
    ensures
        #[trigger] are_errors_below(control::until_limit_findings(
            action, action_pointer, file, stateless,
        ), path, root),
{
    broadcast use {group_errors, errors_in_until_count, errors_in_until_timeout};
}

broadcast proof fn errors_in_until_action(
    action: &Node, action_pointer: Seq<char>, file: &Document, workflow: &Workflow,
    path: Seq<char>, root: Seq<char>,
)
    requires
        path == file.path@,
        is_below(action_pointer, root),
    ensures
        #[trigger] are_errors_below(control::until_action_findings(
            action, action_pointer, file, workflow,
        ), path, root),
{
    broadcast use {
        group_errors, errors_in_field, errors_in_until_expression, errors_in_object_field,
        errors_in_until_limit_required, errors_in_until_limit,
    };
}

broadcast proof fn errors_in_if_expression(
    action: &Node, action_pointer: Seq<char>, file: &Document, path: Seq<char>, root: Seq<char>,
)
    requires
        path == file.path@,
        is_below(action_pointer, root),
    ensures
        #[trigger] are_errors_below(control::if_expression_findings(
            action, action_pointer, file,
        ), path, root),
{
    broadcast use {group_errors, errors_in_wrong_type};
}

broadcast proof fn errors_in_if_action(
    action: &Node, action_pointer: Seq<char>, file: &Document, path: Seq<char>, root: Seq<char>,
)
    requires
        path == file.path@,
        is_below(action_pointer, root),
    ensures
        #[trigger] are_errors_below(control::if_action_findings(
            action, action_pointer, file,
        ), path, root),
{
    broadcast use {group_errors, errors_in_field, errors_in_if_expression, errors_in_object_field};
}

broadcast proof fn errors_in_scope_action(
    action: &Node, action_pointer: Seq<char>, file: &Document, path: Seq<char>, root: Seq<char>,
)
    requires
        path == file.path@,
        is_below(action_pointer, root),
    ensures
        #[trigger] are_errors_below(control::scope_action_findings(
            action, action_pointer, file,
        ), path, root),
{
    broadcast use {group_errors, errors_in_object_field};
}

broadcast proof fn errors_in_switch_expression(
    action: &Node, action_pointer: Seq<char>, file: &Document, path: Seq<char>, root: Seq<char>,
)
    requires
        path == file.path@,
        is_below(action_pointer, root),
    ensures
        #[trigger] are_errors_below(control::switch_expression_findings(
            action, action_pointer, file,
        ), path, root),
{
    broadcast use {group_errors, errors_in_wrong_type};
}

broadcast proof fn errors_in_case(
    members: Seq<Member>, seen: Seq<int>, case: &Node, base: Seq<char>, name: Seq<char>,
    file: &Document, path: Seq<char>, root: Seq<char>,
)
    requires
        path == file.path@,
        is_below(base, root),
    ensures
        #[trigger] are_errors_below(control::case_findings(
            members, seen, case, base, name, file,
        ), path, root),
{
    broadcast use {group_errors, errors_in_wrong_type, errors_in_field, errors_in_wrong_value};
}

broadcast proof fn errors_in_case_list(
    members: Seq<Member>, n: nat, base: Seq<char>, file: &Document, path: Seq<char>,
    root: Seq<char>,
)
    requires
        path == file.path@,
        is_below(base, root),
    ensures
        #[trigger] are_errors_below(control::case_list_findings(
            members, n, base, file,
        ), path, root),
    decreases n,
{
    broadcast use {group_errors, errors_in_case};

    if n > 0 {
        errors_in_case_list(members, (n - 1) as nat, base, file, path, root);
    }
}

broadcast proof fn errors_in_object_count(
    value: &Node, pointer: Seq<char>, label: Seq<char>, max: usize, file: &Document,
    path: Seq<char>, root: Seq<char>,
)
    requires
        path == file.path@,
        is_below(pointer, root),
    ensures
        #[trigger] are_errors_below(limits::object_count_findings(
            value, pointer, label, max, file,
        ), path, root),
{
    broadcast use group_errors;
}

broadcast proof fn errors_in_switch_cases(
    action: &Node, action_pointer: Seq<char>, file: &Document, path: Seq<char>, root: Seq<char>,
)
    requires
        path == file.path@,
        is_below(action_pointer, root),
    ensures
        #[trigger] are_errors_below(control::switch_cases_findings(
            action, action_pointer, file,
        ), path, root),
{
    broadcast use {group_errors, errors_in_object_count, errors_in_case_list};
}

broadcast proof fn errors_in_object(
    object: &Node, base: Seq<char>, key: Seq<char>, label: Seq<char>, file: &Document,
    path: Seq<char>, root: Seq<char>,
)
    requires
        path == file.path@,
        is_below(base, root),
    ensures
        #[trigger] are_errors_below(field_validators::object_findings(
            object, base, key, label, file,
        ), path, root),
{
    broadcast use {group_errors, errors_in_wrong_type};
}

broadcast proof fn errors_in_switch_action(
    action: &Node, action_pointer: Seq<char>, file: &Document, path: Seq<char>, root: Seq<char>,
)
    requires
        path == file.path@,
        is_below(action_pointer, root),
    ensures
        #[trigger] are_errors_below(control::switch_action_findings(
            action, action_pointer, file,
        ), path, root),
{
    broadcast use {
        group_errors, errors_in_field, errors_in_object_field, errors_in_switch_expression,
        errors_in_switch_cases, errors_in_object,
    };
}

broadcast proof fn errors_in_response_placement(
    action: &Node, action_pointer: Seq<char>, file: &Document, workflow: &Workflow,
    path: Seq<char>, root: Seq<char>,
)
    requires
        path == file.path@,
        is_below(action_pointer, root),
    ensures
        #[trigger] are_errors_below(control::response_placement_findings(
            action, action_pointer, file, workflow,
        ), path, root),
{
    broadcast use group_errors;
}

broadcast proof fn errors_in_status_code(
    inputs: &Node, inputs_pointer: Seq<char>, file: &Document, path: Seq<char>, root: Seq<char>,
)
    requires
        path == file.path@,
        is_below(inputs_pointer, root),
    ensures
        #[trigger] are_errors_below(control::status_code_findings(
            inputs, inputs_pointer, file,
        ), path, root),
{
    broadcast use {group_errors, errors_in_wrong_type, errors_in_wrong_value};
}

broadcast proof fn errors_in_response_action_inputs(
    inputs: &Node, inputs_pointer: Seq<char>, file: &Document, workflow: &Workflow,
    path: Seq<char>, root: Seq<char>,
)
    requires
        path == file.path@,
        is_below(inputs_pointer, root),
    ensures
        #[trigger] are_errors_below(control::response_action_inputs_findings(
            inputs, inputs_pointer, file, workflow,
        ), path, root),
{
    broadcast use {
        group_errors, errors_in_typed_field, errors_in_status_code, errors_in_object_or_string,
    };
}

broadcast proof fn errors_in_response_action(
    action: &Node, action_pointer: Seq<char>, file: &Document, workflow: &Workflow,
    path: Seq<char>, root: Seq<char>,
)
    requires
        path == file.path@,
        is_below(action_pointer, root),
    ensures
        #[trigger] are_errors_below(control::response_action_findings(
            action, action_pointer, file, workflow,
        ), path, root),
{
    broadcast use {
        group_errors, errors_in_response_placement, errors_in_inputs,
        errors_in_response_action_inputs,
    };
}

broadcast proof fn errors_in_run_error(
    inputs: &Node, inputs_pointer: Seq<char>, file: &Document, path: Seq<char>, root: Seq<char>,
)
    requires
        path == file.path@,
        is_below(inputs_pointer, root),
    ensures
        #[trigger] are_errors_below(control::run_error_findings(
            inputs, inputs_pointer, file,
        ), path, root),
{
    broadcast use {
        group_errors, errors_in_wrong_context, errors_in_typed_field, errors_in_wrong_type,
    };
}

broadcast proof fn errors_in_terminate_action(
    action: &Node, action_pointer: Seq<char>, file: &Document, workflow: &Workflow,
    path: Seq<char>, root: Seq<char>,
)
    requires
        path == file.path@,
        is_below(action_pointer, root),
    ensures
        #[trigger] are_errors_below(control::terminate_action_findings(
            action, action_pointer, file, workflow,
        ), path, root),
{
    broadcast use {
        group_errors, errors_in_inputs, errors_in_typed_field, errors_in_enum, errors_in_run_error,
    };
}

broadcast proof fn errors_in_wait_choice(
    inputs: &Node, inputs_pointer: Seq<char>, file: &Document, path: Seq<char>, root: Seq<char>,
)
    requires
        path == file.path@,
        is_below(inputs_pointer, root),
    ensures
        #[trigger] are_errors_below(control::wait_choice_findings(
            inputs, inputs_pointer, file,
        ), path, root),
{
    broadcast use group_errors;
}

broadcast proof fn errors_in_wait_interval(
    interval: &Node, inputs_pointer: Seq<char>, file: &Document, path: Seq<char>, root: Seq<char>,
)
    requires
        path == file.path@,
        is_below(inputs_pointer, root),
    ensures
        #[trigger] are_errors_below(control::wait_interval_findings(
            interval, inputs_pointer, file,
        ), path, root),
{
    broadcast use {group_errors, errors_in_enum, errors_in_typed_field, errors_in_wrong_type};
}

broadcast proof fn errors_in_wait_until(
    inputs: &Node, inputs_pointer: Seq<char>, file: &Document, path: Seq<char>, root: Seq<char>,
)
    requires
        path == file.path@,
        is_below(inputs_pointer, root),
    ensures
        #[trigger] are_errors_below(control::wait_until_findings(
            inputs, inputs_pointer, file,
        ), path, root),
{
    broadcast use {group_errors, errors_in_typed_field, errors_in_wrong_type};
}

broadcast proof fn errors_in_wait_action(
    action: &Node, action_pointer: Seq<char>, file: &Document, path: Seq<char>, root: Seq<char>,
)
    requires
        path == file.path@,
        is_below(action_pointer, root),
    ensures
        #[trigger] are_errors_below(control::wait_action_findings(
            action, action_pointer, file,
        ), path, root),
{
    broadcast use {
        group_errors, errors_in_inputs, errors_in_wait_choice, errors_in_wait_interval,
        errors_in_wait_until,
    };
}

broadcast proof fn errors_in_compose_action(
    action: &Node, action_pointer: Seq<char>, file: &Document, path: Seq<char>, root: Seq<char>,
)
    requires
        path == file.path@,
        is_below(action_pointer, root),
    ensures
        #[trigger] are_errors_below(data::compose_action_findings(
            action, action_pointer, file,
        ), path, root),
{
    broadcast use {group_errors, errors_in_field};
}

broadcast proof fn errors_in_join_action_inputs(
    inputs: &Node, inputs_pointer: Seq<char>, file: &Document, path: Seq<char>, root: Seq<char>,
)
    requires
        path == file.path@,
        is_below(inputs_pointer, root),
    ensures
        #[trigger] are_errors_below(data::join_action_inputs_findings(
            inputs, inputs_pointer, file,
        ), path, root),
{
    broadcast use {group_errors, errors_in_typed_field, errors_in_wrong_value};
}

broadcast proof fn errors_in_join_action(
    action: &Node, action_pointer: Seq<char>, file: &Document, path: Seq<char>, root: Seq<char>,
)
    requires
        path == file.path@,
        is_below(action_pointer, root),
    ensures
        #[trigger] are_errors_below(data::join_action_findings(
            action, action_pointer, file,
        ), path, root),
{
    broadcast use {group_errors, errors_in_inputs, errors_in_join_action_inputs};
}

broadcast proof fn errors_in_parse_json_action(
    action: &Node, action_pointer: Seq<char>, file: &Document, path: Seq<char>, root: Seq<char>,
)
    requires
        path == file.path@,
        is_below(action_pointer, root),
    ensures
        #[trigger] are_errors_below(data::parse_json_action_findings(
            action, action_pointer, file,
        ), path, root),
{
    broadcast use {group_errors, errors_in_inputs, errors_in_typed_field, errors_in_object_field};
}

broadcast proof fn errors_in_column(
    items: Seq<Node>, n: nat, base: Seq<char>, file: &Document, path: Seq<char>, root: Seq<char>,
)
    requires
        path == file.path@,
        is_below(base, root),
    ensures
        #[trigger] are_errors_below(data::column_findings(items, n, base, file), path, root),
    decreases n,
{
    broadcast use {group_errors, errors_in_typed_field, errors_in_wrong_type};

    if n > 0 {
        errors_in_column(items, (n - 1) as nat, base, file, path, root);
    }
}

broadcast proof fn errors_in_table_columns(
    inputs: &Node, inputs_pointer: Seq<char>, file: &Document, path: Seq<char>, root: Seq<char>,
)
    requires
        path == file.path@,
        is_below(inputs_pointer, root),
    ensures
        #[trigger] are_errors_below(data::table_columns_findings(
            inputs, inputs_pointer, file,
        ), path, root),
{
    broadcast use {group_errors, errors_in_column, errors_in_wrong_type, errors_in_missing};
}

broadcast proof fn errors_in_from_action(
    action: &Node, action_pointer: Seq<char>, label: Seq<char>, file: &Document, path: Seq<char>,
    root: Seq<char>,
)
    requires
        path == file.path@,
        is_below(action_pointer, root),
    ensures
        #[trigger] are_errors_below(data::from_action_findings(
            action, action_pointer, label, file,
        ), path, root),
{
    broadcast use {
        group_errors, errors_in_inputs, errors_in_typed_field, errors_in_enum,
        errors_in_table_columns,
    };
}

broadcast proof fn errors_in_query_action(
    action: &Node, action_pointer: Seq<char>, file: &Document, path: Seq<char>, root: Seq<char>,
)
    requires
        path == file.path@,
        is_below(action_pointer, root),
    ensures
        #[trigger] are_errors_below(data::query_action_findings(
            action, action_pointer, file,
        ), path, root),
{
    broadcast use {group_errors, errors_in_from_action};
}

broadcast proof fn errors_in_table_action(
    action: &Node, action_pointer: Seq<char>, file: &Document, path: Seq<char>, root: Seq<char>,
)
    requires
        path == file.path@,
        is_below(action_pointer, root),
    ensures
        #[trigger] are_errors_below(data::table_action_findings(
            action, action_pointer, file,
        ), path, root),
{
    broadcast use {group_errors, errors_in_from_action};
}

broadcast proof fn errors_in_select_action(
    action: &Node, action_pointer: Seq<char>, file: &Document, path: Seq<char>, root: Seq<char>,
)
    requires
        path == file.path@,
        is_below(action_pointer, root),
    ensures
        #[trigger] are_errors_below(data::select_action_findings(
            action, action_pointer, file,
        ), path, root),
{
    broadcast use {
        group_errors, errors_in_from_action, errors_in_typed_field, errors_in_wrong_value,
    };
}

broadcast proof fn errors_in_expression_interval(
    inputs: &Node, inputs_pointer: Seq<char>, file: &Document, path: Seq<char>, root: Seq<char>,
)
    requires
        path == file.path@,
        is_below(inputs_pointer, root),
    ensures
        #[trigger] are_errors_below(data::expression_interval_findings(
            inputs, inputs_pointer, file,
        ), path, root),
{
    broadcast use {group_errors, errors_in_typed_field, errors_in_enum};
}

broadcast proof fn errors_in_expression_inputs(
    inputs: &Node, inputs_pointer: Seq<char>, kind: Seq<char>, file: &Document, path: Seq<char>,
    root: Seq<char>,
)
    requires
        path == file.path@,
        is_below(inputs_pointer, root),
    ensures
        #[trigger] are_errors_below(data::expression_inputs_findings(
            inputs, inputs_pointer, kind, file,
        ), path, root),
{
    broadcast use {group_errors, errors_in_typed_field, errors_in_expression_interval};
}

broadcast proof fn errors_in_kind(
    node: &Node, base: Seq<char>, label: Seq<char>, allowed: Seq<Seq<char>>, file: &Document,
    path: Seq<char>, root: Seq<char>,
)
    requires
        path == file.path@,
        is_below(base, root),
    ensures
        #[trigger] are_errors_below(field_validators::kind_findings(
            node, base, label, allowed, file,
        ), path, root),
{
    broadcast use {group_errors, errors_in_wrong_type, errors_in_wrong_value};
}

broadcast proof fn errors_in_expression_action(
    action: &Node, action_pointer: Seq<char>, file: &Document, path: Seq<char>, root: Seq<char>,
)
    requires
        path == file.path@,
        is_below(action_pointer, root),
    ensures
        #[trigger] are_errors_below(data::expression_action_findings(
            action, action_pointer, file,
        ), path, root),
{
    broadcast use {group_errors, errors_in_kind, errors_in_inputs, errors_in_expression_inputs};
}

broadcast proof fn errors_in_dependency(
    items: Seq<Node>, n: nat, base: Seq<char>, action_pointer: Seq<char>, file: &Document,
    workflow: &Workflow, path: Seq<char>, root: Seq<char>,
)
    requires
        path == file.path@,
        is_below(base, root),
    ensures
        #[trigger] are_errors_below(data::dependency_findings(
            items, n, base, action_pointer, file, workflow,
        ), path, root),
    decreases n,
{
    broadcast use {group_errors, errors_in_wrong_type};

    if n > 0 {
        errors_in_dependency(items, (n - 1) as nat, base, action_pointer, file, workflow, path, root);
    }
}

broadcast proof fn errors_in_bool(
    object: &Node, base: Seq<char>, key: Seq<char>, label: Seq<char>, file: &Document,
    path: Seq<char>, root: Seq<char>,
)
    requires
        path == file.path@,
        is_below(base, root),
    ensures
        #[trigger] are_errors_below(field_validators::bool_findings(
            object, base, key, label, file,
        ), path, root),
{
    broadcast use {group_errors, errors_in_wrong_type};
}

broadcast proof fn errors_in_explicit_dependencies(
    inputs: &Node, inputs_pointer: Seq<char>, action_pointer: Seq<char>, file: &Document,
    workflow: &Workflow, path: Seq<char>, root: Seq<char>,
)
    requires
        path == file.path@,
        is_below(inputs_pointer, root),
    ensures
        #[trigger] are_errors_below(data::explicit_dependencies_findings(
            inputs, inputs_pointer, action_pointer, file, workflow,
        ), path, root),
{
    broadcast use {group_errors, errors_in_dependency, errors_in_wrong_type, errors_in_bool};
}

broadcast proof fn errors_in_javascript_action(
    action: &Node, action_pointer: Seq<char>, file: &Document, workflow: &Workflow,
    path: Seq<char>, root: Seq<char>,
)
    requires
        path == file.path@,
        is_below(action_pointer, root),
    ensures
        #[trigger] are_errors_below(data::javascript_action_findings(
            action, action_pointer, file, workflow,
        ), path, root),
{
    broadcast use {
        group_errors, errors_in_inputs, errors_in_typed_field, errors_in_explicit_dependencies,
    };
}

broadcast proof fn errors_in_powershell_action(
    action: &Node, action_pointer: Seq<char>, file: &Document, workflow: &Workflow,
    path: Seq<char>, root: Seq<char>,
)
    requires
        path == file.path@,
        is_below(action_pointer, root),
    ensures
        #[trigger] are_errors_below(data::powershell_action_findings(
            action, action_pointer, file, workflow,
        ), path, root),
{
    broadcast use {group_errors, errors_in_inputs, errors_in_missing, errors_in_string};
}

broadcast proof fn errors_in_batch_host(
    inputs: &Node, inputs_pointer: Seq<char>, file: &Document, path: Seq<char>, root: Seq<char>,
)
    requires
        path == file.path@,
        is_below(inputs_pointer, root),
    ensures
        #[trigger] are_errors_below(integration::batch_host_findings(
            inputs, inputs_pointer, file,
        ), path, root),
{
    broadcast use {group_errors, errors_in_typed_field, errors_in_object_field};
}

broadcast proof fn errors_in_send_to_batch_action_inputs(
    inputs: &Node, inputs_pointer: Seq<char>, file: &Document, path: Seq<char>, root: Seq<char>,
)
    requires
        path == file.path@,
        is_below(inputs_pointer, root),
    ensures
        #[trigger] are_errors_below(integration::send_to_batch_action_inputs_findings(
            inputs, inputs_pointer, file,
        ), path, root),
{
    broadcast use {
        group_errors, errors_in_object_field, errors_in_batch_host, errors_in_typed_field,
        errors_in_string,
    };
}

broadcast proof fn errors_in_send_to_batch_action(
    action: &Node, action_pointer: Seq<char>, file: &Document, path: Seq<char>, root: Seq<char>,
)
    requires
        path == file.path@,
        is_below(action_pointer, root),
    ensures
        #[trigger] are_errors_below(integration::send_to_batch_action_findings(
            action, action_pointer, file,
        ), path, root),
{
    broadcast use {group_errors, errors_in_inputs, errors_in_send_to_batch_action_inputs};
}

broadcast proof fn errors_in_batch_mode(
    inputs: &Node, inputs_pointer: Seq<char>, file: &Document, path: Seq<char>, root: Seq<char>,
)
    requires
        path == file.path@,
        is_below(inputs_pointer, root),
    ensures
        #[trigger] are_errors_below(integration::batch_mode_findings(
            inputs, inputs_pointer, file,
        ), path, root),
{
    broadcast use {group_errors, errors_in_enum};
}

broadcast proof fn errors_in_criteria_limit(
    criteria: &Node, criteria_pointer: Seq<char>, file: &Document, path: Seq<char>,
    root: Seq<char>,
)
    requires
        path == file.path@,
        is_below(criteria_pointer, root),
    ensures
        #[trigger] are_errors_below(integration::criteria_limit_findings(
            criteria, criteria_pointer, file,
        ), path, root),
{
    broadcast use {group_errors, errors_in_wrong_value};
}

broadcast proof fn errors_in_criteria_pace(
    criteria: &Node, criteria_pointer: Seq<char>, file: &Document, path: Seq<char>,
    root: Seq<char>,
)
    requires
        path == file.path@,
        is_below(criteria_pointer, root),
    ensures
        #[trigger] are_errors_below(integration::criteria_pace_findings(
            criteria, criteria_pointer, file,
        ), path, root),
{
    broadcast use {group_errors, errors_in_wrong_value};
}

broadcast proof fn errors_in_positive_integer(
    object: &Node, base: Seq<char>, key: Seq<char>, label: Seq<char>, file: &Document,
    path: Seq<char>, root: Seq<char>,
)
    requires
        path == file.path@,
        is_below(base, root),
    ensures
        #[trigger] are_errors_below(field_validators::positive_integer_findings(
            object, base, key, label, file,
        ), path, root),
{
    broadcast use {group_errors, errors_in_wrong_type};
}

broadcast proof fn errors_in_frequency(
    recurrence: &Node, recurrence_pointer: Seq<char>, file: &Document, path: Seq<char>,
    root: Seq<char>,
)
    requires
        path == file.path@,
        is_below(recurrence_pointer, root),
    ensures
        #[trigger] are_errors_below(recurrence::frequency_findings(
            recurrence, recurrence_pointer, file,
        ), path, root),
{
    broadcast use {group_errors, errors_in_wrong_value, errors_in_wrong_type};
}

broadcast proof fn errors_in_interval(
    recurrence: &Node, recurrence_pointer: Seq<char>, file: &Document, path: Seq<char>,
    root: Seq<char>,
)
    requires
        path == file.path@,
        is_below(recurrence_pointer, root),
    ensures
        #[trigger] are_errors_below(recurrence::interval_findings(
            recurrence, recurrence_pointer, file,
        ), path, root),
{
    broadcast use {group_errors, errors_in_wrong_type, errors_in_wrong_value};
}

broadcast proof fn errors_in_interval_limit(
    recurrence: &Node, recurrence_pointer: Seq<char>, file: &Document, path: Seq<char>,
    root: Seq<char>,
)
    requires
        path == file.path@,
        is_below(recurrence_pointer, root),
    ensures
        #[trigger] are_errors_below(schedule::interval_limit_findings(
            recurrence, recurrence_pointer, file,
        ), path, root),
{
    broadcast use {group_errors, errors_in_wrong_value};
}

broadcast proof fn errors_in_integer(
    object: &Node, base: Seq<char>, key: Seq<char>, label: Seq<char>, file: &Document,
    path: Seq<char>, root: Seq<char>,
)
    requires
        path == file.path@,
        is_below(base, root),
    ensures
        #[trigger] are_errors_below(field_validators::integer_findings(
            object, base, key, label, file,
        ), path, root),
{
    broadcast use {group_errors, errors_in_wrong_type};
}

broadcast proof fn errors_in_start_time(
    text: Seq<char>, base: Seq<char>, value: &Node, file: &Document, path: Seq<char>,
    root: Seq<char>,
)
    requires
        path == file.path@,
        is_below(base, root),
    ensures
        #[trigger] are_errors_below(date::start_time_findings(text, base, value, file), path, root),
{
    broadcast use {group_errors, errors_in_wrong_value};
}

broadcast proof fn errors_in_datetime(
    recurrence: &Node, recurrence_pointer: Seq<char>, key: Seq<char>, label: Seq<char>,
    file: &Document, path: Seq<char>, root: Seq<char>,
)
    requires
        path == file.path@,
        is_below(recurrence_pointer, root),
    ensures
        #[trigger] are_errors_below(recurrence::datetime_findings(
            recurrence, recurrence_pointer, key, label, file,
        ), path, root),
{
    broadcast use {group_errors, errors_in_wrong_value, errors_in_start_time};
}

broadcast proof fn errors_in_time_zone(
    recurrence: &Node, recurrence_pointer: Seq<char>, file: &Document, path: Seq<char>,
    root: Seq<char>,
)
    requires
        path == file.path@,
        is_below(recurrence_pointer, root),
    ensures
        #[trigger] are_errors_below(recurrence::time_zone_findings(
            recurrence, recurrence_pointer, file,
        ), path, root),
{
    broadcast use {group_errors, errors_in_wrong_value};
}

broadcast proof fn errors_in_schedule_context(
    schedule: &Node, schedule_pointer: Seq<char>, frequency: Seq<char>, file: &Document,
    path: Seq<char>, root: Seq<char>,
)
    requires
        path == file.path@,
        is_below(schedule_pointer, root),
    ensures
        #[trigger] are_errors_below(schedule::schedule_context_findings(
            schedule, schedule_pointer, frequency, file,
        ), path, root),
{
    broadcast use {group_errors, errors_in_wrong_context};
}

broadcast proof fn errors_in_week_day(
    items: Seq<Node>, n: nat, base: Seq<char>, file: &Document, path: Seq<char>, root: Seq<char>,
)
    requires
        path == file.path@,
        is_below(base, root),
    ensures
        #[trigger] are_errors_below(schedule::week_day_findings(items, n, base, file), path, root),
    decreases n,
{
    broadcast use {group_errors, errors_in_wrong_value, errors_in_wrong_type};

    if n > 0 {
        errors_in_week_day(items, (n - 1) as nat, base, file, path, root);
    }
}

broadcast proof fn errors_in_week_days(
    week_days: &Node, pointer: Seq<char>, file: &Document, path: Seq<char>, root: Seq<char>,
)
    requires
        path == file.path@,
        is_below(pointer, root),
    ensures
        #[trigger] are_errors_below(schedule::week_days_findings(
            week_days, pointer, file,
        ), path, root),
{
    broadcast use {group_errors, errors_in_week_day};
}

broadcast proof fn errors_in_schedule_week(
    recurrence: &Node, schedule: &Node, schedule_pointer: Seq<char>, file: &Document,
    path: Seq<char>, root: Seq<char>,
)
    requires
        path == file.path@,
        is_below(schedule_pointer, root),
    ensures
        #[trigger] are_errors_below(schedule::schedule_week_findings(
            recurrence, schedule, schedule_pointer, file,
        ), path, root),
{
    broadcast use {group_errors, errors_in_week_days, errors_in_wrong_context};
}

broadcast proof fn errors_in_schedule_number(
    entry: &Node, pointer: Seq<char>, key: Seq<char>, rule: IntegerListRule, file: &Document,
    path: Seq<char>, root: Seq<char>,
)
    requires
        path == file.path@,
        is_below(pointer, root),
    ensures
        #[trigger] are_errors_below(schedule::schedule_number_findings(
            entry, pointer, key, rule, file,
        ), path, root),
{
    broadcast use group_errors;
}

broadcast proof fn errors_in_schedule_numbers(
    items: Seq<Node>, n: nat, base: Seq<char>, key: Seq<char>, rule: IntegerListRule,
    file: &Document, path: Seq<char>, root: Seq<char>,
)
    requires
        path == file.path@,
        is_below(base, root),
    ensures
        #[trigger] are_errors_below(schedule::schedule_numbers_findings(
            items, n, base, key, rule, file,
        ), path, root),
    decreases n,
{
    broadcast use {group_errors, errors_in_schedule_number};

    if n > 0 {
        errors_in_schedule_numbers(items, (n - 1) as nat, base, key, rule, file, path, root);
    }
}

broadcast proof fn errors_in_schedule_list(
    object: &Node, base: Seq<char>, key: Seq<char>, rule: IntegerListRule, file: &Document,
    path: Seq<char>, root: Seq<char>,
)
    requires
        path == file.path@,
        is_below(base, root),
    ensures
        #[trigger] are_errors_below(schedule::schedule_list_findings(
            object, base, key, rule, file,
        ), path, root),
{
    broadcast use {
        group_errors, errors_in_schedule_numbers, errors_in_schedule_number, errors_in_wrong_type,
    };
}

broadcast proof fn errors_in_occurrence_number(
    occurrence: &Node, occurrence_pointer: Seq<char>, file: &Document, path: Seq<char>,
    root: Seq<char>,
)
    requires
        path == file.path@,
        is_below(occurrence_pointer, root),
    ensures
        #[trigger] are_errors_below(schedule::occurrence_number_findings(
            occurrence, occurrence_pointer, file,
        ), path, root),
{
    broadcast use {group_errors, errors_in_wrong_value, errors_in_wrong_type, errors_in_missing};
}

broadcast proof fn errors_in_occurrence(
    items: Seq<Node>, n: nat, base: Seq<char>, file: &Document, path: Seq<char>, root: Seq<char>,
)
    requires
        path == file.path@,
        is_below(base, root),
    ensures
        #[trigger] are_errors_below(schedule::occurrence_findings(
            items, n, base, file,
        ), path, root),
    decreases n,
{
    broadcast use {
        group_errors, errors_in_occurrence_number, errors_in_required_enum, errors_in_wrong_type,
    };

    if n > 0 {
        errors_in_occurrence(items, (n - 1) as nat, base, file, path, root);
    }
}

broadcast proof fn errors_in_monthly_occurrences(
    schedule: &Node, schedule_pointer: Seq<char>, file: &Document, path: Seq<char>,
    root: Seq<char>,
)
    requires
        path == file.path@,
        is_below(schedule_pointer, root),
    ensures
        #[trigger] are_errors_below(schedule::monthly_occurrences_findings(
            schedule, schedule_pointer, file,
        ), path, root),
{
    broadcast use {group_errors, errors_in_occurrence, errors_in_wrong_type};
}

broadcast proof fn errors_in_schedule_lists(
    schedule: &Node, schedule_pointer: Seq<char>, file: &Document, path: Seq<char>,
    root: Seq<char>,
)
    requires
        path == file.path@,
        is_below(schedule_pointer, root),
    ensures
        #[trigger] are_errors_below(schedule::schedule_lists_findings(
            schedule, schedule_pointer, file,
        ), path, root),
{
    broadcast use {group_errors, errors_in_schedule_list, errors_in_monthly_occurrences};
}

broadcast proof fn errors_in_schedule(
    recurrence: &Node, recurrence_pointer: Seq<char>, file: &Document, path: Seq<char>,
    root: Seq<char>,
)
    requires
        path == file.path@,
        is_below(recurrence_pointer, root),
    ensures
        #[trigger] are_errors_below(schedule::schedule_findings(
            recurrence, recurrence_pointer, file,
        ), path, root),
{
    broadcast use {
        group_errors, errors_in_schedule_context, errors_in_schedule_week,
        errors_in_schedule_lists, errors_in_wrong_type,
    };
}

broadcast proof fn errors_in_recurrence_object(
    recurrence: &Node, recurrence_pointer: Seq<char>, file: &Document, path: Seq<char>,
    root: Seq<char>,
)
    requires
        path == file.path@,
        is_below(recurrence_pointer, root),
    ensures
        #[trigger] are_errors_below(recurrence::recurrence_object_findings(
            recurrence, recurrence_pointer, file,
        ), path, root),
{
    broadcast use {
        group_errors, errors_in_missing, errors_in_frequency, errors_in_interval,
        errors_in_interval_limit, errors_in_integer, errors_in_string, errors_in_datetime,
        errors_in_time_zone, errors_in_schedule,
    };
}

broadcast proof fn errors_in_recurrence(
    trigger: &Node, recurrence: Option<Node>, trigger_pointer: Seq<char>, file: &Document,
    path: Seq<char>, root: Seq<char>,
)
    requires
        path == file.path@,
        is_below(trigger_pointer, root),
    ensures
        #[trigger] are_errors_below(recurrence::recurrence_findings(
            trigger, recurrence, trigger_pointer, file,
        ), path, root),
{
    broadcast use {
        group_errors, errors_in_recurrence_object, errors_in_wrong_type, errors_in_missing,
    };
}

broadcast proof fn errors_in_optional_recurrence(
    trigger: &Node, recurrence: Option<Node>, trigger_pointer: Seq<char>, file: &Document,
    path: Seq<char>, root: Seq<char>,
)
    requires
        path == file.path@,
        is_below(trigger_pointer, root),
    ensures
        #[trigger] are_errors_below(recurrence::optional_recurrence_findings(
            trigger, recurrence, trigger_pointer, file,
        ), path, root),
{
    broadcast use {group_errors, errors_in_recurrence};
}

broadcast proof fn errors_in_criteria(
    criteria: &Node, criteria_pointer: Seq<char>, file: &Document, path: Seq<char>,
    root: Seq<char>,
)
    requires
        path == file.path@,
        is_below(criteria_pointer, root),
    ensures
        #[trigger] are_errors_below(integration::criteria_findings(
            criteria, criteria_pointer, file,
        ), path, root),
{
    broadcast use {
        group_errors, errors_in_positive_integer, errors_in_criteria_limit,
        errors_in_optional_recurrence, errors_in_criteria_pace,
    };
}

broadcast proof fn errors_in_release_criteria(
    inputs: &Node, inputs_pointer: Seq<char>, file: &Document, path: Seq<char>, root: Seq<char>,
)
    requires
        path == file.path@,
        is_below(inputs_pointer, root),
    ensures
        #[trigger] are_errors_below(integration::release_criteria_findings(
            inputs, inputs_pointer, file,
        ), path, root),
{
    broadcast use {group_errors, errors_in_criteria, errors_in_wrong_type};
}

broadcast proof fn errors_in_configuration(
    members: Seq<Member>, n: nat, base: Seq<char>, file: &Document, path: Seq<char>,
    root: Seq<char>,
)
    requires
        path == file.path@,
        is_below(base, root),
    ensures
        #[trigger] are_errors_below(integration::configuration_findings(
            members, n, base, file,
        ), path, root),
    decreases n,
{
    broadcast use {group_errors, errors_in_release_criteria, errors_in_wrong_type};

    if n > 0 {
        errors_in_configuration(members, (n - 1) as nat, base, file, path, root);
    }
}

broadcast proof fn errors_in_batch_configurations(
    inputs: &Node, inputs_pointer: Seq<char>, file: &Document, path: Seq<char>, root: Seq<char>,
)
    requires
        path == file.path@,
        is_below(inputs_pointer, root),
    ensures
        #[trigger] are_errors_below(integration::batch_configurations_findings(
            inputs, inputs_pointer, file,
        ), path, root),
{
    broadcast use {group_errors, errors_in_configuration, errors_in_wrong_type};
}

broadcast proof fn errors_in_batch_inputs(
    inputs: &Node, inputs_pointer: Seq<char>, file: &Document, path: Seq<char>, root: Seq<char>,
)
    requires
        path == file.path@,
        is_below(inputs_pointer, root),
    ensures
        #[trigger] are_errors_below(integration::batch_inputs_findings(
            inputs, inputs_pointer, file,
        ), path, root),
{
    broadcast use {
        group_errors, errors_in_object, errors_in_string, errors_in_release_criteria,
        errors_in_batch_configurations, errors_in_wrong_type,
    };
}

broadcast proof fn errors_in_batch_action(
    action: &Node, action_pointer: Seq<char>, file: &Document, path: Seq<char>, root: Seq<char>,
)
    requires
        path == file.path@,
        is_below(action_pointer, root),
    ensures
        #[trigger] are_errors_below(integration::batch_action_findings(
            action, action_pointer, file,
        ), path, root),
{
    broadcast use {group_errors, errors_in_inputs, errors_in_batch_mode, errors_in_batch_inputs};
}

broadcast proof fn errors_in_workflow_host(
    host: &Node, host_pointer: Seq<char>, file: &Document, path: Seq<char>, root: Seq<char>,
)
    requires
        path == file.path@,
        is_below(host_pointer, root),
    ensures
        #[trigger] are_errors_below(integration::workflow_host_findings(
            host, host_pointer, file,
        ), path, root),
{
    broadcast use {
        group_errors, errors_in_typed_field, errors_in_wrong_type, errors_in_object_field,
    };
}

broadcast proof fn errors_in_workflow_action_inputs(
    inputs: &Node, inputs_pointer: Seq<char>, file: &Document, workflow: &Workflow,
    path: Seq<char>, root: Seq<char>,
)
    requires
        path == file.path@,
        is_below(inputs_pointer, root),
    ensures
        #[trigger] are_errors_below(integration::workflow_action_inputs_findings(
            inputs, inputs_pointer, file, workflow,
        ), path, root),
{
    broadcast use {
        group_errors, errors_in_object_field, errors_in_workflow_host, errors_in_http_inputs,
    };
}

broadcast proof fn errors_in_workflow_action(
    action: &Node, action_pointer: Seq<char>, file: &Document, workflow: &Workflow,
    path: Seq<char>, root: Seq<char>,
)
    requires
        path == file.path@,
        is_below(action_pointer, root),
    ensures
        #[trigger] are_errors_below(integration::workflow_action_findings(
            action, action_pointer, file, workflow,
        ), path, root),
{
    broadcast use {group_errors, errors_in_inputs, errors_in_workflow_action_inputs};
}

broadcast proof fn errors_in_account_artifact(
    inputs: &Node, inputs_pointer: Seq<char>, artifact: Seq<char>, file: &Document,
    path: Seq<char>, root: Seq<char>,
)
    requires
        path == file.path@,
        is_below(inputs_pointer, root),
    ensures
        #[trigger] are_errors_below(integration::account_artifact_findings(
            inputs, inputs_pointer, artifact, file,
        ), path, root),
{
    broadcast use {
        group_errors, errors_in_object_field, errors_in_typed_field, errors_in_wrong_type,
    };
}

broadcast proof fn errors_in_account_content(
    inputs: &Node, inputs_pointer: Seq<char>, artifact: Seq<char>, file: &Document,
    path: Seq<char>, root: Seq<char>,
)
    requires
        path == file.path@,
        is_below(inputs_pointer, root),
    ensures
        #[trigger] are_errors_below(integration::account_content_findings(
            inputs, inputs_pointer, artifact, file,
        ), path, root),
{
    broadcast use {group_errors, errors_in_typed_field, errors_in_object_field};
}

broadcast proof fn errors_in_xslt_parameter(
    members: Seq<Member>, n: nat, base: Seq<char>, file: &Document, path: Seq<char>,
    root: Seq<char>,
)
    requires
        path == file.path@,
        is_below(base, root),
    ensures
        #[trigger] are_errors_below(integration::xslt_parameter_findings(
            members, n, base, file,
        ), path, root),
    decreases n,
{
    broadcast use {group_errors, errors_in_wrong_type};

    if n > 0 {
        errors_in_xslt_parameter(members, (n - 1) as nat, base, file, path, root);
    }
}

broadcast proof fn errors_in_xslt_action(
    action: &Node, action_pointer: Seq<char>, file: &Document, path: Seq<char>, root: Seq<char>,
)
    requires
        path == file.path@,
        is_below(action_pointer, root),
    ensures
        #[trigger] are_errors_below(integration::xslt_action_findings(
            action, action_pointer, file,
        ), path, root),
{
    broadcast use {
        group_errors, errors_in_inputs, errors_in_typed_field, errors_in_account_artifact,
        errors_in_string, errors_in_xslt_parameter, errors_in_wrong_type,
    };
}

broadcast proof fn errors_in_artifact_lookup_action(
    action: &Node, action_pointer: Seq<char>, file: &Document, path: Seq<char>, root: Seq<char>,
)
    requires
        path == file.path@,
        is_below(action_pointer, root),
    ensures
        #[trigger] are_errors_below(integration::artifact_lookup_action_findings(
            action, action_pointer, file,
        ), path, root),
{
    broadcast use {
        group_errors, errors_in_inputs, errors_in_typed_field, errors_in_enum, errors_in_string,
    };
}

broadcast proof fn errors_in_xml_validation_action(
    action: &Node, action_pointer: Seq<char>, file: &Document, path: Seq<char>, root: Seq<char>,
)
    requires
        path == file.path@,
        is_below(action_pointer, root),
    ensures
        #[trigger] are_errors_below(integration::xml_validation_action_findings(
            action, action_pointer, file,
        ), path, root),
{
    broadcast use {group_errors, errors_in_inputs, errors_in_account_content};
}

broadcast proof fn errors_in_liquid_action(
    action: &Node, action_pointer: Seq<char>, file: &Document, path: Seq<char>, root: Seq<char>,
)
    requires
        path == file.path@,
        is_below(action_pointer, root),
    ensures
        #[trigger] are_errors_below(integration::liquid_action_findings(
            action, action_pointer, file,
        ), path, root),
{
    broadcast use {group_errors, errors_in_kind, errors_in_inputs, errors_in_account_content};
}

broadcast proof fn errors_in_flat_file_action(
    action: &Node, action_pointer: Seq<char>, file: &Document, path: Seq<char>, root: Seq<char>,
)
    requires
        path == file.path@,
        is_below(action_pointer, root),
    ensures
        #[trigger] are_errors_below(integration::flat_file_action_findings(
            action, action_pointer, file,
        ), path, root),
{
    broadcast use {group_errors, errors_in_inputs, errors_in_account_content, errors_in_enum};
}

broadcast proof fn errors_in_initializer(
    object: &Node, base: Seq<char>, file: &Document, path: Seq<char>, root: Seq<char>,
)
    requires
        path == file.path@,
        is_below(base, root),
    ensures
        #[trigger] are_errors_below(variables::initializer_findings(
            object, base, file,
        ), path, root),
{
    broadcast use {
        group_errors, errors_in_typed_field, errors_in_missing, errors_in_wrong_type,
        errors_in_wrong_value,
    };
}

broadcast proof fn errors_in_initializer_list(
    items: Seq<Node>, n: nat, base: Seq<char>, file: &Document, path: Seq<char>, root: Seq<char>,
)
    requires
        path == file.path@,
        is_below(base, root),
    ensures
        #[trigger] are_errors_below(variables::initializer_list_findings(
            items, n, base, file,
        ), path, root),
    decreases n,
{
    broadcast use {group_errors, errors_in_initializer, errors_in_wrong_type};

    if n > 0 {
        errors_in_initializer_list(items, (n - 1) as nat, base, file, path, root);
    }
}

broadcast proof fn errors_in_initialized(
    inputs: &Node, base: Seq<char>, file: &Document, path: Seq<char>, root: Seq<char>,
)
    requires
        path == file.path@,
        is_below(base, root),
    ensures
        #[trigger] are_errors_below(variables::initialized_findings(
            inputs, base, file,
        ), path, root),
{
    broadcast use {
        group_errors, errors_in_initializer, errors_in_initializer_list, errors_in_wrong_type,
    };
}

broadcast proof fn errors_in_variables_container(
    action: &Node, base: Seq<char>, container: Seq<char>, file: &Document, path: Seq<char>,
    root: Seq<char>,
)
    requires
        path == file.path@,
        is_below(base, root),
    ensures
        #[trigger] are_errors_below(variables::container_findings(
            action, base, container, file,
        ), path, root),
{
    broadcast use group_errors;
}

broadcast proof fn errors_in_initialize_variable(
    action: &Node, base: Seq<char>, container: Seq<char>, file: &Document, path: Seq<char>,
    root: Seq<char>,
)
    requires
        path == file.path@,
        is_below(base, root),
    ensures
        #[trigger] are_errors_below(variables::initialize_variable_findings(
            action, base, container, file,
        ), path, root),
{
    broadcast use {
        group_errors, errors_in_variables_container, errors_in_inputs, errors_in_initialized,
    };
}

broadcast proof fn errors_in_numeric_target(
    inputs: &Node, base: Seq<char>, action_type: Seq<char>, file: &Document, workflow: &Workflow,
    path: Seq<char>, root: Seq<char>,
)
    requires
        path == file.path@,
        is_below(base, root),
    ensures
        #[trigger] are_errors_below(variables::numeric_target_findings(
            inputs, base, action_type, file, workflow,
        ), path, root),
{
    broadcast use {group_errors, errors_in_wrong_context};
}

broadcast proof fn errors_in_step(
    inputs: &Node, base: Seq<char>, action_type: Seq<char>, file: &Document, path: Seq<char>,
    root: Seq<char>,
)
    requires
        path == file.path@,
        is_below(base, root),
    ensures
        #[trigger] are_errors_below(variables::step_findings(
            inputs, base, action_type, file,
        ), path, root),
{
    broadcast use {group_errors, errors_in_wrong_type};
}

broadcast proof fn errors_in_variable_update_inputs(
    inputs: &Node, base: Seq<char>, action_type: Seq<char>, file: &Document, workflow: &Workflow,
    path: Seq<char>, root: Seq<char>,
)
    requires
        path == file.path@,
        is_below(base, root),
    ensures
        #[trigger] are_errors_below(variables::variable_update_inputs_findings(
            inputs, base, action_type, file, workflow,
        ), path, root),
{
    broadcast use {
        group_errors, errors_in_typed_field, errors_in_step, errors_in_numeric_target,
        errors_in_enum,
    };
}

broadcast proof fn errors_in_variable_update(
    action: &Node, pointer: Seq<char>, action_type: Seq<char>, file: &Document,
    workflow: &Workflow, path: Seq<char>, root: Seq<char>,
)
    requires
        path == file.path@,
        is_below(pointer, root),
    ensures
        #[trigger] are_errors_below(variables::variable_update_findings(
            action, pointer, action_type, file, workflow,
        ), path, root),
{
    broadcast use {group_errors, errors_in_inputs, errors_in_variable_update_inputs};
}

broadcast proof fn errors_in_description_length(
    value: &Node, pointer: Seq<char>, label: Seq<char>, file: &Document, path: Seq<char>,
    root: Seq<char>,
)
    requires
        path == file.path@,
        is_below(pointer, root),
    ensures
        #[trigger] are_errors_below(common::description_length_findings(
            value, pointer, label, file,
        ), path, root),
{
    broadcast use {group_errors, errors_in_wrong_value};
}

broadcast proof fn errors_in_chunked_item(
    items: Vec<Node>, n: nat, pointer: Seq<char>, file: &Document, path: Seq<char>,
    root: Seq<char>,
)
    requires
        path == file.path@,
        is_below(pointer, root),
    ensures
        #[trigger] are_errors_below(content_transfer::chunked_item_findings(
            items, n, pointer, file,
        ), path, root),
    decreases items, n,
{
    broadcast use group_errors;

    if 0 < n <= items@.len() {
        errors_in_chunked_item(items, (n - 1) as nat, pointer, file, path, root);
        errors_in_chunked(&items[n - 1], joined(pointer, decimal(n - 1)), file, path, root);
    }
}

broadcast proof fn errors_in_chunked_member(
    members: Vec<Member>, n: nat, pointer: Seq<char>, file: &Document, path: Seq<char>,
    root: Seq<char>,
)
    requires
        path == file.path@,
        is_below(pointer, root),
    ensures
        #[trigger] are_errors_below(content_transfer::chunked_member_findings(
            members, n, pointer, file,
        ), path, root),
    decreases members, n,
{
    broadcast use group_errors;

    if 0 < n <= members@.len() {
        errors_in_chunked_member(members, (n - 1) as nat, pointer, file, path, root);
        errors_in_chunked(&members[n - 1].value, joined(pointer, members[n - 1].name@), file, path, root);
    }
}

broadcast proof fn errors_in_chunked(
    value: &Node, pointer: Seq<char>, file: &Document, path: Seq<char>, root: Seq<char>,
)
    requires
        path == file.path@,
        is_below(pointer, root),
    ensures
        #[trigger] are_errors_below(content_transfer::chunked_findings(
            value, pointer, file,
        ), path, root),
    decreases value, 0nat,
{
    broadcast use group_errors;

    match value.kind {
        Json::Object(members) => {
            errors_in_chunked_member(members, members@.len(), pointer, file, path, root);
        },
        Json::Array(items) => {
            errors_in_chunked_item(items, items@.len(), pointer, file, path, root);
        },
        _ => {},
    }
}

broadcast proof fn errors_in_tracked_properties(
    value: &Node, pointer: Seq<char>, label: Seq<char>, file: &Document, path: Seq<char>,
    root: Seq<char>,
)
    requires
        path == file.path@,
        is_below(pointer, root),
    ensures
        #[trigger] are_errors_below(common::tracked_properties_findings(
            value, pointer, label, file,
        ), path, root),
{
    broadcast use {group_errors, errors_in_chunked, errors_in_wrong_type};
}

broadcast proof fn errors_in_trigger_tracking(
    value: &Node, pointer: Seq<char>, label: Seq<char>, file: &Document, path: Seq<char>,
    root: Seq<char>,
)
    requires
        path == file.path@,
        is_below(pointer, root),
    ensures
        #[trigger] are_errors_below(common::trigger_tracking_findings(
            value, pointer, label, file,
        ), path, root),
{
    broadcast use {group_errors, errors_in_wrong_context};
}

broadcast proof fn errors_in_secure_tracking(
    value: &Node, pointer: Seq<char>, label: Seq<char>, file: &Document, path: Seq<char>,
    root: Seq<char>,
)
    requires
        path == file.path@,
        is_below(pointer, root),
    ensures
        #[trigger] are_errors_below(common::secure_tracking_findings(
            value, pointer, label, file,
        ), path, root),
{
    broadcast use {group_errors, errors_in_wrong_context};
}

broadcast proof fn errors_in_node_kind(
    value: &Node, pointer: Seq<char>, label: Seq<char>, file: &Document, path: Seq<char>,
    root: Seq<char>,
)
    requires
        path == file.path@,
        is_below(pointer, root),
    ensures
        #[trigger] are_errors_below(common::node_kind_findings(
            value, pointer, label, file,
        ), path, root),
{
    broadcast use {group_errors, errors_in_wrong_value, errors_in_wrong_type};
}

broadcast proof fn errors_in_limit_timeout(
    value: &Node, limit: &Node, limit_pointer: Seq<char>, label: Seq<char>, file: &Document,
    path: Seq<char>, root: Seq<char>,
)
    requires
        path == file.path@,
        is_below(limit_pointer, root),
    ensures
        #[trigger] are_errors_below(common::limit_timeout_findings(
            value, limit, limit_pointer, label, file,
        ), path, root),
{
    broadcast use {
        group_errors, errors_in_wrong_context, errors_in_wrong_value, errors_in_wrong_type,
    };
}

broadcast proof fn errors_in_common_limit(
    value: &Node, pointer: Seq<char>, label: Seq<char>, file: &Document, path: Seq<char>,
    root: Seq<char>,
)
    requires
        path == file.path@,
        is_below(pointer, root),
    ensures
        #[trigger] are_errors_below(common::common_limit_findings(
            value, pointer, label, file,
        ), path, root),
{
    broadcast use {group_errors, errors_in_limit_timeout, errors_in_wrong_type};
}

broadcast proof fn errors_in_option(
    value: &Node, options: &Node, option: Seq<char>, pointer: Seq<char>, label: Seq<char>,
    file: &Document, workflow: &Workflow, path: Seq<char>, root: Seq<char>,
)
    requires
        path == file.path@,
        is_below(pointer, root),
    ensures
        #[trigger] are_errors_below(operation_options::option_findings(
            value, options, option, pointer, label, file, workflow,
        ), path, root),
{
    broadcast use {group_errors, errors_in_unknown_option, errors_in_wrong_context};
}

broadcast proof fn errors_in_option_list(
    tokens: Seq<Seq<char>>, n: nat, value: &Node, options: &Node, pointer: Seq<char>,
    label: Seq<char>, file: &Document, workflow: &Workflow, path: Seq<char>, root: Seq<char>,
)
    requires
        path == file.path@,
        is_below(pointer, root),
    ensures
        #[trigger] are_errors_below(operation_options::option_list_findings(
            tokens, n, value, options, pointer, label, file, workflow,
        ), path, root),
    decreases n,
{
    broadcast use {group_errors, errors_in_option};

    if n > 0 {
        errors_in_option_list(tokens, (n - 1) as nat, value, options, pointer, label, file, workflow, path, root);
    }
}

broadcast proof fn errors_in_options(
    value: &Node, pointer: Seq<char>, label: Seq<char>, file: &Document, workflow: &Workflow,
    path: Seq<char>, root: Seq<char>,
)
    requires
        path == file.path@,
        is_below(pointer, root),
    ensures
        #[trigger] are_errors_below(operation_options::options_findings(
            value, pointer, label, file, workflow,
        ), path, root),
{
    broadcast use {group_errors, errors_in_option_list};
}

broadcast proof fn errors_in_runs_context(
    concurrency: &Node, concurrency_pointer: Seq<char>, label: Seq<char>, file: &Document,
    workflow: &Workflow, path: Seq<char>, root: Seq<char>,
)
    requires
        path == file.path@,
        is_below(concurrency_pointer, root),
    ensures
        #[trigger] are_errors_below(runtime::runs_context_findings(
            concurrency, concurrency_pointer, label, file, workflow,
        ), path, root),
{
    broadcast use {group_errors, errors_in_wrong_context};
}

broadcast proof fn errors_in_repetitions_context(
    concurrency: &Node, concurrency_pointer: Seq<char>, operation: &Node, known: bool,
    label: Seq<char>, file: &Document, path: Seq<char>, root: Seq<char>,
)
    requires
        path == file.path@,
        is_below(concurrency_pointer, root),
    ensures
        #[trigger] are_errors_below(runtime::repetitions_context_findings(
            concurrency, concurrency_pointer, operation, known, label, file,
        ), path, root),
{
    broadcast use {group_errors, errors_in_wrong_context};
}

broadcast proof fn errors_in_waiting_value(
    waiting: &Node, number: i64, pointer: Seq<char>, operation: &Node, concurrency: &Node,
    label: Seq<char>, file: &Document, workflow: &Workflow, path: Seq<char>, root: Seq<char>,
)
    requires
        path == file.path@,
        is_below(pointer, root),
    ensures
        #[trigger] are_errors_below(runtime::waiting_value_findings(
            waiting, number, pointer, operation, concurrency, label, file, workflow,
        ), path, root),
{
    broadcast use group_errors;
}

broadcast proof fn errors_in_waiting_runs(
    waiting: &Node, pointer: Seq<char>, operation: &Node, known: bool, concurrency: &Node,
    label: Seq<char>, file: &Document, workflow: &Workflow, path: Seq<char>, root: Seq<char>,
)
    requires
        path == file.path@,
        is_below(pointer, root),
    ensures
        #[trigger] are_errors_below(runtime::waiting_runs_findings(
            waiting, pointer, operation, known, concurrency, label, file, workflow,
        ), path, root),
{
    broadcast use {group_errors, errors_in_waiting_value};
}

broadcast proof fn errors_in_concurrency_object(
    concurrency: &Node, concurrency_pointer: Seq<char>, operation: &Node, known: bool,
    label: Seq<char>, file: &Document, workflow: &Workflow, path: Seq<char>, root: Seq<char>,
)
    requires
        path == file.path@,
        is_below(concurrency_pointer, root),
    ensures
        #[trigger] are_errors_below(runtime::concurrency_object_findings(
            concurrency, concurrency_pointer, operation, known, label, file, workflow,
        ), path, root),
{
    broadcast use {
        group_errors, errors_in_range, errors_in_runs_context, errors_in_repetitions_context,
        errors_in_waiting_runs,
    };
}

broadcast proof fn errors_in_concurrency(
    operation: &Node, known: bool, runtime: &Node, pointer: Seq<char>, label: Seq<char>,
    file: &Document, workflow: &Workflow, path: Seq<char>, root: Seq<char>,
)
    requires
        path == file.path@,
        is_below(pointer, root),
    ensures
        #[trigger] are_errors_below(runtime::concurrency_findings(
            operation, known, runtime, pointer, label, file, workflow,
        ), path, root),
{
    broadcast use {group_errors, errors_in_concurrency_object, errors_in_wrong_type};
}

broadcast proof fn errors_in_misplaced_waiting(
    runtime: &Node, pointer: Seq<char>, label: Seq<char>, file: &Document, path: Seq<char>,
    root: Seq<char>,
)
    requires
        path == file.path@,
        is_below(pointer, root),
    ensures
        #[trigger] are_errors_below(runtime::misplaced_waiting_findings(
            runtime, pointer, label, file,
        ), path, root),
{
    broadcast use {group_errors, errors_in_wrong_context};
}

broadcast proof fn errors_in_pagination(
    runtime: &Node, pointer: Seq<char>, label: Seq<char>, file: &Document, path: Seq<char>,
    root: Seq<char>,
)
    requires
        path == file.path@,
        is_below(pointer, root),
    ensures
        #[trigger] are_errors_below(runtime::pagination_findings(
            runtime, pointer, label, file,
        ), path, root),
{
    broadcast use {group_errors, errors_in_missing, errors_in_positive_integer};
}

broadcast proof fn errors_in_content_transfer(
    operation: &Node, known: bool, runtime: &Node, pointer: Seq<char>, label: Seq<char>,
    file: &Document, workflow: &Workflow, path: Seq<char>, root: Seq<char>,
)
    requires
        path == file.path@,
        is_below(pointer, root),
    ensures
        #[trigger] are_errors_below(content_transfer::content_transfer_findings(
            operation, known, runtime, pointer, label, file, workflow,
        ), path, root),
{
    broadcast use {group_errors, errors_in_caseless_enum};
}

broadcast proof fn errors_in_secure_property(
    items: Seq<Node>, n: nat, base: Seq<char>, operation: &Node, known: bool, label: Seq<char>,
    file: &Document, path: Seq<char>, root: Seq<char>,
)
    requires
        path == file.path@,
        is_below(base, root),
    ensures
        #[trigger] are_errors_below(secure_data::secure_property_findings(
            items, n, base, operation, known, label, file,
        ), path, root),
    decreases n,
{
    broadcast use {
        group_errors, errors_in_wrong_value, errors_in_wrong_context, errors_in_wrong_type,
    };

    if n > 0 {
        errors_in_secure_property(items, (n - 1) as nat, base, operation, known, label, file, path, root);
    }
}

broadcast proof fn errors_in_secure_properties(
    secure: &Node, secure_pointer: Seq<char>, operation: &Node, known: bool, label: Seq<char>,
    file: &Document, scope: &ArmScope, path: Seq<char>, root: Seq<char>,
)
    requires
        path == file.path@,
        is_below(secure_pointer, root),
    ensures
        #[trigger] are_errors_below(secure_data::secure_properties_findings(
            secure, secure_pointer, operation, known, label, file, scope,
        ), path, root),
{
    broadcast use {
        group_errors, errors_in_missing, errors_in_secure_property, errors_in_wrong_type,
    };
}

broadcast proof fn errors_in_secure_data(
    operation: &Node, known: bool, runtime: &Node, pointer: Seq<char>, label: Seq<char>,
    file: &Document, scope: &ArmScope, path: Seq<char>, root: Seq<char>,
)
    requires
        path == file.path@,
        is_below(pointer, root),
    ensures
        #[trigger] are_errors_below(secure_data::secure_data_findings(
            operation, known, runtime, pointer, label, file, scope,
        ), path, root),
{
    broadcast use {group_errors, errors_in_secure_properties};
}

broadcast proof fn errors_in_static_result_reference(
    result: &Node, result_pointer: Seq<char>, label: Seq<char>, file: &Document,
    workflow: &Workflow, path: Seq<char>, root: Seq<char>,
)
    requires
        path == file.path@,
        is_below(result_pointer, root),
    ensures
        #[trigger] are_errors_below(static_results::static_result_reference_findings(
            result, result_pointer, label, file, workflow,
        ), path, root),
{
    broadcast use group_errors;
}

broadcast proof fn errors_in_static_result(
    runtime: &Node, pointer: Seq<char>, label: Seq<char>, file: &Document, workflow: &Workflow,
    path: Seq<char>, root: Seq<char>,
)
    requires
        path == file.path@,
        is_below(pointer, root),
    ensures
        #[trigger] are_errors_below(static_results::static_result_findings(
            runtime, pointer, label, file, workflow,
        ), path, root),
{
    broadcast use {
        group_errors, errors_in_typed_field, errors_in_required_enum,
        errors_in_static_result_reference,
    };
}

broadcast proof fn errors_in_runtime(
    value: &Node, known: bool, pointer: Seq<char>, label: Seq<char>, file: &Document,
    workflow: &Workflow, scope: &ArmScope, path: Seq<char>, root: Seq<char>,
)
    requires
        path == file.path@,
        is_below(pointer, root),
    ensures
        #[trigger] are_errors_below(runtime::runtime_findings(
            value, known, pointer, label, file, workflow, scope,
        ), path, root),
{
    broadcast use {
        group_errors, errors_in_concurrency, errors_in_misplaced_waiting, errors_in_pagination,
        errors_in_content_transfer, errors_in_secure_data, errors_in_static_result,
    };
}

broadcast proof fn errors_in_option_conflict(
    value: &Node, pointer: Seq<char>, label: Seq<char>, file: &Document, path: Seq<char>,
    root: Seq<char>,
)
    requires
        path == file.path@,
        is_below(pointer, root),
    ensures
        #[trigger] are_errors_below(operation_options::option_conflict_findings(
            value, pointer, label, file,
        ), path, root),
{
    broadcast use {group_errors, errors_in_wrong_context};
}

broadcast proof fn errors_in_common(
    value: &Node, pointer: Seq<char>, label: Seq<char>, file: &Document, workflow: &Workflow,
    scope: &ArmScope, path: Seq<char>, root: Seq<char>,
)
    requires
        path == file.path@,
        is_below(pointer, root),
    ensures
        #[trigger] are_errors_below(common::common_findings(
            value, pointer, label, file, workflow, scope,
        ), path, root),
{
    broadcast use {
        group_errors, errors_in_string, errors_in_description_length, errors_in_object,
        errors_in_options, errors_in_runtime, errors_in_option_conflict, errors_in_common_limit,
        errors_in_tracked_properties, errors_in_trigger_tracking, errors_in_secure_tracking,
        errors_in_node_kind,
    };
}

broadcast proof fn errors_in_untyped_common(
    value: &Node, pointer: Seq<char>, label: Seq<char>, file: &Document, workflow: &Workflow,
    scope: &ArmScope, path: Seq<char>, root: Seq<char>,
)
    requires
        path == file.path@,
        is_below(pointer, root),
    ensures
        #[trigger] are_errors_below(common::untyped_common_findings(
            value, pointer, label, file, workflow, scope,
        ), path, root),
{
    broadcast use {
        group_errors, errors_in_string, errors_in_description_length, errors_in_unknown_options,
        errors_in_object, errors_in_runtime, errors_in_tracked_properties,
        errors_in_trigger_tracking,
    };
}

broadcast proof fn errors_in_default_value(
    parameter: &Node, parameter_pointer: Seq<char>, kind: Seq<char>, required: bool,
    file: &Document, path: Seq<char>, root: Seq<char>,
)
    requires
        path == file.path@,
        is_below(parameter_pointer, root),
    ensures
        #[trigger] are_errors_below(definition_io::default_value_findings(
            parameter, parameter_pointer, kind, required, file,
        ), path, root),
{
    broadcast use {group_errors, errors_in_missing, errors_in_wrong_type};
}

broadcast proof fn errors_in_parameter_body(
    parameter: &Node, parameter_pointer: Seq<char>, kind: Seq<char>, required: bool,
    file: &Document, path: Seq<char>, root: Seq<char>,
)
    requires
        path == file.path@,
        is_below(parameter_pointer, root),
    ensures
        #[trigger] are_errors_below(definition_io::parameter_body_findings(
            parameter, parameter_pointer, kind, required, file,
        ), path, root),
{
    broadcast use {
        group_errors, errors_in_default_value, errors_in_wrong_type, errors_in_string,
        errors_in_description_length,
    };
}

pub broadcast proof fn errors_in_parameter(
    parameter: &Node, parameter_pointer: Seq<char>, required: bool, file: &Document,
    path: Seq<char>, root: Seq<char>,
)
    requires
        path == file.path@,
        is_below(parameter_pointer, root),
    ensures
        #[trigger] are_errors_below(definition_io::parameter_findings(
            parameter, parameter_pointer, required, file,
        ), path, root),
{
    broadcast use {
        group_errors, errors_in_wrong_value, errors_in_parameter_body, errors_in_wrong_type,
        errors_in_missing,
    };
}

broadcast proof fn errors_in_parameter_list(
    members: Seq<Member>, n: nat, base: Seq<char>, file: &Document,
    known_parameters: Seq<Seq<char>>, required: bool, path: Seq<char>, root: Seq<char>,
)
    requires
        path == file.path@,
        is_below(base, root),
    ensures
        #[trigger] are_errors_below(definition_io::parameter_list_findings(
            members, n, base, file, known_parameters, required,
        ), path, root),
    decreases n,
{
    broadcast use {group_errors, errors_in_parameter, errors_in_wrong_type};

    if n > 0 {
        errors_in_parameter_list(members, (n - 1) as nat, base, file, known_parameters, required, path, root);
    }
}

broadcast proof fn errors_in_parameters(
    parameters: &Node, parameters_pointer: Seq<char>, file: &Document,
    known_parameters: Seq<Seq<char>>, required: bool, path: Seq<char>, root: Seq<char>,
)
    requires
        path == file.path@,
        is_below(parameters_pointer, root),
    ensures
        #[trigger] are_errors_below(definition_io::parameters_findings(
            parameters, parameters_pointer, file, known_parameters, required,
        ), path, root),
{
    broadcast use {group_errors, errors_in_parameter_list};
}

broadcast proof fn errors_in_output_value(
    output: &Node, output_pointer: Seq<char>, kind: Option<Seq<char>>, file: &Document,
    path: Seq<char>, root: Seq<char>,
)
    requires
        path == file.path@,
        is_below(output_pointer, root),
    ensures
        #[trigger] are_errors_below(definition_io::output_value_findings(
            output, output_pointer, kind, file,
        ), path, root),
{
    broadcast use {group_errors, errors_in_wrong_type, errors_in_missing};
}

broadcast proof fn errors_in_output(
    output: &Node, output_pointer: Seq<char>, file: &Document, path: Seq<char>, root: Seq<char>,
)
    requires
        path == file.path@,
        is_below(output_pointer, root),
    ensures
        #[trigger] are_errors_below(definition_io::output_findings(
            output, output_pointer, file,
        ), path, root),
{
    broadcast use {
        group_errors, errors_in_wrong_value, errors_in_output_value, errors_in_string,
        errors_in_description_length, errors_in_wrong_type, errors_in_missing,
    };
}

broadcast proof fn errors_in_output_list(
    members: Seq<Member>, n: nat, base: Seq<char>, file: &Document, path: Seq<char>,
    root: Seq<char>,
)
    requires
        path == file.path@,
        is_below(base, root),
    ensures
        #[trigger] are_errors_below(definition_io::output_list_findings(
            members, n, base, file,
        ), path, root),
    decreases n,
{
    broadcast use {group_errors, errors_in_output, errors_in_wrong_type};

    if n > 0 {
        errors_in_output_list(members, (n - 1) as nat, base, file, path, root);
    }
}

pub broadcast proof fn errors_in_outputs(
    outputs: &Node, outputs_pointer: Seq<char>, file: &Document, path: Seq<char>, root: Seq<char>,
)
    requires
        path == file.path@,
        is_below(outputs_pointer, root),
    ensures
        #[trigger] are_errors_below(definition_io::outputs_findings(
            outputs, outputs_pointer, file,
        ), path, root),
{
    broadcast use {group_errors, errors_in_output_list};
}

broadcast proof fn errors_in_uri(
    object: &Node, base: Seq<char>, key: Seq<char>, label: Seq<char>, file: &Document,
    path: Seq<char>, root: Seq<char>,
)
    requires
        path == file.path@,
        is_below(base, root),
    ensures
        #[trigger] are_errors_below(http_uri::uri_findings(
            object, base, key, label, file,
        ), path, root),
{
    broadcast use {group_errors, errors_in_wrong_value};
}

broadcast proof fn errors_in_trigger_count(
    value: &Node, pointer: Seq<char>, file: &Document, workflow: &Workflow, path: Seq<char>,
    root: Seq<char>,
)
    requires
        path == file.path@,
        is_below(pointer, root),
    ensures
        #[trigger] are_errors_below(limits::trigger_count_findings(
            value, pointer, file, workflow,
        ), path, root),
{
    broadcast use group_errors;
}

broadcast proof fn errors_in_name_length(
    name: Seq<char>, pointer: Seq<char>, label: Seq<char>, file: &Document, span: Option<ByteSpan>,
    path: Seq<char>, root: Seq<char>,
)
    requires
        path == file.path@,
        is_below(pointer, root),
    ensures
        #[trigger] are_errors_below(limits::name_length_findings(
            name, pointer, label, file, span,
        ), path, root),
{
    broadcast use group_errors;
}

broadcast proof fn errors_in_depth(
    actions: Seq<ActionInfo>, n: nat, file: &Document, workflow: &Workflow, path: Seq<char>,
    root: Seq<char>,
)
    requires
        path == file.path@,
        root.len() == 0,
    ensures
        #[trigger] are_errors_below(limits::depth_findings(actions, n, file, workflow), path, root),
    decreases n,
{
    broadcast use group_errors;

    lemma_below_nothing(root);

    if n > 0 {
        errors_in_depth(actions, (n - 1) as nat, file, workflow, path, root);
    }
}

broadcast proof fn errors_in_total_limit(
    definition_pointer: Seq<char>, file: &Document, workflow: &Workflow, path: Seq<char>,
    root: Seq<char>,
)
    requires
        path == file.path@,
        root.len() == 0,
    ensures
        #[trigger] are_errors_below(limits::total_limit_findings(
            definition_pointer, file, workflow,
        ), path, root),
{
    broadcast use {group_errors, errors_in_wrong_value, errors_in_depth};

    lemma_below_nothing(root);
}

broadcast proof fn errors_in_scoped_action(
    spec: ActionSpec, action: &Node, inputs: &Node, pointer: Seq<char>, container: Seq<char>,
    action_type: Seq<char>, file: &Document, workflow: &Workflow, path: Seq<char>, root: Seq<char>,
)
    requires
        path == file.path@,
        is_below(pointer, root),
    ensures
        #[trigger] are_errors_below(registry::scoped_action_findings(
            spec, action, inputs, pointer, container, action_type, file, workflow,
        ), path, root),
{
    broadcast use {
        group_errors, errors_in_api_connection_action_inputs,
        errors_in_api_connection_webhook_action_inputs, errors_in_api_management_action_inputs,
        errors_in_send_to_batch_action_inputs, errors_in_function_action_inputs,
        errors_in_http_action_inputs, errors_in_http_webhook_action_inputs,
        errors_in_join_action_inputs, errors_in_response_placement,
        errors_in_response_action_inputs, errors_in_variable_update_inputs,
        errors_in_variables_container, errors_in_initialized, errors_in_workflow_action_inputs,
    };
}

broadcast proof fn errors_in_typed_action(
    spec: ActionSpec, action: &Node, pointer: Seq<char>, container: Seq<char>,
    action_type: Seq<char>, file: &Document, workflow: &Workflow, path: Seq<char>, root: Seq<char>,
)
    requires
        path == file.path@,
        is_below(pointer, root),
    ensures
        #[trigger] are_errors_below(registry::typed_action_findings(
            spec, action, pointer, container, action_type, file, workflow,
        ), path, root),
{
    broadcast use {
        group_errors, errors_in_api_connection_action, errors_in_api_connection_webhook_action,
        errors_in_api_management_action, errors_in_batch_action, errors_in_send_to_batch_action,
        errors_in_compose_action, errors_in_expression_action, errors_in_flat_file_action,
        errors_in_function_action, errors_in_http_action, errors_in_http_webhook_action,
        errors_in_artifact_lookup_action, errors_in_javascript_action, errors_in_join_action,
        errors_in_liquid_action, errors_in_parse_json_action, errors_in_powershell_action,
        errors_in_query_action, errors_in_response_action, errors_in_foreach_action,
        errors_in_if_action, errors_in_scope_action, errors_in_switch_action,
        errors_in_until_action, errors_in_select_action, errors_in_table_action,
        errors_in_terminate_action, errors_in_variable_update, errors_in_initialize_variable,
        errors_in_wait_action, errors_in_workflow_action, errors_in_xml_validation_action,
        errors_in_xslt_action,
    };
}

broadcast proof fn errors_in_action(
    spec: ActionSpec, action: &Node, pointer: Seq<char>, container: Seq<char>,
    action_type: Seq<char>, file: &Document, workflow: &Workflow, scope: &ArmScope,
    path: Seq<char>, root: Seq<char>,
)
    requires
        path == file.path@,
        is_below(pointer, root),
    ensures
        #[trigger] are_errors_below(registry::action_findings(
            spec, action, pointer, container, action_type, file, workflow, scope,
        ), path, root),
{
    broadcast use {
        group_errors, errors_in_scoped_action, errors_in_wrong_type, errors_in_typed_action,
    };
}

broadcast proof fn errors_in_supplied_typed(
    action: &Node, pointer: Seq<char>, container: Seq<char>, file: &Document, workflow: &Workflow,
    source: ByteSpan, scope: &ArmScope, path: Seq<char>, root: Seq<char>,
)
    requires
        path == file.path@,
        is_below(pointer, root),
    ensures
        #[trigger] are_errors_below(supplied::supplied_typed_findings(
            action, pointer, container, file, workflow, source, scope,
        ), path, root),
{
    broadcast use {group_errors, errors_in_action, errors_in_common};
}

broadcast proof fn errors_in_status(
    items: Seq<Node>, n: nat, base: Seq<char>, source: Option<ByteSpan>, file: &Document,
    path: Seq<char>, root: Seq<char>,
)
    requires
        path == file.path@,
        is_below(base, root),
    ensures
        #[trigger] are_errors_below(run_after::status_findings(
            items, n, base, source, file,
        ), path, root),
    decreases n,
{
    broadcast use group_errors;

    if n > 0 {
        errors_in_status(items, (n - 1) as nat, base, source, file, path, root);
    }
}

broadcast proof fn errors_in_run_after_statuses(
    members: Seq<Member>, n: nat, base: Seq<char>, source: Option<ByteSpan>, file: &Document,
    scope: &ArmScope, path: Seq<char>, root: Seq<char>,
)
    requires
        path == file.path@,
        is_below(base, root),
    ensures
        #[trigger] are_errors_below(run_after::run_after_statuses_findings(
            members, n, base, source, file, scope,
        ), path, root),
    decreases n,
{
    broadcast use {group_errors, errors_in_status};

    if n > 0 {
        errors_in_run_after_statuses(members, (n - 1) as nat, base, source, file, scope, path, root);
    }
}

broadcast proof fn errors_in_supplied_run_after(
    action: &Node, action_pointer: Seq<char>, file: &Document, scope: &ArmScope, source: ByteSpan,
    path: Seq<char>, root: Seq<char>,
)
    requires
        path == file.path@,
        is_below(action_pointer, root),
    ensures
        #[trigger] are_errors_below(run_after::supplied_run_after_findings(
            action, action_pointer, file, scope, source,
        ), path, root),
{
    broadcast use {group_errors, errors_in_run_after_statuses};
}

broadcast proof fn errors_in_supplied_branch(
    action: &Node, key: Seq<char>, pointer: Seq<char>, kind: Option<Seq<char>>, file: &Document,
    workflow: &Workflow, source: ByteSpan, scope: &ArmScope, path: Seq<char>, root: Seq<char>,
)
    requires
        path == file.path@,
        is_below(pointer, root),
    ensures
        #[trigger] are_errors_below(supplied::supplied_branch_findings(
            action, key, pointer, kind, file, workflow, source, scope,
        ), path, root),
    decreases action, 0nat,
{
    broadcast use group_errors;

    lemma_field_smaller(action, key);
    if let Some(branch) = field(action, key) {
        errors_in_supplied_children(&branch, joined(pointer, key), true, kind, file, workflow, source, scope, path, root);
    }
}

broadcast proof fn errors_in_supplied_group(
    members: Vec<Member>, n: nat, base: Seq<char>, kind: Option<Seq<char>>, file: &Document,
    workflow: &Workflow, source: ByteSpan, scope: &ArmScope, path: Seq<char>, root: Seq<char>,
)
    requires
        path == file.path@,
        is_below(base, root),
    ensures
        #[trigger] are_errors_below(supplied::supplied_group_findings(
            members, n, base, kind, file, workflow, source, scope,
        ), path, root),
    decreases members, n,
{
    broadcast use group_errors;

    if 0 < n <= members@.len() {
        let pointer = joined(base, members[n - 1].name@);
        errors_in_supplied_group(members, (n - 1) as nat, base, kind, file, workflow, source, scope, path, root);
        errors_in_supplied_children(&members[n - 1].value, pointer, true, kind, file, workflow, source, scope, path, root);
    }
}

broadcast proof fn errors_in_supplied_groups(
    action: &Node, key: Seq<char>, pointer: Seq<char>, kind: Option<Seq<char>>, file: &Document,
    workflow: &Workflow, source: ByteSpan, scope: &ArmScope, path: Seq<char>, root: Seq<char>,
)
    requires
        path == file.path@,
        is_below(pointer, root),
    ensures
        #[trigger] are_errors_below(supplied::supplied_groups_findings(
            action, key, pointer, kind, file, workflow, source, scope,
        ), path, root),
    decreases action, 0nat,
{
    broadcast use group_errors;

    lemma_field_smaller(action, key);
    if let Some(group) = field(action, key) {
        if let Json::Object(members) = group.kind {
            errors_in_supplied_group(members, members@.len(), joined(pointer, key), kind, file, workflow, source, scope, path, root);
        }
    }
}

broadcast proof fn errors_in_supplied_children(
    holder: &Node, parent: Seq<char>, allowed: bool, kind: Option<Seq<char>>, file: &Document,
    workflow: &Workflow, source: ByteSpan, scope: &ArmScope, path: Seq<char>, root: Seq<char>,
)
    requires
        path == file.path@,
        is_below(parent, root),
    ensures
        #[trigger] are_errors_below(supplied::supplied_children_findings(
            holder, parent, allowed, kind, file, workflow, source, scope,
        ), path, root),
    decreases holder, 0nat,
{
    broadcast use group_errors;

    lemma_field_smaller(holder, "actions"@);
    if let Some(node) = field(holder, "actions"@) {
        if let Json::Object(members) = node.kind {
            errors_in_supplied_list(members, members@.len(), joined(parent, "actions"@), file, workflow, source, scope, path, root);
        }
    }
}

broadcast proof fn errors_in_supplied_nested(
    action: &Node, pointer: Seq<char>, untyped: bool, kind: Option<Seq<char>>, file: &Document,
    workflow: &Workflow, source: ByteSpan, scope: &ArmScope, path: Seq<char>, root: Seq<char>,
)
    requires
        path == file.path@,
        is_below(pointer, root),
    ensures
        #[trigger] are_errors_below(supplied::supplied_nested_findings(
            action, pointer, untyped, kind, file, workflow, source, scope,
        ), path, root),
    decreases action, 1nat,
{
    broadcast use group_errors;

    errors_in_supplied_children(action, pointer, may_have_actions(untyped, kind), kind, file, workflow, source, scope, path, root);
    errors_in_supplied_groups(action, "cases"@, pointer, kind, file, workflow, source, scope, path, root);
    errors_in_supplied_branch(action, "default"@, pointer, kind, file, workflow, source, scope, path, root);
    errors_in_supplied_branch(action, "else"@, pointer, kind, file, workflow, source, scope, path, root);
    errors_in_supplied_groups(action, "tools"@, pointer, kind, file, workflow, source, scope, path, root);
}

broadcast proof fn errors_in_supplied_action(
    action: &Node, pointer: Seq<char>, container: Seq<char>, file: &Document, workflow: &Workflow,
    source: ByteSpan, scope: &ArmScope, path: Seq<char>, root: Seq<char>,
)
    requires
        path == file.path@,
        is_below(pointer, root),
    ensures
        #[trigger] are_errors_below(supplied::supplied_action_findings(
            action, pointer, container, file, workflow, source, scope,
        ), path, root),
    decreases action, 2nat,
{
    broadcast use {group_errors, errors_in_supplied_typed, errors_in_supplied_run_after};

    if let Some(declared) = field(action, "type"@) {
        if let Some(kind) = supplied_text(file, &declared) {
            errors_in_supplied_nested(action, pointer, false, Some(kind), file, workflow, source, scope, path, root);
        }
        errors_in_supplied_nested(action, pointer, true, None, file, workflow, source, scope, path, root);
    }
}

broadcast proof fn errors_in_supplied_list(
    members: Vec<Member>, n: nat, pointer: Seq<char>, file: &Document, workflow: &Workflow,
    source: ByteSpan, scope: &ArmScope, path: Seq<char>, root: Seq<char>,
)
    requires
        path == file.path@,
        is_below(pointer, root),
    ensures
        #[trigger] are_errors_below(supplied::supplied_list_findings(
            members, n, pointer, file, workflow, source, scope,
        ), path, root),
    decreases members, n,
{
    broadcast use {group_errors, errors_in_name_length};

    if 0 < n <= members@.len() {
        let name = members[n - 1].name@;
        errors_in_supplied_list(members, (n - 1) as nat, pointer, file, workflow, source, scope, path, root);
        errors_in_supplied_action(&members[n - 1].value, joined(pointer, name), pointer, file, workflow, source, scope, path, root);
    }
}

broadcast proof fn errors_in_run_after(
    action: &Node, action_pointer: Seq<char>, file: &Document, scope: &ArmScope, path: Seq<char>,
    root: Seq<char>,
)
    requires
        path == file.path@,
        is_below(action_pointer, root),
    ensures
        #[trigger] are_errors_below(run_after::run_after_findings(
            action, action_pointer, file, scope,
        ), path, root),
{
    broadcast use {group_errors, errors_in_run_after_statuses, errors_in_wrong_type};
}

broadcast proof fn errors_in_branch(
    action: &Node, key: Seq<char>, pointer: Seq<char>, file: &Document, workflow: &Workflow,
    scope: &ArmScope, path: Seq<char>, root: Seq<char>,
)
    requires
        path == file.path@,
        is_below(pointer, root),
    ensures
        #[trigger] are_errors_below(operations::branch_findings(
            action, key, pointer, file, workflow, scope,
        ), path, root),
    decreases action, 0nat,
{
    broadcast use group_errors;

    lemma_field_smaller(action, key);
    if let Some(branch) = field(action, key) {
        lemma_field_smaller(&branch, "actions"@);
        if let Some(value) = field(&branch, "actions"@) {
            errors_in_operations_container(&value, joined(joined(pointer, key), "actions"@), file, workflow, scope, path, root);
        }
    }
}

broadcast proof fn errors_in_group(
    members: Vec<Member>, n: nat, base: Seq<char>, file: &Document, workflow: &Workflow,
    scope: &ArmScope, path: Seq<char>, root: Seq<char>,
)
    requires
        path == file.path@,
        is_below(base, root),
    ensures
        #[trigger] are_errors_below(operations::group_findings(
            members, n, base, file, workflow, scope,
        ), path, root),
    decreases members, n,
{
    broadcast use group_errors;

    if 0 < n <= members@.len() {
        errors_in_group(members, (n - 1) as nat, base, file, workflow, scope, path, root);
        lemma_field_smaller(&members[n - 1].value, "actions"@);
        if let Some(value) = field(&members[n - 1].value, "actions"@) {
            errors_in_operations_container(&value, joined(joined(base, members[n - 1].name@), "actions"@), file, workflow, scope, path, root);
        }
    }
}

broadcast proof fn errors_in_groups(
    action: &Node, key: Seq<char>, pointer: Seq<char>, file: &Document, workflow: &Workflow,
    scope: &ArmScope, path: Seq<char>, root: Seq<char>,
)
    requires
        path == file.path@,
        is_below(pointer, root),
    ensures
        #[trigger] are_errors_below(operations::groups_findings(
            action, key, pointer, file, workflow, scope,
        ), path, root),
    decreases action, 0nat,
{
    broadcast use group_errors;

    lemma_field_smaller(action, key);
    if let Some(group) = field(action, key) {
        if let Json::Object(members) = group.kind {
            errors_in_group(members, members@.len(), joined(pointer, key), file, workflow, scope, path, root);
        }
    }
}

broadcast proof fn errors_in_child(
    action: &Node, pointer: Seq<char>, allowed: bool, kind: Option<Seq<char>>, file: &Document,
    workflow: &Workflow, scope: &ArmScope, path: Seq<char>, root: Seq<char>,
)
    requires
        path == file.path@,
        is_below(pointer, root),
    ensures
        #[trigger] are_errors_below(operations::child_findings(
            action, pointer, allowed, kind, file, workflow, scope,
        ), path, root),
    decreases action, 0nat,
{
    broadcast use {group_errors, errors_in_wrong_context};

    lemma_field_smaller(action, "actions"@);
    if let Some(value) = field(action, "actions"@) {
        errors_in_operations_container(&value, joined(pointer, "actions"@), file, workflow, scope, path, root);
    }
}

broadcast proof fn errors_in_nested(
    action: &Node, pointer: Seq<char>, untyped: bool, kind: Option<Seq<char>>, file: &Document,
    workflow: &Workflow, scope: &ArmScope, path: Seq<char>, root: Seq<char>,
)
    requires
        path == file.path@,
        is_below(pointer, root),
    ensures
        #[trigger] are_errors_below(operations::nested_findings(
            action, pointer, untyped, kind, file, workflow, scope,
        ), path, root),
    decreases action, 1nat,
{
    broadcast use group_errors;

    errors_in_child(action, pointer, may_have_actions(untyped, kind), kind, file, workflow, scope, path, root);
    errors_in_groups(action, "cases"@, pointer, file, workflow, scope, path, root);
    errors_in_branch(action, "default"@, pointer, file, workflow, scope, path, root);
    errors_in_branch(action, "else"@, pointer, file, workflow, scope, path, root);
    errors_in_groups(action, "tools"@, pointer, file, workflow, scope, path, root);
}

broadcast proof fn errors_in_authored_action(
    action: &Node, pointer: Seq<char>, container: Seq<char>, file: &Document, workflow: &Workflow,
    scope: &ArmScope, path: Seq<char>, root: Seq<char>,
)
    requires
        path == file.path@,
        is_below(pointer, root),
    ensures
        #[trigger] are_errors_below(operations::authored_action_findings(
            action, pointer, container, file, workflow, scope,
        ), path, root),
    decreases action, 2nat,
{
    broadcast use {
        group_errors, errors_in_missing, errors_in_action, errors_in_common, errors_in_run_after,
        errors_in_untyped_common, errors_in_wrong_type,
    };

    if let Some(declared) = field(action, "type"@) {
        if let Some(kind) = static_text(file, &declared) {
            errors_in_nested(action, pointer, false, Some(kind), file, workflow, scope, path, root);
        }
        errors_in_nested(action, pointer, true, None, file, workflow, scope, path, root);
    }
}

broadcast proof fn errors_in_operations_entry(
    action: &Node, name: Seq<char>, container: Seq<char>, file: &Document, workflow: &Workflow,
    scope: &ArmScope, path: Seq<char>, root: Seq<char>,
)
    requires
        path == file.path@,
        is_below(container, root),
    ensures
        #[trigger] are_errors_below(operations::entry_findings(
            action, name, container, file, workflow, scope,
        ), path, root),
    decreases action, 3nat,
{
    broadcast use {group_errors, errors_in_name_length, errors_in_supplied_action};

    errors_in_authored_action(action, joined(container, name), container, file, workflow, scope, path, root);
}

broadcast proof fn errors_in_operations_entry_list(
    members: Vec<Member>, n: nat, pointer: Seq<char>, file: &Document, workflow: &Workflow,
    scope: &ArmScope, path: Seq<char>, root: Seq<char>,
)
    requires
        path == file.path@,
        is_below(pointer, root),
    ensures
        #[trigger] are_errors_below(operations::entry_list_findings(
            members, n, pointer, file, workflow, scope,
        ), path, root),
    decreases members, n,
{
    broadcast use group_errors;

    if 0 < n <= members@.len() {
        errors_in_operations_entry_list(members, (n - 1) as nat, pointer, file, workflow, scope, path, root);
        errors_in_operations_entry(&members[n - 1].value, members[n - 1].name@, pointer, file, workflow, scope, path, root);
    }
}

broadcast proof fn errors_in_operations_container(
    value: &Node, pointer: Seq<char>, file: &Document, workflow: &Workflow, scope: &ArmScope,
    path: Seq<char>, root: Seq<char>,
)
    requires
        path == file.path@,
        is_below(pointer, root),
    ensures
        #[trigger] are_errors_below(operations::container_findings(
            value, pointer, file, workflow, scope,
        ), path, root),
    decreases value, 0nat,
{
    broadcast use {group_errors, errors_in_supplied_list};

    if let Json::Object(members) = value.kind {
        errors_in_operations_entry_list(members, members@.len(), pointer, file, workflow, scope, path, root);
    }
}

broadcast proof fn errors_in_trigger_context(
    kind: Seq<char>, pointer: Seq<char>, file: &Document, workflow: &Workflow,
    span: Option<ByteSpan>, recurs: bool, path: Seq<char>, root: Seq<char>,
)
    requires
        path == file.path@,
        is_below(pointer, root),
    ensures
        #[trigger] are_errors_below(operations::trigger_context_findings(
            kind, pointer, file, workflow, span, recurs,
        ), path, root),
{
    broadcast use group_errors;
}

broadcast proof fn errors_in_trigger_inputs(
    trigger: &Node, inputs: Option<Node>, base: Seq<char>, file: &Document, path: Seq<char>,
    root: Seq<char>,
)
    requires
        path == file.path@,
        is_below(base, root),
    ensures
        #[trigger] are_errors_below(required_fields::trigger_inputs_findings(
            trigger, inputs, base, file,
        ), path, root),
{
    broadcast use {group_errors, errors_in_missing, errors_in_wrong_type};
}

broadcast proof fn errors_in_unsupported_schedule(
    trigger: &Node, recurrence: Option<Node>, trigger_pointer: Seq<char>, file: &Document,
    path: Seq<char>, root: Seq<char>,
)
    requires
        path == file.path@,
        is_below(trigger_pointer, root),
    ensures
        #[trigger] are_errors_below(trigger_http::unsupported_schedule_findings(
            trigger, recurrence, trigger_pointer, file,
        ), path, root),
{
    broadcast use {group_errors, errors_in_wrong_context};
}

broadcast proof fn errors_in_connector_method(
    trigger: &Node, inputs: &Node, inputs_pointer: Seq<char>, file: &Document, path: Seq<char>,
    root: Seq<char>,
)
    requires
        path == file.path@,
        is_below(inputs_pointer, root),
    ensures
        #[trigger] are_errors_below(trigger_http::connector_method_findings(
            trigger, inputs, inputs_pointer, file,
        ), path, root),
{
    broadcast use {group_errors, errors_in_missing, errors_in_caseless_enum, errors_in_field};
}

broadcast proof fn errors_in_api_connection_trigger(
    trigger: &Node, given: Option<Node>, recurrence: Option<Node>, trigger_pointer: Seq<char>,
    file: &Document, workflow: &Workflow, path: Seq<char>, root: Seq<char>,
)
    requires
        path == file.path@,
        is_below(trigger_pointer, root),
    ensures
        #[trigger] are_errors_below(trigger_http::api_connection_trigger_findings(
            trigger, given, recurrence, trigger_pointer, file, workflow,
        ), path, root),
{
    broadcast use {
        group_errors, errors_in_trigger_inputs, errors_in_object_field,
        errors_in_api_connection_host, errors_in_typed_field, errors_in_recurrence,
        errors_in_unsupported_schedule, errors_in_enum, errors_in_connector_method,
        errors_in_http_inputs,
    };
}

broadcast proof fn errors_in_api_management_trigger(
    trigger: &Node, given: Option<Node>, trigger_pointer: Seq<char>, file: &Document,
    path: Seq<char>, root: Seq<char>,
)
    requires
        path == file.path@,
        is_below(trigger_pointer, root),
    ensures
        #[trigger] are_errors_below(trigger_http::api_management_trigger_findings(
            trigger, given, trigger_pointer, file,
        ), path, root),
{
    broadcast use {group_errors, errors_in_trigger_inputs, errors_in_api_management};
}

broadcast proof fn errors_in_batch_trigger(
    trigger: &Node, given: Option<Node>, trigger_pointer: Seq<char>, file: &Document,
    workflow: &Workflow, path: Seq<char>, root: Seq<char>,
)
    requires
        path == file.path@,
        is_below(trigger_pointer, root),
    ensures
        #[trigger] are_errors_below(batch::batch_trigger_findings(
            trigger, given, trigger_pointer, file, workflow,
        ), path, root),
{
    broadcast use {
        group_errors, errors_in_trigger_inputs, errors_in_wrong_context, errors_in_batch_mode,
        errors_in_batch_inputs,
    };
}

broadcast proof fn errors_in_http_trigger(
    trigger: &Node, given: Option<Node>, recurrence: Option<Node>, trigger_pointer: Seq<char>,
    file: &Document, path: Seq<char>, root: Seq<char>,
)
    requires
        path == file.path@,
        is_below(trigger_pointer, root),
    ensures
        #[trigger] are_errors_below(trigger_http::http_trigger_findings(
            trigger, given, recurrence, trigger_pointer, file,
        ), path, root),
{
    broadcast use {
        group_errors, errors_in_recurrence, errors_in_trigger_inputs, errors_in_typed_field,
        errors_in_endpoint, errors_in_enum, errors_in_http_inputs,
    };
}

broadcast proof fn errors_in_http_webhook_trigger(
    trigger: &Node, given: Option<Node>, trigger_pointer: Seq<char>, file: &Document,
    workflow: &Workflow, path: Seq<char>, root: Seq<char>,
)
    requires
        path == file.path@,
        is_below(trigger_pointer, root),
    ensures
        #[trigger] are_errors_below(trigger_http::http_webhook_trigger_findings(
            trigger, given, trigger_pointer, file, workflow,
        ), path, root),
{
    broadcast use {group_errors, errors_in_trigger_inputs, errors_in_enum, errors_in_webhook};
}

broadcast proof fn errors_in_request_kind(
    trigger: &Node, trigger_pointer: Seq<char>, file: &Document, path: Seq<char>, root: Seq<char>,
)
    requires
        path == file.path@,
        is_below(trigger_pointer, root),
    ensures
        #[trigger] are_errors_below(request::request_kind_findings(
            trigger, trigger_pointer, file,
        ), path, root),
{
    broadcast use {group_errors, errors_in_wrong_value};
}

broadcast proof fn errors_in_request_host(
    inputs: &Node, inputs_pointer: Seq<char>, file: &Document, path: Seq<char>, root: Seq<char>,
)
    requires
        path == file.path@,
        is_below(inputs_pointer, root),
    ensures
        #[trigger] are_errors_below(request::request_host_findings(
            inputs, inputs_pointer, file,
        ), path, root),
{
    broadcast use {group_errors, errors_in_string, errors_in_uri, errors_in_wrong_type};
}

broadcast proof fn errors_in_request_trigger(
    trigger: &Node, given: Option<Node>, trigger_pointer: Seq<char>, file: &Document,
    path: Seq<char>, root: Seq<char>,
)
    requires
        path == file.path@,
        is_below(trigger_pointer, root),
    ensures
        #[trigger] are_errors_below(request::request_trigger_findings(
            trigger, given, trigger_pointer, file,
        ), path, root),
{
    broadcast use {
        group_errors, errors_in_request_kind, errors_in_enum, errors_in_object,
        errors_in_request_host, errors_in_string, errors_in_wrong_type,
    };
}

broadcast proof fn errors_in_duration(
    object: &Node, base: Seq<char>, key: Seq<char>, label: Seq<char>, file: &Document,
    path: Seq<char>, root: Seq<char>,
)
    requires
        path == file.path@,
        is_below(base, root),
    ensures
        #[trigger] are_errors_below(trigger_http::duration_findings(
            object, base, key, label, file,
        ), path, root),
{
    broadcast use {group_errors, errors_in_wrong_value};
}

broadcast proof fn errors_in_sliding_window_trigger(
    trigger: &Node, given: Option<Node>, recurrence: Option<Node>, trigger_pointer: Seq<char>,
    file: &Document, path: Seq<char>, root: Seq<char>,
)
    requires
        path == file.path@,
        is_below(trigger_pointer, root),
    ensures
        #[trigger] are_errors_below(trigger_http::sliding_window_trigger_findings(
            trigger, given, recurrence, trigger_pointer, file,
        ), path, root),
{
    broadcast use {
        group_errors, errors_in_recurrence, errors_in_string, errors_in_duration,
        errors_in_wrong_type,
    };
}

broadcast proof fn errors_in_typed_trigger(
    spec: TriggerSpec, trigger: &Node, given: Option<Node>, recurrence: Option<Node>,
    pointer: Seq<char>, file: &Document, workflow: &Workflow, path: Seq<char>, root: Seq<char>,
)
    requires
        path == file.path@,
        is_below(pointer, root),
    ensures
        #[trigger] are_errors_below(registry::typed_trigger_findings(
            spec, trigger, given, recurrence, pointer, file, workflow,
        ), path, root),
{
    broadcast use {
        group_errors, errors_in_api_connection_trigger, errors_in_api_management_trigger,
        errors_in_optional_recurrence, errors_in_batch_trigger, errors_in_http_trigger,
        errors_in_http_webhook_trigger, errors_in_recurrence, errors_in_request_trigger,
        errors_in_sliding_window_trigger,
    };
}

broadcast proof fn errors_in_split_on(
    trigger: &Node, trigger_pointer: Seq<char>, file: &Document, path: Seq<char>, root: Seq<char>,
)
    requires
        path == file.path@,
        is_below(trigger_pointer, root),
    ensures
        #[trigger] are_errors_below(trigger_common::split_on_findings(
            trigger, trigger_pointer, file,
        ), path, root),
{
    broadcast use {group_errors, errors_in_wrong_type, errors_in_wrong_context};
}

broadcast proof fn errors_in_condition(
    items: Seq<Node>, n: nat, base: Seq<char>, file: &Document, path: Seq<char>, root: Seq<char>,
)
    requires
        path == file.path@,
        is_below(base, root),
    ensures
        #[trigger] are_errors_below(trigger_common::condition_findings(
            items, n, base, file,
        ), path, root),
    decreases n,
{
    broadcast use {group_errors, errors_in_wrong_type};

    if n > 0 {
        errors_in_condition(items, (n - 1) as nat, base, file, path, root);
    }
}

broadcast proof fn errors_in_conditions(
    trigger: &Node, trigger_pointer: Seq<char>, file: &Document, path: Seq<char>, root: Seq<char>,
)
    requires
        path == file.path@,
        is_below(trigger_pointer, root),
    ensures
        #[trigger] are_errors_below(trigger_common::conditions_findings(
            trigger, trigger_pointer, file,
        ), path, root),
{
    broadcast use {group_errors, errors_in_condition, errors_in_wrong_type};
}

broadcast proof fn errors_in_correlation(
    object: &Node, base: Seq<char>, label: Seq<char>, file: &Document, path: Seq<char>,
    root: Seq<char>,
)
    requires
        path == file.path@,
        is_below(base, root),
    ensures
        #[trigger] are_errors_below(trigger_common::correlation_findings(
            object, base, label, file,
        ), path, root),
{
    broadcast use {group_errors, errors_in_string, errors_in_wrong_type};
}

broadcast proof fn errors_in_split_on_configuration(
    trigger: &Node, trigger_pointer: Seq<char>, file: &Document, path: Seq<char>, root: Seq<char>,
)
    requires
        path == file.path@,
        is_below(trigger_pointer, root),
    ensures
        #[trigger] are_errors_below(trigger_common::split_on_configuration_findings(
            trigger, trigger_pointer, file,
        ), path, root),
{
    broadcast use {group_errors, errors_in_correlation, errors_in_wrong_type};
}

broadcast proof fn errors_in_trigger_common(
    trigger: &Node, trigger_pointer: Seq<char>, file: &Document, path: Seq<char>, root: Seq<char>,
)
    requires
        path == file.path@,
        is_below(trigger_pointer, root),
    ensures
        #[trigger] are_errors_below(trigger_common::trigger_common_findings(
            trigger, trigger_pointer, file,
        ), path, root),
{
    broadcast use {
        group_errors, errors_in_split_on, errors_in_conditions, errors_in_correlation,
        errors_in_split_on_configuration,
    };
}

broadcast proof fn errors_in_supplied_typed_trigger(
    trigger: &Node, pointer: Seq<char>, file: &Document, workflow: &Workflow, source: ByteSpan,
    path: Seq<char>, root: Seq<char>,
)
    requires
        path == file.path@,
        is_below(pointer, root),
    ensures
        #[trigger] are_errors_below(operations::supplied_typed_trigger_findings(
            trigger, pointer, file, workflow, source,
        ), path, root),
{
    broadcast use {
        group_errors, errors_in_typed_trigger, errors_in_common, errors_in_trigger_common,
    };
}

broadcast proof fn errors_in_supplied_trigger(
    trigger: &Node, pointer: Seq<char>, file: &Document, workflow: &Workflow, source: ByteSpan,
    path: Seq<char>, root: Seq<char>,
)
    requires
        path == file.path@,
        is_below(pointer, root),
    ensures
        #[trigger] are_errors_below(operations::supplied_trigger_findings(
            trigger, pointer, file, workflow, source,
        ), path, root),
{
    broadcast use {group_errors, errors_in_trigger_context, errors_in_supplied_typed_trigger};
}

broadcast proof fn errors_in_supplied_trigger_list(
    members: Seq<Member>, n: nat, pointer: Seq<char>, file: &Document, workflow: &Workflow,
    source: ByteSpan, path: Seq<char>, root: Seq<char>,
)
    requires
        path == file.path@,
        is_below(pointer, root),
    ensures
        #[trigger] are_errors_below(operations::supplied_trigger_list_findings(
            members, n, pointer, file, workflow, source,
        ), path, root),
    decreases n,
{
    broadcast use {group_errors, errors_in_name_length, errors_in_supplied_trigger};

    if n > 0 {
        errors_in_supplied_trigger_list(members, (n - 1) as nat, pointer, file, workflow, source, path, root);
    }
}

broadcast proof fn errors_in_known_trigger(
    spec: TriggerSpec, trigger: &Node, pointer: Seq<char>, file: &Document, workflow: &Workflow,
    scope: &ArmScope, path: Seq<char>, root: Seq<char>,
)
    requires
        path == file.path@,
        is_below(pointer, root),
    ensures
        #[trigger] are_errors_below(operations::known_trigger_findings(
            spec, trigger, pointer, file, workflow, scope,
        ), path, root),
{
    broadcast use {group_errors, errors_in_typed_trigger, errors_in_common};
}

broadcast proof fn errors_in_authored_trigger(
    trigger: &Node, pointer: Seq<char>, file: &Document, workflow: &Workflow, scope: &ArmScope,
    path: Seq<char>, root: Seq<char>,
)
    requires
        path == file.path@,
        is_below(pointer, root),
    ensures
        #[trigger] are_errors_below(operations::authored_trigger_findings(
            trigger, pointer, file, workflow, scope,
        ), path, root),
{
    broadcast use {
        group_errors, errors_in_missing, errors_in_trigger_context, errors_in_known_trigger,
        errors_in_trigger_common, errors_in_untyped_common, errors_in_wrong_type,
    };
}

broadcast proof fn errors_in_trigger_list(
    members: Seq<Member>, n: nat, pointer: Seq<char>, file: &Document, workflow: &Workflow,
    scope: &ArmScope, path: Seq<char>, root: Seq<char>,
)
    requires
        path == file.path@,
        is_below(pointer, root),
    ensures
        #[trigger] are_errors_below(operations::trigger_list_findings(
            members, n, pointer, file, workflow, scope,
        ), path, root),
    decreases n,
{
    broadcast use {
        group_errors, errors_in_name_length, errors_in_supplied_trigger,
        errors_in_authored_trigger,
    };

    if n > 0 {
        errors_in_trigger_list(members, (n - 1) as nat, pointer, file, workflow, scope, path, root);
    }
}

broadcast proof fn errors_in_triggers(
    value: &Node, pointer: Seq<char>, file: &Document, workflow: &Workflow, scope: &ArmScope,
    path: Seq<char>, root: Seq<char>,
)
    requires
        path == file.path@,
        is_below(pointer, root),
    ensures
        #[trigger] are_errors_below(operations::triggers_findings(
            value, pointer, file, workflow, scope,
        ), path, root),
{
    broadcast use {group_errors, errors_in_supplied_trigger_list, errors_in_trigger_list};
}

broadcast proof fn errors_in_workflow_kind(
    definition_pointer: Seq<char>, file: &Document, workflow: &Workflow, path: Seq<char>,
    root: Seq<char>,
)
    requires
        path == file.path@,
        is_below(root::kind_pointer(definition_pointer), root),
    ensures
        #[trigger] are_errors_below(root::workflow_kind_findings(
            definition_pointer, file, workflow,
        ), path, root),
{
    broadcast use group_errors;
}

broadcast proof fn errors_in_section(
    value: &Node, pointer: Seq<char>, label: Seq<char>, file: &Document, path: Seq<char>,
    root: Seq<char>,
)
    requires
        path == file.path@,
        is_below(pointer, root),
    ensures
        #[trigger] are_errors_below(root::section_findings(
            value, pointer, label, file,
        ), path, root),
{
    broadcast use group_errors;
}

broadcast proof fn errors_in_metadata(
    key: Seq<char>, value: &Node, definition_pointer: Seq<char>, file: &Document, path: Seq<char>,
    root: Seq<char>,
)
    requires
        path == file.path@,
        is_below(definition_pointer, root),
    ensures
        #[trigger] are_errors_below(root::metadata_findings(
            key, value, definition_pointer, file,
        ), path, root),
{
    broadcast use {group_errors, errors_in_wrong_value, errors_in_wrong_type};
}

broadcast proof fn errors_in_authored_metadata(
    key: Seq<char>, definition: &Node, definition_pointer: Seq<char>, file: &Document,
    path: Seq<char>, root: Seq<char>,
)
    requires
        path == file.path@,
        is_below(definition_pointer, root),
    ensures
        #[trigger] are_errors_below(root::authored_metadata_findings(
            key, definition, definition_pointer, file,
        ), path, root),
{
    broadcast use {group_errors, errors_in_metadata};
}

broadcast proof fn errors_in_missing_metadata(
    key: Seq<char>, definition: &Node, definition_pointer: Seq<char>, file: &Document,
    path: Seq<char>, root: Seq<char>,
)
    requires
        path == file.path@,
        is_below(definition_pointer, root),
    ensures
        #[trigger] are_errors_below(root::missing_metadata_findings(
            key, definition, definition_pointer, file,
        ), path, root),
{
    broadcast use {group_errors, errors_in_missing};
}

broadcast proof fn errors_in_description(
    definition: &Node, definition_pointer: Seq<char>, file: &Document, path: Seq<char>,
    root: Seq<char>,
)
    requires
        path == file.path@,
        is_below(definition_pointer, root),
    ensures
        #[trigger] are_errors_below(root::description_findings(
            definition, definition_pointer, file,
        ), path, root),
{
    broadcast use {group_errors, errors_in_wrong_value, errors_in_wrong_type};
}

broadcast proof fn errors_in_presence(
    definition: &Node, definition_pointer: Seq<char>, file: &Document, path: Seq<char>,
    root: Seq<char>,
)
    requires
        path == file.path@,
        is_below(definition_pointer, root),
    ensures
        #[trigger] are_errors_below(root::presence_findings(
            definition, definition_pointer, file,
        ), path, root),
{
    broadcast use {group_errors, errors_in_missing};
}

broadcast proof fn errors_in_actions_section(
    definition: &Node, definition_pointer: Seq<char>, file: &Document, workflow: &Workflow,
    path: Seq<char>, root: Seq<char>,
)
    requires
        path == file.path@,
        is_below(definition_pointer, root),
    ensures
        #[trigger] are_errors_below(root::actions_section_findings(
            definition, definition_pointer, file, workflow,
        ), path, root),
{
    broadcast use {group_errors, errors_in_section, errors_in_object_count};
}

broadcast proof fn errors_in_triggers_section(
    definition: &Node, definition_pointer: Seq<char>, file: &Document, workflow: &Workflow,
    path: Seq<char>, root: Seq<char>,
)
    requires
        path == file.path@,
        is_below(definition_pointer, root),
    ensures
        #[trigger] are_errors_below(root::triggers_section_findings(
            definition, definition_pointer, file, workflow,
        ), path, root),
{
    broadcast use {
        group_errors, errors_in_section, errors_in_object_count, errors_in_trigger_count,
    };
}

broadcast proof fn errors_in_parameters_section(
    definition: &Node, definition_pointer: Seq<char>, file: &Document,
    known_parameters: Seq<Seq<char>>, required: bool, path: Seq<char>, root: Seq<char>,
)
    requires
        path == file.path@,
        is_below(definition_pointer, root),
    ensures
        #[trigger] are_errors_below(root::parameters_section_findings(
            definition, definition_pointer, file, known_parameters, required,
        ), path, root),
{
    broadcast use {group_errors, errors_in_section, errors_in_parameters, errors_in_object_count};
}

broadcast proof fn errors_in_outputs_section(
    definition: &Node, definition_pointer: Seq<char>, file: &Document, path: Seq<char>,
    root: Seq<char>,
)
    requires
        path == file.path@,
        is_below(definition_pointer, root),
    ensures
        #[trigger] are_errors_below(root::outputs_section_findings(
            definition, definition_pointer, file,
        ), path, root),
{
    broadcast use {group_errors, errors_in_section, errors_in_outputs, errors_in_object_count};
}

broadcast proof fn errors_in_operations(
    definition: &Node, definition_pointer: Seq<char>, file: &Document, workflow: &Workflow,
    scope: &ArmScope, path: Seq<char>, root: Seq<char>,
)
    requires
        path == file.path@,
        is_below(definition_pointer, root),
    ensures
        #[trigger] are_errors_below(root::operations_findings(
            definition, definition_pointer, file, workflow, scope,
        ), path, root),
{
    broadcast use {group_errors, errors_in_operations_container, errors_in_triggers};
}

broadcast proof fn errors_in_http_outputs(
    outputs: &Node, outputs_pointer: Seq<char>, file: &Document, path: Seq<char>, root: Seq<char>,
)
    requires
        path == file.path@,
        is_below(outputs_pointer, root),
    ensures
        #[trigger] are_errors_below(static_results::http_outputs_findings(
            outputs, outputs_pointer, file,
        ), path, root),
{
    broadcast use {group_errors, errors_in_wrong_type, errors_in_missing};
}

broadcast proof fn errors_in_error_entry(
    items: Seq<Node>, n: nat, base: Seq<char>, file: &Document, path: Seq<char>, root: Seq<char>,
)
    requires
        path == file.path@,
        is_below(base, root),
    ensures
        #[trigger] are_errors_below(static_results::error_entry_findings(
            items, n, base, file,
        ), path, root),
    decreases n,
{
    broadcast use {group_errors, errors_in_missing, errors_in_string, errors_in_wrong_type};

    if n > 0 {
        errors_in_error_entry(items, (n - 1) as nat, base, file, path, root);
    }
}

broadcast proof fn errors_in_failed_outputs(
    outputs: &Node, outputs_pointer: Seq<char>, file: &Document, path: Seq<char>, root: Seq<char>,
)
    requires
        path == file.path@,
        is_below(outputs_pointer, root),
    ensures
        #[trigger] are_errors_below(static_results::failed_outputs_findings(
            outputs, outputs_pointer, file,
        ), path, root),
{
    broadcast use {
        group_errors, errors_in_wrong_value, errors_in_error_entry, errors_in_wrong_type,
        errors_in_missing,
    };
}

broadcast proof fn errors_in_entry_outputs(
    entry: &Node, entry_pointer: Seq<char>, name: Seq<char>, file: &Document, workflow: &Workflow,
    path: Seq<char>, root: Seq<char>,
)
    requires
        path == file.path@,
        is_below(entry_pointer, root),
    ensures
        #[trigger] are_errors_below(static_results::entry_outputs_findings(
            entry, entry_pointer, name, file, workflow,
        ), path, root),
{
    broadcast use {
        group_errors, errors_in_missing, errors_in_object, errors_in_http_outputs,
        errors_in_failed_outputs,
    };
}

broadcast proof fn errors_in_static_results_entry(
    entry: &Node, entry_pointer: Seq<char>, name: Seq<char>, file: &Document, workflow: &Workflow,
    path: Seq<char>, root: Seq<char>,
)
    requires
        path == file.path@,
        is_below(entry_pointer, root),
    ensures
        #[trigger] are_errors_below(static_results::entry_findings(
            entry, entry_pointer, name, file, workflow,
        ), path, root),
{
    broadcast use {
        group_errors, errors_in_missing, errors_in_enum, errors_in_entry_outputs, errors_in_object,
    };
}

pub broadcast proof fn errors_in_static_results_entry_list(
    members: Seq<Member>, n: nat, base: Seq<char>, file: &Document, workflow: &Workflow,
    path: Seq<char>, root: Seq<char>,
)
    requires
        path == file.path@,
        is_below(base, root),
    ensures
        #[trigger] are_errors_below(static_results::entry_list_findings(
            members, n, base, file, workflow,
        ), path, root),
    decreases n,
{
    broadcast use {group_errors, errors_in_static_results_entry, errors_in_wrong_type};

    if n > 0 {
        errors_in_static_results_entry_list(members, (n - 1) as nat, base, file, workflow, path, root);
    }
}

broadcast proof fn errors_in_static_results(
    definition: &Node, definition_pointer: Seq<char>, file: &Document, workflow: &Workflow,
    path: Seq<char>, root: Seq<char>,
)
    requires
        path == file.path@,
        is_below(definition_pointer, root),
    ensures
        #[trigger] are_errors_below(static_results::static_results_findings(
            definition, definition_pointer, file, workflow,
        ), path, root),
{
    broadcast use {group_errors, errors_in_static_results_entry_list, errors_in_wrong_type};
}

broadcast proof fn errors_in_written_definition(
    definition: &Node, definition_pointer: Seq<char>, file: &Document, workflow: &Workflow,
    scope: &ArmScope, known_parameters: Seq<Seq<char>>, required: bool, path: Seq<char>,
    root: Seq<char>,
)
    requires
        path == file.path@,
        root.len() == 0,
    ensures
        #[trigger] are_errors_below(root::written_definition_findings(
            definition, definition_pointer, file, workflow, scope, known_parameters, required,
        ), path, root),
{
    broadcast use {
        group_errors, errors_in_workflow_kind, errors_in_presence, errors_in_authored_metadata,
        errors_in_description, errors_in_actions_section, errors_in_total_limit,
        errors_in_triggers_section, errors_in_parameters_section, errors_in_outputs_section,
        errors_in_static_results, errors_in_operations, errors_in_missing_metadata,
    };

    lemma_below_nothing(root);
}

broadcast proof fn errors_in_shape(
    file: &Document, definition: &Node, definition_pointer: Seq<char>, workflow: &Workflow,
    resolved_workflows: Seq<Workflow>, scope: &ArmScope, known_parameters: Seq<Seq<char>>,
    required: bool, path: Seq<char>, root: Seq<char>,
)
    requires
        path == file.path@,
        root.len() == 0,
    ensures
        #[trigger] are_errors_below(root::shape_findings(
            file, definition, definition_pointer, workflow, resolved_workflows, scope,
            known_parameters, required,
        ), path, root),
    decreases resolved_workflows.len(),
{
    broadcast use {group_errors, errors_in_written_definition};

    lemma_below_nothing(root);

    if is_opaque(file, definition) && resolved_workflows.len() > 0 {
        if let Some(value) = resolved_definition(file, definition) {
            errors_in_shape(
                file,
                &value,
                definition_pointer,
                &resolved_workflows[0],
                resolved_workflows.skip(1),
                scope,
                known_parameters,
                required,
                path,
                root,
            );
        }
    }
}

/// Every shape finding is an error about the file that was checked, with a
/// code of the shape rules: the rules know nothing of leniency.
pub proof fn law_shape_findings_are_errors(
    file: &Document,
    definition: &Node,
    definition_pointer: Seq<char>,
    workflow: &Workflow,
    resolved_workflows: Seq<Workflow>,
    scope: &ArmScope,
    known_parameters: Seq<Seq<char>>,
    required: bool,
)
    ensures
        all_errors(
            root::shape_findings(
                file,
                definition,
                definition_pointer,
                workflow,
                resolved_workflows,
                scope,
                known_parameters,
                required,
            ),
            file.path@,
        ),
{
    errors_in_shape(
        file,
        definition,
        definition_pointer,
        workflow,
        resolved_workflows,
        scope,
        known_parameters,
        required,
        file.path@,
        Seq::empty(),
    );
    reveal(are_errors_below);
}

/// What is wrong with the actions of a container is reported at the container
/// or below it, and so is what is wrong with triggers.
pub proof fn law_operation_findings_stay_below_their_container(
    value: &Node,
    pointer: Seq<char>,
    file: &Document,
    workflow: &Workflow,
    scope: &ArmScope,
)
    ensures
        all_below(operations::container_findings(value, pointer, file, workflow, scope), pointer),
        all_below(operations::triggers_findings(value, pointer, file, workflow, scope), pointer),
{
    lemma_below_itself(pointer);
    errors_in_operations_container(value, pointer, file, workflow, scope, file.path@, pointer);
    errors_in_triggers(value, pointer, file, workflow, scope, file.path@, pointer);
    reveal(are_errors_below);
}

} // verus!
