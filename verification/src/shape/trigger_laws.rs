//! What triggers, and the order of actions, are judged by.

use vstd::prelude::*;

use crate::arm::ArmScope;

use crate::json::{field, joined, text_field, text_of, Document, Json, Member, Node, Number};
use crate::shape::actions::connectors::access_key_type_names;
use crate::shape::actions::integration::{batch_mode_names, criteria_findings};
use crate::shape::common::{common_findings, common_kind_names};
use crate::shape::credential_laws::has_no_null;
use crate::shape::data_laws::is_text;
use crate::shape::http::{bounds_of, http_inputs_findings, request_method_names};
use crate::shape::limits::run_after_status_names;
use crate::shape::operations::{
    authored_action_findings, authored_trigger_findings, nested_findings, trigger_context_findings,
};
use crate::shape::plain_laws::{
    holds_only, is_plain, keeps_state, lemma_action_parts, lemma_plain,
};
use crate::shape::recurrence_laws::{is_unmarked, lemma_unmarked_is_literal};
use crate::shape::registry::{
    trigger_spec_of, typed_action_findings, typed_trigger_findings, ActionSpec, TriggerSpec,
};
use crate::shape::run_after::{run_after_statuses_findings, status_findings};
use crate::shape::triggers::common::trigger_common_findings;
use crate::shape::triggers::request::request_kind_names;
use crate::shape::type_laws::{lemma_action_types, lemma_trigger_types};
use crate::text::{one_of, one_of_ignoring_case, same_ignoring_case};
use crate::workflow::Workflow;

verus! {

/// A trigger cannot stand in a workflow that keeps no state: one that fires by
/// time, or that polls.
pub open spec fn fires_by_time(trigger: &Node, kind: Seq<char>) -> bool {
    ||| same_ignoring_case(kind, "Recurrence"@)
    ||| same_ignoring_case(kind, "SlidingWindow"@)
    ||| field(trigger, "recurrence"@) is Some && (same_ignoring_case(kind, "ApiConnection"@)
        || same_ignoring_case(kind, "ApiManagement"@) || same_ignoring_case(kind, "Http"@))
}

/// A trigger is clean exactly where it may stand in the workflow and its own
/// fields, those that nodes share and those that triggers share are.
pub proof fn law_triggers_are_judged_by_their_parts(
    trigger: &Node,
    pointer: Seq<char>,
    file: &Document,
    workflow: &Workflow,
    scope: &ArmScope,
    kind: Seq<char>,
    spec: TriggerSpec,
)
    requires
        is_plain(file, scope),
        text_field(trigger, "type"@) == Some(kind),
        trigger_spec_of(kind) == Some(spec),
        field(trigger, "recurrence"@) is Some ==> !((field(
            trigger,
            "recurrence"@,
        )->Some_0).kind is Null),
    ensures
        (authored_trigger_findings(trigger, pointer, file, workflow, scope).len() == 0) == {
            &&& keeps_state(workflow) || !fires_by_time(trigger, kind)
            &&& typed_trigger_findings(
                spec,
                trigger,
                field(trigger, "inputs"@),
                field(trigger, "recurrence"@),
                pointer,
                file,
                workflow,
            ).len() == 0
            &&& common_findings(trigger, pointer, "trigger"@, file, workflow, scope).len() == 0
            &&& trigger_common_findings(trigger, pointer, file).len() == 0
        },
{
    lemma_plain(file, scope);
    let declared = field(trigger, "type"@)->Some_0;
    let context = trigger_context_findings(
        kind,
        pointer,
        file,
        workflow,
        Some(declared.span),
        field(trigger, "recurrence"@) is Some,
    );
    assert((context.len() == 0) == (keeps_state(workflow) || !fires_by_time(trigger, kind)));
}

proof fn lemma_request_keeps_no_state(kind: Seq<char>)
    requires
        same_ignoring_case(kind, "Request"@),
    ensures
        !same_ignoring_case(kind, "Recurrence"@),
        !same_ignoring_case(kind, "SlidingWindow"@),
        !same_ignoring_case(kind, "ApiConnection"@),
        !same_ignoring_case(kind, "ApiManagement"@),
        !same_ignoring_case(kind, "Http"@),
{
    reveal_strlit("Request");
    reveal_strlit("Recurrence");
    reveal_strlit("SlidingWindow");
    reveal_strlit("ApiConnection");
    reveal_strlit("ApiManagement");
    reveal_strlit("Http");
    assert("Recurrence"@.len() == 10 && "Request"@.len() == 7);
    assert("SlidingWindow"@.len() == 13 && "Request"@.len() == 7);
    assert("ApiConnection"@.len() == 13 && "Request"@.len() == 7);
    assert("ApiManagement"@.len() == 13 && "Request"@.len() == 7);
    assert("Http"@.len() == 4 && "Request"@.len() == 7);
}

proof fn lemma_batch_keeps_no_state(kind: Seq<char>)
    requires
        same_ignoring_case(kind, "Batch"@),
    ensures
        !same_ignoring_case(kind, "Recurrence"@),
        !same_ignoring_case(kind, "SlidingWindow"@),
        !same_ignoring_case(kind, "ApiConnection"@),
        !same_ignoring_case(kind, "ApiManagement"@),
        !same_ignoring_case(kind, "Http"@),
{
    reveal_strlit("Batch");
    reveal_strlit("Recurrence");
    reveal_strlit("SlidingWindow");
    reveal_strlit("ApiConnection");
    reveal_strlit("ApiManagement");
    reveal_strlit("Http");
    assert("Recurrence"@.len() == 10 && "Batch"@.len() == 5);
    assert("SlidingWindow"@.len() == 13 && "Batch"@.len() == 5);
    assert("ApiConnection"@.len() == 13 && "Batch"@.len() == 5);
    assert("ApiManagement"@.len() == 13 && "Batch"@.len() == 5);
    assert("Http"@.len() == 4 && "Batch"@.len() == 5);
}

proof fn lemma_apiconnectionwebhook_keeps_no_state(kind: Seq<char>)
    requires
        same_ignoring_case(kind, "ApiConnectionWebhook"@),
    ensures
        !same_ignoring_case(kind, "Recurrence"@),
        !same_ignoring_case(kind, "SlidingWindow"@),
        !same_ignoring_case(kind, "ApiConnection"@),
        !same_ignoring_case(kind, "ApiManagement"@),
        !same_ignoring_case(kind, "Http"@),
{
    reveal_strlit("ApiConnectionWebhook");
    reveal_strlit("Recurrence");
    reveal_strlit("SlidingWindow");
    reveal_strlit("ApiConnection");
    reveal_strlit("ApiManagement");
    reveal_strlit("Http");
    assert("Recurrence"@.len() == 10 && "ApiConnectionWebhook"@.len() == 20);
    assert("SlidingWindow"@.len() == 13 && "ApiConnectionWebhook"@.len() == 20);
    assert("ApiConnection"@.len() == 13 && "ApiConnectionWebhook"@.len() == 20);
    assert("ApiManagement"@.len() == 13 && "ApiConnectionWebhook"@.len() == 20);
    assert("Http"@.len() == 4 && "ApiConnectionWebhook"@.len() == 20);
}

proof fn lemma_httpwebhook_keeps_no_state(kind: Seq<char>)
    requires
        same_ignoring_case(kind, "HttpWebhook"@),
    ensures
        !same_ignoring_case(kind, "Recurrence"@),
        !same_ignoring_case(kind, "SlidingWindow"@),
        !same_ignoring_case(kind, "ApiConnection"@),
        !same_ignoring_case(kind, "ApiManagement"@),
        !same_ignoring_case(kind, "Http"@),
{
    reveal_strlit("HttpWebhook");
    reveal_strlit("Recurrence");
    reveal_strlit("SlidingWindow");
    reveal_strlit("ApiConnection");
    reveal_strlit("ApiManagement");
    reveal_strlit("Http");
    assert("Recurrence"@.len() == 10 && "HttpWebhook"@.len() == 11);
    assert("SlidingWindow"@.len() == 13 && "HttpWebhook"@.len() == 11);
    assert("ApiConnection"@.len() == 13 && "HttpWebhook"@.len() == 11);
    assert("ApiManagement"@.len() == 13 && "HttpWebhook"@.len() == 11);
    assert("Http"@.len() == 4 && "HttpWebhook"@.len() == 11);
}

proof fn lemma_common_kind_names(name: Seq<char>)
    ensures
        one_of(name, common_kind_names()) == (name == "AddToTime"@ || name == "Alert"@ || name == "ApiConnection"@ || name == "AzureMonitorAlert"@ || name == "Button"@ || name == "ConvertTimeZone"@ || name == "CurrentTime"@ || name == "EventGrid"@ || name == "Geofence"@ || name == "GetFutureTime"@ || name == "GetPastTime"@ || name == "Http"@ || name == "JsonToJson"@ || name == "JsonToText"@ || name == "PowerApp"@ || name == "SecurityCenterAlert"@ || name == "SubtractFromTime"@ || name == "XmlToJson"@ || name == "XmlToText"@),
{
    let list = common_kind_names();
    if one_of(name, list) {
        let k = choose|k: int| 0 <= k < list.len() && list[k] == name;
        assert(list[k] == name);
    }
    assert(list[0] == "AddToTime"@);
    assert(list[1] == "Alert"@);
    assert(list[2] == "ApiConnection"@);
    assert(list[3] == "AzureMonitorAlert"@);
    assert(list[4] == "Button"@);
    assert(list[5] == "ConvertTimeZone"@);
    assert(list[6] == "CurrentTime"@);
    assert(list[7] == "EventGrid"@);
    assert(list[8] == "Geofence"@);
    assert(list[9] == "GetFutureTime"@);
    assert(list[10] == "GetPastTime"@);
    assert(list[11] == "Http"@);
    assert(list[12] == "JsonToJson"@);
    assert(list[13] == "JsonToText"@);
    assert(list[14] == "PowerApp"@);
    assert(list[15] == "SecurityCenterAlert"@);
    assert(list[16] == "SubtractFromTime"@);
    assert(list[17] == "XmlToJson"@);
    assert(list[18] == "XmlToText"@);
}

proof fn lemma_request_kind_names(name: Seq<char>)
    ensures
        one_of(name, request_kind_names()) == (name == "Alert"@ || name == "AzureMonitorAlert"@ || name == "Button"@ || name == "EventGrid"@ || name == "Geofence"@ || name == "Http"@ || name == "PowerApp"@ || name == "SecurityCenterAlert"@),
{
    let list = request_kind_names();
    if one_of(name, list) {
        let k = choose|k: int| 0 <= k < list.len() && list[k] == name;
        assert(list[k] == name);
    }
    assert(list[0] == "Alert"@);
    assert(list[1] == "AzureMonitorAlert"@);
    assert(list[2] == "Button"@);
    assert(list[3] == "EventGrid"@);
    assert(list[4] == "Geofence"@);
    assert(list[5] == "Http"@);
    assert(list[6] == "PowerApp"@);
    assert(list[7] == "SecurityCenterAlert"@);
}

proof fn lemma_request_method_names(name: Seq<char>)
    ensures
        one_of(name, request_method_names()) == (name == "DELETE"@ || name == "GET"@ || name == "HEAD"@ || name == "OPTIONS"@ || name == "PATCH"@ || name == "POST"@ || name == "PUT"@ || name == "TRACE"@),
{
    let list = request_method_names();
    if one_of(name, list) {
        let k = choose|k: int| 0 <= k < list.len() && list[k] == name;
        assert(list[k] == name);
    }
    assert(list[0] == "DELETE"@);
    assert(list[1] == "GET"@);
    assert(list[2] == "HEAD"@);
    assert(list[3] == "OPTIONS"@);
    assert(list[4] == "PATCH"@);
    assert(list[5] == "POST"@);
    assert(list[6] == "PUT"@);
    assert(list[7] == "TRACE"@);
}

proof fn lemma_methods_in_any_case(name: Seq<char>)
    ensures
        one_of_ignoring_case(name, request_method_names()) == (same_ignoring_case(name, "DELETE"@) || same_ignoring_case(name, "GET"@) || same_ignoring_case(name, "HEAD"@) || same_ignoring_case(name, "OPTIONS"@) || same_ignoring_case(name, "PATCH"@) || same_ignoring_case(name, "POST"@) || same_ignoring_case(name, "PUT"@) || same_ignoring_case(name, "TRACE"@)),
{
    let list = request_method_names();
    assert(list[0] == "DELETE"@);
    assert(list[1] == "GET"@);
    assert(list[2] == "HEAD"@);
    assert(list[3] == "OPTIONS"@);
    assert(list[4] == "PATCH"@);
    assert(list[5] == "POST"@);
    assert(list[6] == "PUT"@);
    assert(list[7] == "TRACE"@);
    if one_of_ignoring_case(name, list) {
        let k = choose|k: int| 0 <= k < list.len() && same_ignoring_case(name, #[trigger] list[k]);
        assert(same_ignoring_case(name, list[k]));
    }
}

/// Inputs with this member have nothing else.
proof fn lemma_method_alone(node: &Node)
    requires
        holds_only(node, seq!["method"@]),
    ensures
        field(node, "host"@) is None,
        field(node, "operationId"@) is None,
        field(node, "parameters"@) is None,
        field(node, "relativePath"@) is None,
{
    reveal_strlit("method");
    reveal_strlit("host");
    reveal_strlit("operationId");
    reveal_strlit("parameters");
    reveal_strlit("relativePath");
    assert("method"@.len() == 6 && "method"@[0] == 'm');
    assert("host"@.len() == 4 && "host"@[0] == 'h');
    assert("operationId"@.len() == 11 && "operationId"@[0] == 'o');
    assert("parameters"@.len() == 10 && "parameters"@[0] == 'p');
    assert("relativePath"@.len() == 12 && "relativePath"@[0] == 'r');
    let keys = seq!["method"@];
    if field(node, "host"@) is Some {
        assert(keys.contains("host"@));
        let i = choose|i: int| 0 <= i < keys.len() && keys[i] == "host"@;
        assert(keys[i] == "host"@);
    }
    if field(node, "operationId"@) is Some {
        assert(keys.contains("operationId"@));
        let i = choose|i: int| 0 <= i < keys.len() && keys[i] == "operationId"@;
        assert(keys[i] == "operationId"@);
    }
    if field(node, "parameters"@) is Some {
        assert(keys.contains("parameters"@));
        let i = choose|i: int| 0 <= i < keys.len() && keys[i] == "parameters"@;
        assert(keys[i] == "parameters"@);
    }
    if field(node, "relativePath"@) is Some {
        assert(keys.contains("relativePath"@));
        let i = choose|i: int| 0 <= i < keys.len() && keys[i] == "relativePath"@;
        assert(keys[i] == "relativePath"@);
    }
}

/// A trigger with these members has nothing else.
proof fn lemma_keys_of_requests_are_of_a_kind(node: &Node)
    requires
        holds_only(node, seq!["type"@, "kind"@, "inputs"@]),
    ensures
        field(node, "description"@) is None,
        field(node, "operationOptions"@) is None,
        field(node, "runtimeConfiguration"@) is None,
        field(node, "limit"@) is None,
        field(node, "trackedProperties"@) is None,
        field(node, "splitOn"@) is None,
        field(node, "conditions"@) is None,
        field(node, "correlation"@) is None,
        field(node, "splitOnConfiguration"@) is None,
        field(node, "recurrence"@) is None,
{
    reveal_strlit("type");
    reveal_strlit("kind");
    reveal_strlit("inputs");
    reveal_strlit("description");
    reveal_strlit("operationOptions");
    reveal_strlit("runtimeConfiguration");
    reveal_strlit("limit");
    reveal_strlit("trackedProperties");
    reveal_strlit("splitOn");
    reveal_strlit("conditions");
    reveal_strlit("correlation");
    reveal_strlit("splitOnConfiguration");
    reveal_strlit("recurrence");
    assert("type"@.len() == 4 && "type"@[0] == 't');
    assert("kind"@.len() == 4 && "kind"@[0] == 'k');
    assert("inputs"@.len() == 6 && "inputs"@[0] == 'i');
    assert("description"@.len() == 11 && "description"@[0] == 'd');
    assert("operationOptions"@.len() == 16 && "operationOptions"@[0] == 'o');
    assert("runtimeConfiguration"@.len() == 20 && "runtimeConfiguration"@[0] == 'r');
    assert("limit"@.len() == 5 && "limit"@[0] == 'l');
    assert("trackedProperties"@.len() == 17 && "trackedProperties"@[0] == 't');
    assert("splitOn"@.len() == 7 && "splitOn"@[0] == 's');
    assert("conditions"@.len() == 10 && "conditions"@[0] == 'c');
    assert("correlation"@.len() == 11 && "correlation"@[0] == 'c');
    assert("splitOnConfiguration"@.len() == 20 && "splitOnConfiguration"@[0] == 's');
    assert("recurrence"@.len() == 10 && "recurrence"@[0] == 'r');
    let keys = seq!["type"@, "kind"@, "inputs"@];
    if field(node, "description"@) is Some {
        assert(keys.contains("description"@));
        let i = choose|i: int| 0 <= i < keys.len() && keys[i] == "description"@;
        assert(keys[i] == "description"@);
    }
    if field(node, "operationOptions"@) is Some {
        assert(keys.contains("operationOptions"@));
        let i = choose|i: int| 0 <= i < keys.len() && keys[i] == "operationOptions"@;
        assert(keys[i] == "operationOptions"@);
    }
    if field(node, "runtimeConfiguration"@) is Some {
        assert(keys.contains("runtimeConfiguration"@));
        let i = choose|i: int| 0 <= i < keys.len() && keys[i] == "runtimeConfiguration"@;
        assert(keys[i] == "runtimeConfiguration"@);
    }
    if field(node, "limit"@) is Some {
        assert(keys.contains("limit"@));
        let i = choose|i: int| 0 <= i < keys.len() && keys[i] == "limit"@;
        assert(keys[i] == "limit"@);
    }
    if field(node, "trackedProperties"@) is Some {
        assert(keys.contains("trackedProperties"@));
        let i = choose|i: int| 0 <= i < keys.len() && keys[i] == "trackedProperties"@;
        assert(keys[i] == "trackedProperties"@);
    }
    if field(node, "splitOn"@) is Some {
        assert(keys.contains("splitOn"@));
        let i = choose|i: int| 0 <= i < keys.len() && keys[i] == "splitOn"@;
        assert(keys[i] == "splitOn"@);
    }
    if field(node, "conditions"@) is Some {
        assert(keys.contains("conditions"@));
        let i = choose|i: int| 0 <= i < keys.len() && keys[i] == "conditions"@;
        assert(keys[i] == "conditions"@);
    }
    if field(node, "correlation"@) is Some {
        assert(keys.contains("correlation"@));
        let i = choose|i: int| 0 <= i < keys.len() && keys[i] == "correlation"@;
        assert(keys[i] == "correlation"@);
    }
    if field(node, "splitOnConfiguration"@) is Some {
        assert(keys.contains("splitOnConfiguration"@));
        let i = choose|i: int| 0 <= i < keys.len() && keys[i] == "splitOnConfiguration"@;
        assert(keys[i] == "splitOnConfiguration"@);
    }
    if field(node, "recurrence"@) is Some {
        assert(keys.contains("recurrence"@));
        let i = choose|i: int| 0 <= i < keys.len() && keys[i] == "recurrence"@;
        assert(keys[i] == "recurrence"@);
    }
}

/// A `Request` trigger is clean exactly where its kind is one of those that send
/// requests and its method is a method of HTTP.
pub proof fn law_requests_are_of_a_kind(
    trigger: &Node,
    inputs: &Node,
    kind: Seq<char>,
    form: Seq<char>,
    method: Seq<char>,
    pointer: Seq<char>,
    file: &Document,
    workflow: &Workflow,
    scope: &ArmScope,
)
    requires
        is_plain(file, scope),
        holds_only(trigger, seq!["type"@, "kind"@, "inputs"@]),
        text_field(trigger, "type"@) == Some(kind),
        same_ignoring_case(kind, "Request"@),
        field(trigger, "inputs"@) == Some(*inputs),
        inputs.kind is Object,
        text_field(trigger, "kind"@) == Some(form),
        holds_only(inputs, seq!["method"@]),
        text_field(inputs, "method"@) == Some(method),
        is_unmarked(method),
    ensures
        (authored_trigger_findings(trigger, pointer, file, workflow, scope).len() == 0) == ((form == "Alert"@ || form == "AzureMonitorAlert"@ || form == "Button"@ || form == "EventGrid"@ || form == "Geofence"@ || form == "Http"@ || form == "PowerApp"@ || form == "SecurityCenterAlert"@) && (method == "DELETE"@ || method == "GET"@ || method == "HEAD"@ || method == "OPTIONS"@ || method == "PATCH"@ || method == "POST"@ || method == "PUT"@ || method == "TRACE"@)),
{
    lemma_plain(file, scope);
    lemma_keys_of_requests_are_of_a_kind(trigger);
    lemma_trigger_types(kind);
    lemma_request_keeps_no_state(kind);
    law_triggers_are_judged_by_their_parts(
        trigger,
        pointer,
        file,
        workflow,
        scope,
        kind,
        TriggerSpec::Request,
    );
    let typed = typed_trigger_findings(
        TriggerSpec::Request,
        trigger,
        Some(*inputs),
        field(trigger, "recurrence"@),
        pointer,
        file,
        workflow,
    );
    let shared = common_findings(trigger, pointer, "trigger"@, file, workflow, scope);
    let own = trigger_common_findings(trigger, pointer, file);
    lemma_method_alone(inputs);
    lemma_unmarked_is_literal(method);
    lemma_request_method_names(method);
    lemma_common_kind_names(form);
    lemma_request_kind_names(form);
    reveal_strlit("action");
    reveal_strlit("trigger");
    assert("action"@.len() == 6 && "action"@[0] == 'a');
    assert("trigger"@.len() == 7 && "trigger"@[0] == 't');
    assert(own.len() == 0);
    assert((shared.len() == 0) == one_of(form, common_kind_names()));
}

proof fn lemma_batch_mode_names(name: Seq<char>)
    ensures
        one_of(name, batch_mode_names()) == (name == "Inline"@ || name == "IntegrationAccount"@),
{
    let list = batch_mode_names();
    if one_of(name, list) {
        let k = choose|k: int| 0 <= k < list.len() && list[k] == name;
        assert(list[k] == name);
    }
    assert(list[0] == "Inline"@);
    assert(list[1] == "IntegrationAccount"@);
}

/// Inputs with these members have nothing else.
proof fn lemma_batch_alone(node: &Node)
    requires
        holds_only(node, seq!["mode"@, "releaseCriteria"@]),
    ensures
        field(node, "host"@) is None,
        field(node, "batchName"@) is None,
        field(node, "batchGroupName"@) is None,
        field(node, "configurations"@) is None,
        field(node, "content"@) is None,
{
    reveal_strlit("mode");
    reveal_strlit("releaseCriteria");
    reveal_strlit("host");
    reveal_strlit("batchName");
    reveal_strlit("batchGroupName");
    reveal_strlit("configurations");
    reveal_strlit("content");
    assert("mode"@.len() == 4 && "mode"@[0] == 'm');
    assert("releaseCriteria"@.len() == 15 && "releaseCriteria"@[0] == 'r');
    assert("host"@.len() == 4 && "host"@[0] == 'h');
    assert("batchName"@.len() == 9 && "batchName"@[0] == 'b');
    assert("batchGroupName"@.len() == 14 && "batchGroupName"@[0] == 'b');
    assert("configurations"@.len() == 14 && "configurations"@[0] == 'c');
    assert("content"@.len() == 7 && "content"@[0] == 'c');
    let keys = seq!["mode"@, "releaseCriteria"@];
    if field(node, "host"@) is Some {
        assert(keys.contains("host"@));
        let i = choose|i: int| 0 <= i < keys.len() && keys[i] == "host"@;
        assert(keys[i] == "host"@);
    }
    if field(node, "batchName"@) is Some {
        assert(keys.contains("batchName"@));
        let i = choose|i: int| 0 <= i < keys.len() && keys[i] == "batchName"@;
        assert(keys[i] == "batchName"@);
    }
    if field(node, "batchGroupName"@) is Some {
        assert(keys.contains("batchGroupName"@));
        let i = choose|i: int| 0 <= i < keys.len() && keys[i] == "batchGroupName"@;
        assert(keys[i] == "batchGroupName"@);
    }
    if field(node, "configurations"@) is Some {
        assert(keys.contains("configurations"@));
        let i = choose|i: int| 0 <= i < keys.len() && keys[i] == "configurations"@;
        assert(keys[i] == "configurations"@);
    }
    if field(node, "content"@) is Some {
        assert(keys.contains("content"@));
        let i = choose|i: int| 0 <= i < keys.len() && keys[i] == "content"@;
        assert(keys[i] == "content"@);
    }
}

/// Criteria with these members have nothing else.
proof fn lemma_criteria_alone(node: &Node)
    requires
        holds_only(node, seq!["messageCount"@, "batchSize"@]),
    ensures
        field(node, "recurrence"@) is None,
{
    reveal_strlit("messageCount");
    reveal_strlit("batchSize");
    reveal_strlit("recurrence");
    assert("messageCount"@.len() == 12 && "messageCount"@[0] == 'm');
    assert("batchSize"@.len() == 9 && "batchSize"@[0] == 'b');
    assert("recurrence"@.len() == 10 && "recurrence"@[0] == 'r');
    let keys = seq!["messageCount"@, "batchSize"@];
    if field(node, "recurrence"@) is Some {
        assert(keys.contains("recurrence"@));
        let i = choose|i: int| 0 <= i < keys.len() && keys[i] == "recurrence"@;
        assert(keys[i] == "recurrence"@);
    }
}

/// A trigger with these members has nothing else.
proof fn lemma_keys_of_batch_triggers_have_a_mode_by_plan(node: &Node)
    requires
        holds_only(node, seq!["type"@, "inputs"@]),
    ensures
        field(node, "description"@) is None,
        field(node, "operationOptions"@) is None,
        field(node, "runtimeConfiguration"@) is None,
        field(node, "limit"@) is None,
        field(node, "trackedProperties"@) is None,
        field(node, "kind"@) is None,
        field(node, "splitOn"@) is None,
        field(node, "conditions"@) is None,
        field(node, "correlation"@) is None,
        field(node, "splitOnConfiguration"@) is None,
        field(node, "recurrence"@) is None,
{
    reveal_strlit("type");
    reveal_strlit("inputs");
    reveal_strlit("description");
    reveal_strlit("operationOptions");
    reveal_strlit("runtimeConfiguration");
    reveal_strlit("limit");
    reveal_strlit("trackedProperties");
    reveal_strlit("kind");
    reveal_strlit("splitOn");
    reveal_strlit("conditions");
    reveal_strlit("correlation");
    reveal_strlit("splitOnConfiguration");
    reveal_strlit("recurrence");
    assert("type"@.len() == 4 && "type"@[0] == 't');
    assert("inputs"@.len() == 6 && "inputs"@[0] == 'i');
    assert("description"@.len() == 11 && "description"@[0] == 'd');
    assert("operationOptions"@.len() == 16 && "operationOptions"@[0] == 'o');
    assert("runtimeConfiguration"@.len() == 20 && "runtimeConfiguration"@[0] == 'r');
    assert("limit"@.len() == 5 && "limit"@[0] == 'l');
    assert("trackedProperties"@.len() == 17 && "trackedProperties"@[0] == 't');
    assert("kind"@.len() == 4 && "kind"@[0] == 'k');
    assert("splitOn"@.len() == 7 && "splitOn"@[0] == 's');
    assert("conditions"@.len() == 10 && "conditions"@[0] == 'c');
    assert("correlation"@.len() == 11 && "correlation"@[0] == 'c');
    assert("splitOnConfiguration"@.len() == 20 && "splitOnConfiguration"@[0] == 's');
    assert("recurrence"@.len() == 10 && "recurrence"@[0] == 'r');
    let keys = seq!["type"@, "inputs"@];
    if field(node, "description"@) is Some {
        assert(keys.contains("description"@));
        let i = choose|i: int| 0 <= i < keys.len() && keys[i] == "description"@;
        assert(keys[i] == "description"@);
    }
    if field(node, "operationOptions"@) is Some {
        assert(keys.contains("operationOptions"@));
        let i = choose|i: int| 0 <= i < keys.len() && keys[i] == "operationOptions"@;
        assert(keys[i] == "operationOptions"@);
    }
    if field(node, "runtimeConfiguration"@) is Some {
        assert(keys.contains("runtimeConfiguration"@));
        let i = choose|i: int| 0 <= i < keys.len() && keys[i] == "runtimeConfiguration"@;
        assert(keys[i] == "runtimeConfiguration"@);
    }
    if field(node, "limit"@) is Some {
        assert(keys.contains("limit"@));
        let i = choose|i: int| 0 <= i < keys.len() && keys[i] == "limit"@;
        assert(keys[i] == "limit"@);
    }
    if field(node, "trackedProperties"@) is Some {
        assert(keys.contains("trackedProperties"@));
        let i = choose|i: int| 0 <= i < keys.len() && keys[i] == "trackedProperties"@;
        assert(keys[i] == "trackedProperties"@);
    }
    if field(node, "kind"@) is Some {
        assert(keys.contains("kind"@));
        let i = choose|i: int| 0 <= i < keys.len() && keys[i] == "kind"@;
        assert(keys[i] == "kind"@);
    }
    if field(node, "splitOn"@) is Some {
        assert(keys.contains("splitOn"@));
        let i = choose|i: int| 0 <= i < keys.len() && keys[i] == "splitOn"@;
        assert(keys[i] == "splitOn"@);
    }
    if field(node, "conditions"@) is Some {
        assert(keys.contains("conditions"@));
        let i = choose|i: int| 0 <= i < keys.len() && keys[i] == "conditions"@;
        assert(keys[i] == "conditions"@);
    }
    if field(node, "correlation"@) is Some {
        assert(keys.contains("correlation"@));
        let i = choose|i: int| 0 <= i < keys.len() && keys[i] == "correlation"@;
        assert(keys[i] == "correlation"@);
    }
    if field(node, "splitOnConfiguration"@) is Some {
        assert(keys.contains("splitOnConfiguration"@));
        let i = choose|i: int| 0 <= i < keys.len() && keys[i] == "splitOnConfiguration"@;
        assert(keys[i] == "splitOnConfiguration"@);
    }
    if field(node, "recurrence"@) is Some {
        assert(keys.contains("recurrence"@));
        let i = choose|i: int| 0 <= i < keys.len() && keys[i] == "recurrence"@;
        assert(keys[i] == "recurrence"@);
    }
}

/// A `Batch` trigger is clean exactly where it is released after 1 to 8000 messages
/// and 1 to 83886080 bytes, and has a known mode in a Consumption workflow or
/// none in a Standard one.
pub proof fn law_batch_triggers_have_a_mode_by_plan(
    trigger: &Node,
    inputs: &Node,
    kind: Seq<char>,
    criteria: &Node,
    messages: u64,
    bytes: u64,
    pointer: Seq<char>,
    file: &Document,
    workflow: &Workflow,
    scope: &ArmScope,
)
    requires
        is_plain(file, scope),
        holds_only(trigger, seq!["type"@, "inputs"@]),
        text_field(trigger, "type"@) == Some(kind),
        same_ignoring_case(kind, "Batch"@),
        field(trigger, "inputs"@) == Some(*inputs),
        inputs.kind is Object,
        holds_only(inputs, seq!["mode"@, "releaseCriteria"@]),
        field(inputs, "mode"@) is Some ==> is_text(inputs, "mode"@) && is_unmarked(text_field(inputs, "mode"@)->Some_0),
        field(inputs, "releaseCriteria"@) == Some(*criteria),
        criteria.kind is Object,
        holds_only(criteria, seq!["messageCount"@, "batchSize"@]),
        field(criteria, "messageCount"@) is Some,
        (field(criteria, "messageCount"@)->Some_0).kind == Json::Number(Number::PosInt(messages)),
        field(criteria, "batchSize"@) is Some,
        (field(criteria, "batchSize"@)->Some_0).kind == Json::Number(Number::PosInt(bytes)),
        messages <= i64::MAX,
        bytes <= i64::MAX,
    ensures
        (authored_trigger_findings(trigger, pointer, file, workflow, scope).len() == 0) == ({
            &&& 1 <= messages <= 8000
            &&& 1 <= bytes <= 83886080
            &&& match text_field(inputs, "mode"@) {
                Some(mode) => workflow.kind is None && (mode == "Inline"@ || mode
                    == "IntegrationAccount"@),
                None => true,
            }
        }),
{
    lemma_plain(file, scope);
    lemma_keys_of_batch_triggers_have_a_mode_by_plan(trigger);
    lemma_trigger_types(kind);
    lemma_batch_keeps_no_state(kind);
    law_triggers_are_judged_by_their_parts(
        trigger,
        pointer,
        file,
        workflow,
        scope,
        kind,
        TriggerSpec::Batch,
    );
    let typed = typed_trigger_findings(
        TriggerSpec::Batch,
        trigger,
        Some(*inputs),
        field(trigger, "recurrence"@),
        pointer,
        file,
        workflow,
    );
    let shared = common_findings(trigger, pointer, "trigger"@, file, workflow, scope);
    let own = trigger_common_findings(trigger, pointer, file);
    lemma_batch_alone(inputs);
    lemma_criteria_alone(criteria);
    if let Some(mode) = text_field(inputs, "mode"@) {
        lemma_unmarked_is_literal(mode);
        lemma_batch_mode_names(mode);
    }
    let at = joined(joined(pointer, "inputs"@), "releaseCriteria"@);
    assert((criteria_findings(criteria, at, file).len() == 0) == (1 <= messages <= 8000 && 1 <= bytes
        <= 83886080));
    assert(own.len() == 0);
    assert(shared.len() == 0);
}

/// Inputs with these members have nothing else.
proof fn lemma_connector_alone(node: &Node)
    requires
        holds_only(node, seq!["host"@, "method"@, "path"@, "body"@, "accessKeyType"@]),
    ensures
        field(node, "headers"@) is None,
        field(node, "queries"@) is None,
        field(node, "cookie"@) is None,
        field(node, "operationOptions"@) is None,
        field(node, "authentication"@) is None,
        field(node, "retryPolicy"@) is None,
{
    reveal_strlit("host");
    reveal_strlit("method");
    reveal_strlit("path");
    reveal_strlit("body");
    reveal_strlit("accessKeyType");
    reveal_strlit("headers");
    reveal_strlit("queries");
    reveal_strlit("cookie");
    reveal_strlit("operationOptions");
    reveal_strlit("authentication");
    reveal_strlit("retryPolicy");
    assert("host"@.len() == 4 && "host"@[0] == 'h');
    assert("method"@.len() == 6 && "method"@[0] == 'm');
    assert("path"@.len() == 4 && "path"@[0] == 'p');
    assert("body"@.len() == 4 && "body"@[0] == 'b');
    assert("accessKeyType"@.len() == 13 && "accessKeyType"@[0] == 'a');
    assert("headers"@.len() == 7 && "headers"@[0] == 'h');
    assert("queries"@.len() == 7 && "queries"@[0] == 'q');
    assert("cookie"@.len() == 6 && "cookie"@[0] == 'c');
    assert("operationOptions"@.len() == 16 && "operationOptions"@[0] == 'o');
    assert("authentication"@.len() == 14 && "authentication"@[0] == 'a');
    assert("retryPolicy"@.len() == 11 && "retryPolicy"@[0] == 'r');
    let keys = seq!["host"@, "method"@, "path"@, "body"@, "accessKeyType"@];
    if field(node, "headers"@) is Some {
        assert(keys.contains("headers"@));
        let i = choose|i: int| 0 <= i < keys.len() && keys[i] == "headers"@;
        assert(keys[i] == "headers"@);
    }
    if field(node, "queries"@) is Some {
        assert(keys.contains("queries"@));
        let i = choose|i: int| 0 <= i < keys.len() && keys[i] == "queries"@;
        assert(keys[i] == "queries"@);
    }
    if field(node, "cookie"@) is Some {
        assert(keys.contains("cookie"@));
        let i = choose|i: int| 0 <= i < keys.len() && keys[i] == "cookie"@;
        assert(keys[i] == "cookie"@);
    }
    if field(node, "operationOptions"@) is Some {
        assert(keys.contains("operationOptions"@));
        let i = choose|i: int| 0 <= i < keys.len() && keys[i] == "operationOptions"@;
        assert(keys[i] == "operationOptions"@);
    }
    if field(node, "authentication"@) is Some {
        assert(keys.contains("authentication"@));
        let i = choose|i: int| 0 <= i < keys.len() && keys[i] == "authentication"@;
        assert(keys[i] == "authentication"@);
    }
    if field(node, "retryPolicy"@) is Some {
        assert(keys.contains("retryPolicy"@));
        let i = choose|i: int| 0 <= i < keys.len() && keys[i] == "retryPolicy"@;
        assert(keys[i] == "retryPolicy"@);
    }
}

proof fn lemma_access_key_type_names(name: Seq<char>)
    ensures
        one_of(name, access_key_type_names()) == (name == "Primary"@ || name == "Secondary"@),
{
    let list = access_key_type_names();
    if one_of(name, list) {
        let k = choose|k: int| 0 <= k < list.len() && list[k] == name;
        assert(list[k] == name);
    }
    assert(list[0] == "Primary"@);
    assert(list[1] == "Secondary"@);
}

/// A trigger with these members has nothing else.
proof fn lemma_keys_of_webhooks_of_connections_bring_a_body(node: &Node)
    requires
        holds_only(node, seq!["type"@, "inputs"@]),
    ensures
        field(node, "description"@) is None,
        field(node, "operationOptions"@) is None,
        field(node, "runtimeConfiguration"@) is None,
        field(node, "limit"@) is None,
        field(node, "trackedProperties"@) is None,
        field(node, "kind"@) is None,
        field(node, "splitOn"@) is None,
        field(node, "conditions"@) is None,
        field(node, "correlation"@) is None,
        field(node, "splitOnConfiguration"@) is None,
        field(node, "recurrence"@) is None,
{
    reveal_strlit("type");
    reveal_strlit("inputs");
    reveal_strlit("description");
    reveal_strlit("operationOptions");
    reveal_strlit("runtimeConfiguration");
    reveal_strlit("limit");
    reveal_strlit("trackedProperties");
    reveal_strlit("kind");
    reveal_strlit("splitOn");
    reveal_strlit("conditions");
    reveal_strlit("correlation");
    reveal_strlit("splitOnConfiguration");
    reveal_strlit("recurrence");
    assert("type"@.len() == 4 && "type"@[0] == 't');
    assert("inputs"@.len() == 6 && "inputs"@[0] == 'i');
    assert("description"@.len() == 11 && "description"@[0] == 'd');
    assert("operationOptions"@.len() == 16 && "operationOptions"@[0] == 'o');
    assert("runtimeConfiguration"@.len() == 20 && "runtimeConfiguration"@[0] == 'r');
    assert("limit"@.len() == 5 && "limit"@[0] == 'l');
    assert("trackedProperties"@.len() == 17 && "trackedProperties"@[0] == 't');
    assert("kind"@.len() == 4 && "kind"@[0] == 'k');
    assert("splitOn"@.len() == 7 && "splitOn"@[0] == 's');
    assert("conditions"@.len() == 10 && "conditions"@[0] == 'c');
    assert("correlation"@.len() == 11 && "correlation"@[0] == 'c');
    assert("splitOnConfiguration"@.len() == 20 && "splitOnConfiguration"@[0] == 's');
    assert("recurrence"@.len() == 10 && "recurrence"@[0] == 'r');
    let keys = seq!["type"@, "inputs"@];
    if field(node, "description"@) is Some {
        assert(keys.contains("description"@));
        let i = choose|i: int| 0 <= i < keys.len() && keys[i] == "description"@;
        assert(keys[i] == "description"@);
    }
    if field(node, "operationOptions"@) is Some {
        assert(keys.contains("operationOptions"@));
        let i = choose|i: int| 0 <= i < keys.len() && keys[i] == "operationOptions"@;
        assert(keys[i] == "operationOptions"@);
    }
    if field(node, "runtimeConfiguration"@) is Some {
        assert(keys.contains("runtimeConfiguration"@));
        let i = choose|i: int| 0 <= i < keys.len() && keys[i] == "runtimeConfiguration"@;
        assert(keys[i] == "runtimeConfiguration"@);
    }
    if field(node, "limit"@) is Some {
        assert(keys.contains("limit"@));
        let i = choose|i: int| 0 <= i < keys.len() && keys[i] == "limit"@;
        assert(keys[i] == "limit"@);
    }
    if field(node, "trackedProperties"@) is Some {
        assert(keys.contains("trackedProperties"@));
        let i = choose|i: int| 0 <= i < keys.len() && keys[i] == "trackedProperties"@;
        assert(keys[i] == "trackedProperties"@);
    }
    if field(node, "kind"@) is Some {
        assert(keys.contains("kind"@));
        let i = choose|i: int| 0 <= i < keys.len() && keys[i] == "kind"@;
        assert(keys[i] == "kind"@);
    }
    if field(node, "splitOn"@) is Some {
        assert(keys.contains("splitOn"@));
        let i = choose|i: int| 0 <= i < keys.len() && keys[i] == "splitOn"@;
        assert(keys[i] == "splitOn"@);
    }
    if field(node, "conditions"@) is Some {
        assert(keys.contains("conditions"@));
        let i = choose|i: int| 0 <= i < keys.len() && keys[i] == "conditions"@;
        assert(keys[i] == "conditions"@);
    }
    if field(node, "correlation"@) is Some {
        assert(keys.contains("correlation"@));
        let i = choose|i: int| 0 <= i < keys.len() && keys[i] == "correlation"@;
        assert(keys[i] == "correlation"@);
    }
    if field(node, "splitOnConfiguration"@) is Some {
        assert(keys.contains("splitOnConfiguration"@));
        let i = choose|i: int| 0 <= i < keys.len() && keys[i] == "splitOnConfiguration"@;
        assert(keys[i] == "splitOnConfiguration"@);
    }
    if field(node, "recurrence"@) is Some {
        assert(keys.contains("recurrence"@));
        let i = choose|i: int| 0 <= i < keys.len() && keys[i] == "recurrence"@;
        assert(keys[i] == "recurrence"@);
    }
}

/// An `ApiConnectionWebhook` trigger is clean exactly where it brings a body to a
/// path of a named connection, by a method of HTTP, whatever its case, and with a
/// known key.
pub proof fn law_webhooks_of_connections_bring_a_body(
    trigger: &Node,
    inputs: &Node,
    kind: Seq<char>,
    host: &Node,
    connection: &Node,
    method: Seq<char>,
    key: Seq<char>,
    pointer: Seq<char>,
    file: &Document,
    workflow: &Workflow,
    scope: &ArmScope,
)
    requires
        is_plain(file, scope),
        holds_only(trigger, seq!["type"@, "inputs"@]),
        text_field(trigger, "type"@) == Some(kind),
        same_ignoring_case(kind, "ApiConnectionWebhook"@),
        field(trigger, "inputs"@) == Some(*inputs),
        inputs.kind is Object,
        holds_only(inputs, seq!["host"@, "method"@, "path"@, "body"@, "accessKeyType"@]),
        field(inputs, "host"@) == Some(*host),
        host.kind is Object,
        field(host, "connection"@) == Some(*connection),
        connection.kind is Object,
        is_text(connection, "name"@),
        field(connection, "referenceName"@) is None,
        field(connection, "id"@) is None,
        text_field(inputs, "method"@) == Some(method),
        is_unmarked(method),
        text_field(inputs, "accessKeyType"@) == Some(key),
        is_unmarked(key),
    ensures
        (authored_trigger_findings(trigger, pointer, file, workflow, scope).len() == 0) == (field(inputs, "body"@) is Some && is_text(inputs, "path"@) && (key == "Primary"@ || key == "Secondary"@) && (same_ignoring_case(method, "DELETE"@) || same_ignoring_case(method, "GET"@) || same_ignoring_case(method, "HEAD"@) || same_ignoring_case(method, "OPTIONS"@) || same_ignoring_case(method, "PATCH"@) || same_ignoring_case(method, "POST"@) || same_ignoring_case(method, "PUT"@) || same_ignoring_case(method, "TRACE"@))),
{
    lemma_plain(file, scope);
    lemma_keys_of_webhooks_of_connections_bring_a_body(trigger);
    lemma_trigger_types(kind);
    lemma_apiconnectionwebhook_keeps_no_state(kind);
    law_triggers_are_judged_by_their_parts(
        trigger,
        pointer,
        file,
        workflow,
        scope,
        kind,
        TriggerSpec::ApiConnectionWebhook,
    );
    let typed = typed_trigger_findings(
        TriggerSpec::ApiConnectionWebhook,
        trigger,
        Some(*inputs),
        field(trigger, "recurrence"@),
        pointer,
        file,
        workflow,
    );
    let shared = common_findings(trigger, pointer, "trigger"@, file, workflow, scope);
    let own = trigger_common_findings(trigger, pointer, file);
    lemma_connector_alone(inputs);
    lemma_unmarked_is_literal(method);
    lemma_unmarked_is_literal(key);
    lemma_methods_in_any_case(method);
    lemma_access_key_type_names(key);
    assert(http_inputs_findings(
        inputs,
        joined(pointer, "inputs"@),
        "ApiConnection trigger inputs"@,
        bounds_of(workflow),
        file,
    ).len() == 0);
    assert(own.len() == 0);
    assert(shared.len() == 0);
}

/// The fields that triggers share are clean exactly where a trigger splits by a
/// text, which a recurrence never does.
pub proof fn law_recurrences_never_split(
    trigger: &Node,
    value: &Node,
    kind: Seq<char>,
    pointer: Seq<char>,
    file: &Document,
    scope: &ArmScope,
)
    requires
        is_plain(file, scope),
        holds_only(trigger, seq!["type"@, "inputs"@, "recurrence"@, "splitOn"@]),
        text_field(trigger, "type"@) == Some(kind),
        field(trigger, "splitOn"@) == Some(*value),
        !(value.kind is Null),
    ensures
        (trigger_common_findings(trigger, pointer, file).len() == 0) == (value.kind is String
            && !same_ignoring_case(kind, "Recurrence"@)),
{
    lemma_plain(file, scope);
    lemma_split_alone(trigger);
}

/// A trigger with these members has nothing else.
proof fn lemma_split_alone(node: &Node)
    requires
        holds_only(node, seq!["type"@, "inputs"@, "recurrence"@, "splitOn"@]),
    ensures
        field(node, "conditions"@) is None,
        field(node, "correlation"@) is None,
        field(node, "splitOnConfiguration"@) is None,
{
    reveal_strlit("type");
    reveal_strlit("inputs");
    reveal_strlit("recurrence");
    reveal_strlit("splitOn");
    reveal_strlit("conditions");
    reveal_strlit("correlation");
    reveal_strlit("splitOnConfiguration");
    assert("type"@.len() == 4 && "type"@[0] == 't');
    assert("inputs"@.len() == 6 && "inputs"@[0] == 'i');
    assert("recurrence"@.len() == 10 && "recurrence"@[0] == 'r');
    assert("splitOn"@.len() == 7 && "splitOn"@[0] == 's');
    assert("conditions"@.len() == 10 && "conditions"@[0] == 'c');
    assert("correlation"@.len() == 11 && "correlation"@[0] == 'c');
    assert("splitOnConfiguration"@.len() == 20 && "splitOnConfiguration"@[0] == 's');
    let keys = seq!["type"@, "inputs"@, "recurrence"@, "splitOn"@];
    if field(node, "conditions"@) is Some {
        assert(keys.contains("conditions"@));
        let i = choose|i: int| 0 <= i < keys.len() && keys[i] == "conditions"@;
        assert(keys[i] == "conditions"@);
    }
    if field(node, "correlation"@) is Some {
        assert(keys.contains("correlation"@));
        let i = choose|i: int| 0 <= i < keys.len() && keys[i] == "correlation"@;
        assert(keys[i] == "correlation"@);
    }
    if field(node, "splitOnConfiguration"@) is Some {
        assert(keys.contains("splitOnConfiguration"@));
        let i = choose|i: int| 0 <= i < keys.len() && keys[i] == "splitOnConfiguration"@;
        assert(keys[i] == "splitOnConfiguration"@);
    }
}

proof fn lemma_run_after_status_names(name: Seq<char>)
    ensures
        one_of(name, run_after_status_names()) == (name == "Aborted"@ || name == "Cancelled"@ || name == "Failed"@ || name == "Faulted"@ || name == "Ignored"@ || name == "Paused"@ || name == "Running"@ || name == "Skipped"@ || name == "Succeeded"@ || name == "Suspended"@ || name == "TimedOut"@ || name == "Waiting"@),
{
    let list = run_after_status_names();
    if one_of(name, list) {
        let k = choose|k: int| 0 <= k < list.len() && list[k] == name;
        assert(list[k] == name);
    }
    assert(list[0] == "Aborted"@);
    assert(list[1] == "Cancelled"@);
    assert(list[2] == "Failed"@);
    assert(list[3] == "Faulted"@);
    assert(list[4] == "Ignored"@);
    assert(list[5] == "Paused"@);
    assert(list[6] == "Running"@);
    assert(list[7] == "Skipped"@);
    assert(list[8] == "Succeeded"@);
    assert(list[9] == "Suspended"@);
    assert(list[10] == "TimedOut"@);
    assert(list[11] == "Waiting"@);
}

/// A status that an action can end with.
pub open spec fn is_status(text: Seq<char>) -> bool {
    text == "Aborted"@ || text == "Cancelled"@ || text == "Failed"@ || text == "Faulted"@ || text == "Ignored"@ || text == "Paused"@ || text == "Running"@ || text == "Skipped"@ || text == "Succeeded"@ || text == "Suspended"@ || text == "TimedOut"@ || text == "Waiting"@
}

/// A dependency is a list of statuses.
pub open spec fn lists_statuses(value: &Node) -> bool {
    match value.kind {
        Json::Array(items) => forall|i: int|
            0 <= i < items@.len() ==> text_of(#[trigger] &items@[i]) is Some && is_status(
                text_of(&items@[i])->Some_0,
            ),
        _ => false,
    }
}

proof fn lemma_statuses(
    items: Seq<Node>,
    n: nat,
    base: Seq<char>,
    file: &Document,
    scope: &ArmScope,
)
    requires
        is_plain(file, scope),
        n <= items.len(),
    ensures
        (status_findings(items, n, base, None, file).len() == 0) == (forall|i: int|
            0 <= i < n ==> text_of(#[trigger] &items[i]) is Some && is_status(
                text_of(&items[i])->Some_0,
            )),
    decreases n,
{
    lemma_plain(file, scope);
    if n > 0 {
        lemma_statuses(items, (n - 1) as nat, base, file, scope);
        if let Some(text) = text_of(&items[n - 1]) {
            lemma_run_after_status_names(text);
        }
    }
}

proof fn lemma_dependencies(
    members: Seq<Member>,
    n: nat,
    base: Seq<char>,
    file: &Document,
    scope: &ArmScope,
)
    requires
        is_plain(file, scope),
        n <= members.len(),
        has_no_null(members),
    ensures
        (run_after_statuses_findings(members, n, base, None, file, scope).len() == 0) == (forall|
            i: int,
        |
            0 <= i < n ==> lists_statuses(&(#[trigger] members[i]).value)),
    decreases n,
{
    lemma_plain(file, scope);
    if n > 0 {
        lemma_dependencies(members, (n - 1) as nat, base, file, scope);
        let item = members[n - 1].value;
        assert(!(item.kind is Null));
        if let Json::Array(items) = item.kind {
            lemma_statuses(items@, items@.len(), joined(base, members[n - 1].name@), file, scope);
        }
    }
}

/// An action with these members has nothing else.
proof fn lemma_keys_of_orders_list_statuses(node: &Node)
    requires
        holds_only(node, seq!["type"@, "inputs"@, "runAfter"@]),
    ensures
        field(node, "description"@) is None,
        field(node, "operationOptions"@) is None,
        field(node, "runtimeConfiguration"@) is None,
        field(node, "limit"@) is None,
        field(node, "trackedProperties"@) is None,
        field(node, "kind"@) is None,
        field(node, "actions"@) is None,
        field(node, "cases"@) is None,
        field(node, "default"@) is None,
        field(node, "else"@) is None,
        field(node, "tools"@) is None,
{
    reveal_strlit("type");
    reveal_strlit("inputs");
    reveal_strlit("runAfter");
    reveal_strlit("description");
    reveal_strlit("operationOptions");
    reveal_strlit("runtimeConfiguration");
    reveal_strlit("limit");
    reveal_strlit("trackedProperties");
    reveal_strlit("kind");
    reveal_strlit("actions");
    reveal_strlit("cases");
    reveal_strlit("default");
    reveal_strlit("else");
    reveal_strlit("tools");
    assert("type"@.len() == 4 && "type"@[0] == 't');
    assert("inputs"@.len() == 6 && "inputs"@[0] == 'i');
    assert("runAfter"@.len() == 8 && "runAfter"@[0] == 'r');
    assert("description"@.len() == 11 && "description"@[0] == 'd');
    assert("operationOptions"@.len() == 16 && "operationOptions"@[0] == 'o');
    assert("runtimeConfiguration"@.len() == 20 && "runtimeConfiguration"@[0] == 'r');
    assert("limit"@.len() == 5 && "limit"@[0] == 'l');
    assert("trackedProperties"@.len() == 17 && "trackedProperties"@[0] == 't');
    assert("kind"@.len() == 4 && "kind"@[0] == 'k');
    assert("actions"@.len() == 7 && "actions"@[0] == 'a');
    assert("cases"@.len() == 5 && "cases"@[0] == 'c');
    assert("default"@.len() == 7 && "default"@[0] == 'd');
    assert("else"@.len() == 4 && "else"@[0] == 'e');
    assert("tools"@.len() == 5 && "tools"@[0] == 't');
    let keys = seq!["type"@, "inputs"@, "runAfter"@];
    if field(node, "description"@) is Some {
        assert(keys.contains("description"@));
        let i = choose|i: int| 0 <= i < keys.len() && keys[i] == "description"@;
        assert(keys[i] == "description"@);
    }
    if field(node, "operationOptions"@) is Some {
        assert(keys.contains("operationOptions"@));
        let i = choose|i: int| 0 <= i < keys.len() && keys[i] == "operationOptions"@;
        assert(keys[i] == "operationOptions"@);
    }
    if field(node, "runtimeConfiguration"@) is Some {
        assert(keys.contains("runtimeConfiguration"@));
        let i = choose|i: int| 0 <= i < keys.len() && keys[i] == "runtimeConfiguration"@;
        assert(keys[i] == "runtimeConfiguration"@);
    }
    if field(node, "limit"@) is Some {
        assert(keys.contains("limit"@));
        let i = choose|i: int| 0 <= i < keys.len() && keys[i] == "limit"@;
        assert(keys[i] == "limit"@);
    }
    if field(node, "trackedProperties"@) is Some {
        assert(keys.contains("trackedProperties"@));
        let i = choose|i: int| 0 <= i < keys.len() && keys[i] == "trackedProperties"@;
        assert(keys[i] == "trackedProperties"@);
    }
    if field(node, "kind"@) is Some {
        assert(keys.contains("kind"@));
        let i = choose|i: int| 0 <= i < keys.len() && keys[i] == "kind"@;
        assert(keys[i] == "kind"@);
    }
    if field(node, "actions"@) is Some {
        assert(keys.contains("actions"@));
        let i = choose|i: int| 0 <= i < keys.len() && keys[i] == "actions"@;
        assert(keys[i] == "actions"@);
    }
    if field(node, "cases"@) is Some {
        assert(keys.contains("cases"@));
        let i = choose|i: int| 0 <= i < keys.len() && keys[i] == "cases"@;
        assert(keys[i] == "cases"@);
    }
    if field(node, "default"@) is Some {
        assert(keys.contains("default"@));
        let i = choose|i: int| 0 <= i < keys.len() && keys[i] == "default"@;
        assert(keys[i] == "default"@);
    }
    if field(node, "else"@) is Some {
        assert(keys.contains("else"@));
        let i = choose|i: int| 0 <= i < keys.len() && keys[i] == "else"@;
        assert(keys[i] == "else"@);
    }
    if field(node, "tools"@) is Some {
        assert(keys.contains("tools"@));
        let i = choose|i: int| 0 <= i < keys.len() && keys[i] == "tools"@;
        assert(keys[i] == "tools"@);
    }
}

/// A `Compose` action that runs after others is clean exactly where it lists
/// known statuses for each of them.
pub proof fn law_orders_list_statuses(
    action: &Node,
    kind: Seq<char>,
    members: Vec<Member>,
    pointer: Seq<char>,
    container: Seq<char>,
    file: &Document,
    workflow: &Workflow,
    scope: &ArmScope,
)
    requires
        is_plain(file, scope),
        holds_only(action, seq!["type"@, "inputs"@, "runAfter"@]),
        text_field(action, "type"@) == Some(kind),
        same_ignoring_case(kind, "Compose"@),
        field(action, "inputs"@) is Some,
        field(action, "runAfter"@) is Some,
        (field(action, "runAfter"@)->Some_0).kind == Json::Object(members),
        has_no_null(members@),
    ensures
        (authored_action_findings(action, pointer, container, file, workflow, scope).len() == 0)
            == (forall|i: int|
            0 <= i < members@.len() ==> lists_statuses(&(#[trigger] members@[i]).value)),
{
    lemma_plain(file, scope);
    lemma_keys_of_orders_list_statuses(action);
    lemma_action_types(kind);
    lemma_action_parts(action, pointer, container, file, workflow, scope, kind, ActionSpec::Compose);
    let typed = typed_action_findings(
        ActionSpec::Compose,
        action,
        pointer,
        container,
        kind,
        file,
        workflow,
    );
    let shared = common_findings(action, pointer, "action"@, file, workflow, scope);
    let below = nested_findings(action, pointer, false, Some(kind), file, workflow, scope);
    lemma_dependencies(
        members@,
        members@.len(),
        joined(pointer, "runAfter"@),
        file,
        scope,
    );
    assert(shared.len() == 0);
    assert(below.len() == 0);
}

} // verus!
