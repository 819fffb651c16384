//! What the fields that conflict with others are judged by.

use vstd::prelude::*;

use crate::arm::ArmScope;
use crate::json::{field, joined, json_text, text_field, text_of, Document, Json, Node, Number};
use crate::shape::common::common_findings;
use crate::shape::common_laws::{is_option_word, law_options_are_read_one_by_one};
use crate::shape::content_transfer::is_chunked;
use crate::shape::control_laws::{is_empty_object, law_classes_go_by_type};
use crate::shape::data_laws::is_text;
use crate::shape::definition_io::{parameter_body_findings, parameter_findings};
use crate::shape::duration_laws::{is_run, law_components_are_durations};
use crate::shape::http_uri::is_uri;

use crate::shape::operation_options::{
    option_conflict_findings, option_enabled, option_findings, option_list_findings, option_tokens,
    options_findings, trigger_option_names,
};
use crate::shape::operations::{authored_action_findings, nested_findings};
use crate::shape::plain_laws::{
    holds_only, is_plain, keeps_state, lemma_action_parts, lemma_plain,
};
use crate::shape::recurrence_laws::{is_unmarked, lemma_unmarked_is_literal};
use crate::shape::registry::{typed_action_findings, ActionSpec};
use crate::shape::runtime::{
    concurrency_object_findings, is_single, least_waiting, runtime_findings,
};
use crate::shape::secure_data::{
    has_secure_data, names_secure_property, secure_property_names, some_secure_property,
};
use crate::shape::triggers::common::{condition_findings, trigger_common_findings};
use crate::shape::triggers::http::duration_findings;
use crate::shape::triggers::request::request_host_findings;
use crate::shape::type_laws::lemma_action_types;
use crate::text::{one_of, one_of_ignoring_case, same_ignoring_case};
use crate::workflow::Workflow;

verus! {

proof fn lemma_labels()
    ensures
        "action"@ != "trigger"@,
{
    reveal_strlit("action");
    reveal_strlit("trigger");
    assert("action"@.len() == 6 && "action"@[0] == 'a');
    assert("trigger"@.len() == 7 && "trigger"@[0] == 't');
}

/// A node with these members has nothing else that nodes share.
proof fn lemma_besides_trackedproperties(node: &Node)
    requires
        holds_only(node, seq!["type"@, "inputs"@, "trackedProperties"@]),
    ensures
        field(node, "description"@) is None,
        field(node, "operationOptions"@) is None,
        field(node, "runtimeConfiguration"@) is None,
        field(node, "limit"@) is None,
        field(node, "kind"@) is None,
{
    reveal_strlit("type");
    reveal_strlit("inputs");
    reveal_strlit("trackedProperties");
    reveal_strlit("description");
    reveal_strlit("operationOptions");
    reveal_strlit("runtimeConfiguration");
    reveal_strlit("limit");
    reveal_strlit("kind");
    assert("type"@.len() == 4 && "type"@[0] == 't');
    assert("inputs"@.len() == 6 && "inputs"@[0] == 'i');
    assert("trackedProperties"@.len() == 17 && "trackedProperties"@[0] == 't');
    assert("description"@.len() == 11 && "description"@[0] == 'd');
    assert("operationOptions"@.len() == 16 && "operationOptions"@[0] == 'o');
    assert("runtimeConfiguration"@.len() == 20 && "runtimeConfiguration"@[0] == 'r');
    assert("limit"@.len() == 5 && "limit"@[0] == 'l');
    assert("kind"@.len() == 4 && "kind"@[0] == 'k');
    let keys = seq!["type"@, "inputs"@, "trackedProperties"@];
    if field(node, "description"@) is Some {
        assert(keys.contains("description"@));
        let i = choose|i: int| 0 <= i < keys.len() && keys[i] == "description"@;
        assert(keys[i] == "description"@);
    }
    if field(node, "operationOptions"@) is Some {
        assert(keys.contains("operationOptions"@));
        let i = choose|i: int| 0 <= i < keys.len() && keys[i] == "operationOptions"@;
        assert(keys[i] == "operationOptions"@);
    }
    if field(node, "runtimeConfiguration"@) is Some {
        assert(keys.contains("runtimeConfiguration"@));
        let i = choose|i: int| 0 <= i < keys.len() && keys[i] == "runtimeConfiguration"@;
        assert(keys[i] == "runtimeConfiguration"@);
    }
    if field(node, "limit"@) is Some {
        assert(keys.contains("limit"@));
        let i = choose|i: int| 0 <= i < keys.len() && keys[i] == "limit"@;
        assert(keys[i] == "limit"@);
    }
    if field(node, "kind"@) is Some {
        assert(keys.contains("kind"@));
        let i = choose|i: int| 0 <= i < keys.len() && keys[i] == "kind"@;
        assert(keys[i] == "kind"@);
    }
}

/// A trigger with properties to track is never clean.
pub proof fn law_triggers_track_nothing(
    node: &Node,
    kind: Seq<char>,
    properties: &Node,
    pointer: Seq<char>,
    file: &Document,
    workflow: &Workflow,
    scope: &ArmScope,
)
    requires
        is_plain(file, scope),
        holds_only(node, seq!["type"@, "inputs"@, "trackedProperties"@]),
        text_field(node, "type"@) == Some(kind),
        field(node, "trackedProperties"@) == Some(*properties),
        !(properties.kind is Null),
    ensures
        (common_findings(node, pointer, "trigger"@, file, workflow, scope).len() == 0) == (false),
{
    lemma_plain(file, scope);
    lemma_labels();
    lemma_besides_trackedproperties(node);
}

/// The properties that an action tracks are clean exactly where they are an object
/// of at most 8000 characters of JSON text.
pub proof fn law_tracked_properties_are_short(
    node: &Node,
    kind: Seq<char>,
    properties: &Node,
    pointer: Seq<char>,
    file: &Document,
    workflow: &Workflow,
    scope: &ArmScope,
)
    requires
        is_plain(file, scope),
        holds_only(node, seq!["type"@, "inputs"@, "trackedProperties"@]),
        text_field(node, "type"@) == Some(kind),
        field(node, "trackedProperties"@) == Some(*properties),
        !(properties.kind is Null),
    ensures
        (common_findings(node, pointer, "action"@, file, workflow, scope).len() == 0) == (properties.kind is Object && (match json_text(*properties) {
            Some(text) => text.len() <= 8000,
            None => true,
        })),
{
    lemma_plain(file, scope);
    lemma_labels();
    lemma_besides_trackedproperties(node);
    assert(!is_chunked(node, file));
    assert(!has_secure_data(file, node));
}

/// A node with these members has nothing else that nodes share.
proof fn lemma_two_alone(node: &Node)
    requires
        holds_only(node, seq!["type"@, "inputs"@, "operationOptions"@, "runtimeConfiguration"@]),
    ensures
        field(node, "description"@) is None,
        field(node, "limit"@) is None,
        field(node, "trackedProperties"@) is None,
        field(node, "kind"@) is None,
{
    reveal_strlit("type");
    reveal_strlit("inputs");
    reveal_strlit("operationOptions");
    reveal_strlit("runtimeConfiguration");
    reveal_strlit("description");
    reveal_strlit("limit");
    reveal_strlit("trackedProperties");
    reveal_strlit("kind");
    assert("type"@.len() == 4 && "type"@[0] == 't');
    assert("inputs"@.len() == 6 && "inputs"@[0] == 'i');
    assert("operationOptions"@.len() == 16 && "operationOptions"@[0] == 'o');
    assert("runtimeConfiguration"@.len() == 20 && "runtimeConfiguration"@[0] == 'r');
    assert("description"@.len() == 11 && "description"@[0] == 'd');
    assert("limit"@.len() == 5 && "limit"@[0] == 'l');
    assert("trackedProperties"@.len() == 17 && "trackedProperties"@[0] == 't');
    assert("kind"@.len() == 4 && "kind"@[0] == 'k');
    let keys = seq!["type"@, "inputs"@, "operationOptions"@, "runtimeConfiguration"@];
    if field(node, "description"@) is Some {
        assert(keys.contains("description"@));
        let i = choose|i: int| 0 <= i < keys.len() && keys[i] == "description"@;
        assert(keys[i] == "description"@);
    }
    if field(node, "limit"@) is Some {
        assert(keys.contains("limit"@));
        let i = choose|i: int| 0 <= i < keys.len() && keys[i] == "limit"@;
        assert(keys[i] == "limit"@);
    }
    if field(node, "trackedProperties"@) is Some {
        assert(keys.contains("trackedProperties"@));
        let i = choose|i: int| 0 <= i < keys.len() && keys[i] == "trackedProperties"@;
        assert(keys[i] == "trackedProperties"@);
    }
    if field(node, "kind"@) is Some {
        assert(keys.contains("kind"@));
        let i = choose|i: int| 0 <= i < keys.len() && keys[i] == "kind"@;
        assert(keys[i] == "kind"@);
    }
}

/// A runtime configuration with this member has nothing else.
proof fn lemma_concurrency_alone(node: &Node)
    requires
        holds_only(node, seq!["concurrency"@]),
    ensures
        field(node, "maximumWaitingRuns"@) is None,
        field(node, "paginationPolicy"@) is None,
        field(node, "contentTransfer"@) is None,
        field(node, "secureData"@) is None,
        field(node, "staticResult"@) is None,
{
    reveal_strlit("concurrency");
    reveal_strlit("maximumWaitingRuns");
    reveal_strlit("paginationPolicy");
    reveal_strlit("contentTransfer");
    reveal_strlit("secureData");
    reveal_strlit("staticResult");
    assert("concurrency"@.len() == 11 && "concurrency"@[0] == 'c');
    assert("maximumWaitingRuns"@.len() == 18 && "maximumWaitingRuns"@[0] == 'm');
    assert("paginationPolicy"@.len() == 16 && "paginationPolicy"@[0] == 'p');
    assert("contentTransfer"@.len() == 15 && "contentTransfer"@[0] == 'c');
    assert("secureData"@.len() == 10 && "secureData"@[0] == 's');
    assert("staticResult"@.len() == 12 && "staticResult"@[0] == 's');
    let keys = seq!["concurrency"@];
    if field(node, "maximumWaitingRuns"@) is Some {
        assert(keys.contains("maximumWaitingRuns"@));
        let i = choose|i: int| 0 <= i < keys.len() && keys[i] == "maximumWaitingRuns"@;
        assert(keys[i] == "maximumWaitingRuns"@);
    }
    if field(node, "paginationPolicy"@) is Some {
        assert(keys.contains("paginationPolicy"@));
        let i = choose|i: int| 0 <= i < keys.len() && keys[i] == "paginationPolicy"@;
        assert(keys[i] == "paginationPolicy"@);
    }
    if field(node, "contentTransfer"@) is Some {
        assert(keys.contains("contentTransfer"@));
        let i = choose|i: int| 0 <= i < keys.len() && keys[i] == "contentTransfer"@;
        assert(keys[i] == "contentTransfer"@);
    }
    if field(node, "secureData"@) is Some {
        assert(keys.contains("secureData"@));
        let i = choose|i: int| 0 <= i < keys.len() && keys[i] == "secureData"@;
        assert(keys[i] == "secureData"@);
    }
    if field(node, "staticResult"@) is Some {
        assert(keys.contains("staticResult"@));
        let i = choose|i: int| 0 <= i < keys.len() && keys[i] == "staticResult"@;
        assert(keys[i] == "staticResult"@);
    }
}

/// Concurrency with these members has nothing else.
proof fn lemma_waiting_alone(node: &Node)
    requires
        holds_only(node, seq!["runs"@, "maximumWaitingRuns"@]),
    ensures
        field(node, "repetitions"@) is None,
{
    reveal_strlit("runs");
    reveal_strlit("maximumWaitingRuns");
    reveal_strlit("repetitions");
    assert("runs"@.len() == 4 && "runs"@[0] == 'r');
    assert("maximumWaitingRuns"@.len() == 18 && "maximumWaitingRuns"@[0] == 'm');
    assert("repetitions"@.len() == 11 && "repetitions"@[0] == 'r');
    let keys = seq!["runs"@, "maximumWaitingRuns"@];
    if field(node, "repetitions"@) is Some {
        assert(keys.contains("repetitions"@));
        let i = choose|i: int| 0 <= i < keys.len() && keys[i] == "repetitions"@;
        assert(keys[i] == "repetitions"@);
    }
}

proof fn lemma_trigger_option_names(name: Seq<char>)
    ensures
        one_of(name, trigger_option_names()) == (name == "IncludeAuthorizationHeadersInOutputs"@ || name == "SingleInstance"@ || name == "SuppressWorkflowHeadersOnResponse"@),
{
    let list = trigger_option_names();
    if one_of(name, list) {
        let k = choose|k: int| 0 <= k < list.len() && list[k] == name;
        assert(list[k] == name);
    }
    assert(list[0] == "IncludeAuthorizationHeadersInOutputs"@);
    assert(list[1] == "SingleInstance"@);
    assert(list[2] == "SuppressWorkflowHeadersOnResponse"@);
}

/// A trigger of a single instance is clean exactly where the workflow keeps state,
/// it is not given a number of runs, and 11 runs or more may wait, up to 100, or 200
/// in a Standard workflow, and none of a recurrence.
#[verifier::rlimit(60)]
pub proof fn law_single_instances_run_alone(
    node: &Node,
    kind: Seq<char>,
    runtime: &Node,
    concurrency: &Node,
    waiting: u64,
    runs: Option<u64>,
    pointer: Seq<char>,
    file: &Document,
    workflow: &Workflow,
    scope: &ArmScope,
)
    requires
        is_plain(file, scope),
        holds_only(node, seq!["type"@, "inputs"@, "operationOptions"@, "runtimeConfiguration"@]),
        text_field(node, "type"@) == Some(kind),
        text_field(node, "operationOptions"@) == Some("SingleInstance"@),
        field(node, "runtimeConfiguration"@) == Some(*runtime),
        runtime.kind is Object,
        holds_only(runtime, seq!["concurrency"@]),
        field(runtime, "concurrency"@) == Some(*concurrency),
        concurrency.kind is Object,
        holds_only(concurrency, seq!["runs"@, "maximumWaitingRuns"@]),
        field(concurrency, "maximumWaitingRuns"@) is Some,
        (field(concurrency, "maximumWaitingRuns"@)->Some_0).kind == Json::Number(
            Number::PosInt(waiting),
        ),
        match runs {
            Some(count) => field(concurrency, "runs"@) is Some && (field(
                concurrency,
                "runs"@,
            )->Some_0).kind == Json::Number(Number::PosInt(count)),
            None => field(concurrency, "runs"@) is None,
        },
    ensures
        (common_findings(node, pointer, "trigger"@, file, workflow, scope).len() == 0) == {
            &&& keeps_state(workflow)
            &&& runs is None
            &&& 11 <= waiting <= (if workflow.kind is Some {
                200int
            } else {
                100
            })
            &&& !same_ignoring_case(kind, "Recurrence"@)
        },
{
    lemma_plain(file, scope);
    lemma_labels();
    lemma_two_alone(node);
    lemma_concurrency_alone(runtime);
    lemma_waiting_alone(concurrency);
    let word = "SingleInstance"@;
    lemma_single();
    lemma_unmarked_is_literal(word);
    law_options_are_read_one_by_one(word, ',', Seq::empty());
    let tokens = option_tokens(word);
    assert(tokens.len() == 1 && tokens[0] == word);
    assert(tokens.contains(word));
    assert(option_enabled(word, word));
    lemma_trigger_option_names(word);
    let options = field(node, "operationOptions"@)->Some_0;
    let found = option_findings(node, &options, word, pointer, "trigger"@, file, workflow);
    assert((found.len() == 0) == keeps_state(workflow)) by {
        reveal_strlit("IncludeAuthorizationHeadersInOutputs");
        reveal_strlit("SingleInstance");
        reveal_strlit("SuppressWorkflowHeadersOnResponse");
        assert("IncludeAuthorizationHeadersInOutputs"@.len() == 36 && "IncludeAuthorizationHeadersInOutputs"@[0] == 'I');
        assert("SingleInstance"@.len() == 14 && "SingleInstance"@[0] == 'S');
        assert("SuppressWorkflowHeadersOnResponse"@.len() == 33 && "SuppressWorkflowHeadersOnResponse"@[0] == 'S');
    }
    assert(option_list_findings(tokens, 0, node, &options, pointer, "trigger"@, file, workflow).len()
        == 0);
    assert(option_list_findings(
        tokens,
        1,
        node,
        &options,
        pointer,
        "trigger"@,
        file,
        workflow,
    ).len() == found.len());
    assert(!option_enabled(word, "Sequential"@)) by {
        reveal_strlit("Sequential");
        reveal_strlit("SingleInstance");
        assert("Sequential"@.len() == 10 && "Sequential"@[0] == 'S');
        assert("SingleInstance"@.len() == 14 && "SingleInstance"@[0] == 'S');
        if tokens.contains("Sequential"@) {
            let i = choose|i: int| 0 <= i < tokens.len() && tokens[i] == "Sequential"@;
            assert(tokens[i] == word);
        }
    }
    let conflict = option_conflict_findings(node, pointer, "trigger"@, file);
    assert((conflict.len() == 0) == (runs is None));
    if runs is None {
        assert(is_single(node, file));
        assert(least_waiting(node, concurrency, file) == 11);
    }
    let at = joined(joined(pointer, "runtimeConfiguration"@), "concurrency"@);
    let object = concurrency_object_findings(
        concurrency,
        at,
        node,
        true,
        "trigger"@,
        file,
        workflow,
    );
    let listed = options_findings(node, pointer, "trigger"@, file, workflow);
    assert(listed.len() == found.len());
    let configured = runtime_findings(node, true, pointer, "trigger"@, file, workflow, scope);
    assert(configured.len() == object.len());
    let shared = common_findings(node, pointer, "trigger"@, file, workflow, scope);
    assert((shared.len() == 0) == (listed.len() == 0 && configured.len() == 0 && conflict.len()
        == 0));
    assert(runs is None ==> (object.len() == 0) == (keeps_state(workflow) && 11 <= waiting <= (if workflow.kind is Some {
        200int
    } else {
        100
    }) && !same_ignoring_case(kind, "Recurrence"@)));
}

proof fn lemma_single()
    ensures
        is_option_word("SingleInstance"@),
        is_unmarked("SingleInstance"@),
{
    reveal_strlit("SingleInstance");
    assert("SingleInstance"@.len() == 14);
    assert("SingleInstance"@[0] == 'S');
    assert("SingleInstance"@[1] == 'i');
    assert("SingleInstance"@[2] == 'n');
    assert("SingleInstance"@[3] == 'g');
    assert("SingleInstance"@[4] == 'l');
    assert("SingleInstance"@[5] == 'e');
    assert("SingleInstance"@[6] == 'I');
    assert("SingleInstance"@[7] == 'n');
    assert("SingleInstance"@[8] == 's');
    assert("SingleInstance"@[9] == 't');
    assert("SingleInstance"@[10] == 'a');
    assert("SingleInstance"@[11] == 'n');
    assert("SingleInstance"@[12] == 'c');
    assert("SingleInstance"@[13] == 'e');
}

/// An action with these members has nothing else.
proof fn lemma_keys_of_loops_end_by_time_or_count(node: &Node)
    requires
        holds_only(node, seq!["type"@, "expression"@, "actions"@, "limit"@]),
    ensures
        field(node, "description"@) is None,
        field(node, "operationOptions"@) is None,
        field(node, "runtimeConfiguration"@) is None,
        field(node, "trackedProperties"@) is None,
        field(node, "kind"@) is None,
        field(node, "runAfter"@) is None,
        field(node, "cases"@) is None,
        field(node, "default"@) is None,
        field(node, "else"@) is None,
        field(node, "tools"@) is None,
{
    reveal_strlit("type");
    reveal_strlit("expression");
    reveal_strlit("actions");
    reveal_strlit("limit");
    reveal_strlit("description");
    reveal_strlit("operationOptions");
    reveal_strlit("runtimeConfiguration");
    reveal_strlit("trackedProperties");
    reveal_strlit("kind");
    reveal_strlit("runAfter");
    reveal_strlit("cases");
    reveal_strlit("default");
    reveal_strlit("else");
    reveal_strlit("tools");
    assert("type"@.len() == 4 && "type"@[0] == 't');
    assert("expression"@.len() == 10 && "expression"@[0] == 'e');
    assert("actions"@.len() == 7 && "actions"@[0] == 'a');
    assert("limit"@.len() == 5 && "limit"@[0] == 'l');
    assert("description"@.len() == 11 && "description"@[0] == 'd');
    assert("operationOptions"@.len() == 16 && "operationOptions"@[0] == 'o');
    assert("runtimeConfiguration"@.len() == 20 && "runtimeConfiguration"@[0] == 'r');
    assert("trackedProperties"@.len() == 17 && "trackedProperties"@[0] == 't');
    assert("kind"@.len() == 4 && "kind"@[0] == 'k');
    assert("runAfter"@.len() == 8 && "runAfter"@[0] == 'r');
    assert("cases"@.len() == 5 && "cases"@[0] == 'c');
    assert("default"@.len() == 7 && "default"@[0] == 'd');
    assert("else"@.len() == 4 && "else"@[0] == 'e');
    assert("tools"@.len() == 5 && "tools"@[0] == 't');
    let keys = seq!["type"@, "expression"@, "actions"@, "limit"@];
    if field(node, "description"@) is Some {
        assert(keys.contains("description"@));
        let i = choose|i: int| 0 <= i < keys.len() && keys[i] == "description"@;
        assert(keys[i] == "description"@);
    }
    if field(node, "operationOptions"@) is Some {
        assert(keys.contains("operationOptions"@));
        let i = choose|i: int| 0 <= i < keys.len() && keys[i] == "operationOptions"@;
        assert(keys[i] == "operationOptions"@);
    }
    if field(node, "runtimeConfiguration"@) is Some {
        assert(keys.contains("runtimeConfiguration"@));
        let i = choose|i: int| 0 <= i < keys.len() && keys[i] == "runtimeConfiguration"@;
        assert(keys[i] == "runtimeConfiguration"@);
    }
    if field(node, "trackedProperties"@) is Some {
        assert(keys.contains("trackedProperties"@));
        let i = choose|i: int| 0 <= i < keys.len() && keys[i] == "trackedProperties"@;
        assert(keys[i] == "trackedProperties"@);
    }
    if field(node, "kind"@) is Some {
        assert(keys.contains("kind"@));
        let i = choose|i: int| 0 <= i < keys.len() && keys[i] == "kind"@;
        assert(keys[i] == "kind"@);
    }
    if field(node, "runAfter"@) is Some {
        assert(keys.contains("runAfter"@));
        let i = choose|i: int| 0 <= i < keys.len() && keys[i] == "runAfter"@;
        assert(keys[i] == "runAfter"@);
    }
    if field(node, "cases"@) is Some {
        assert(keys.contains("cases"@));
        let i = choose|i: int| 0 <= i < keys.len() && keys[i] == "cases"@;
        assert(keys[i] == "cases"@);
    }
    if field(node, "default"@) is Some {
        assert(keys.contains("default"@));
        let i = choose|i: int| 0 <= i < keys.len() && keys[i] == "default"@;
        assert(keys[i] == "default"@);
    }
    if field(node, "else"@) is Some {
        assert(keys.contains("else"@));
        let i = choose|i: int| 0 <= i < keys.len() && keys[i] == "else"@;
        assert(keys[i] == "else"@);
    }
    if field(node, "tools"@) is Some {
        assert(keys.contains("tools"@));
        let i = choose|i: int| 0 <= i < keys.len() && keys[i] == "tools"@;
        assert(keys[i] == "tools"@);
    }
}

/// An `Until` action over a condition and no actions, with a time limit at most, is
/// clean exactly where it has one.
pub proof fn law_loops_end_by_time_or_count(
    action: &Node,
    kind: Seq<char>,
    limit: &Node,
    digits: Seq<char>,
    unit: char,
    pointer: Seq<char>,
    container: Seq<char>,
    file: &Document,
    workflow: &Workflow,
    scope: &ArmScope,
)
    requires
        is_plain(file, scope),
        holds_only(action, seq!["type"@, "expression"@, "actions"@, "limit"@]),
        text_field(action, "type"@) == Some(kind),
        same_ignoring_case(kind, "Until"@),
        field(action, "expression"@) is Some,
        (field(action, "expression"@)->Some_0).kind is String,
        field(action, "actions"@) is Some,
        is_empty_object(&(field(action, "actions"@)->Some_0)),
        field(action, "limit"@) == Some(*limit),
        limit.kind is Object,
        holds_only(limit, seq!["timeout"@]),
        is_run(digits),
        unit == 'S' || unit == 'M' || unit == 'H',
        field(limit, "timeout"@) is Some ==> text_field(limit, "timeout"@) == Some(
            seq!['P', 'T'] + digits + seq![unit],
        ),
    ensures
        (authored_action_findings(action, pointer, container, file, workflow, scope).len() == 0)
            == (field(limit, "timeout"@) is Some),
{
    lemma_plain(file, scope);
    lemma_keys_of_loops_end_by_time_or_count(action);
    lemma_action_types(kind);
    lemma_action_parts(action, pointer, container, file, workflow, scope, kind, ActionSpec::Until);
    let typed = typed_action_findings(
        ActionSpec::Until,
        action,
        pointer,
        container,
        kind,
        file,
        workflow,
    );
    let shared = common_findings(action, pointer, "action"@, file, workflow, scope);
    let below = nested_findings(action, pointer, false, Some(kind), file, workflow, scope);
    law_classes_go_by_type(kind);
    lemma_timeout_alone(limit);
    let text = seq!['P', 'T'] + digits + seq![unit];
    law_components_are_durations(digits, unit);
    assert forall|i: int| 0 <= i < text.len() implies #[trigger] text[i] != '@' by {
        if 2 <= i < text.len() - 1 {
            assert(text[i] == digits[i - 2]);
        }
    }
    lemma_unmarked_is_literal(text);
    lemma_labels();
    let named = crate::shape::common::limit_action_type_names();
    assert(named[4] == "Until"@);
    assert(one_of_ignoring_case(kind, named));
    assert(shared.len() == 0);
    assert(below.len() == 0);
}

/// A limit with this member has nothing else.
proof fn lemma_timeout_alone(node: &Node)
    requires
        holds_only(node, seq!["timeout"@]),
    ensures
        field(node, "count"@) is None,
{
    reveal_strlit("timeout");
    reveal_strlit("count");
    assert("timeout"@.len() == 7 && "timeout"@[0] == 't');
    assert("count"@.len() == 5 && "count"@[0] == 'c');
    let keys = seq!["timeout"@];
    if field(node, "count"@) is Some {
        assert(keys.contains("count"@));
        let i = choose|i: int| 0 <= i < keys.len() && keys[i] == "count"@;
        assert(keys[i] == "count"@);
    }
}

proof fn lemma_conditions(
    items: Seq<Node>,
    n: nat,
    base: Seq<char>,
    file: &Document,
    scope: &ArmScope,
)
    requires
        is_plain(file, scope),
        n <= items.len(),
        forall|i: int|
            0 <= i < items.len() ==> (field(#[trigger] &items[i], "expression"@) is Some ==> !((
            field(&items[i], "expression"@)->Some_0).kind is Null)) && (field(
                &items[i],
                "dependsOn"@,
            ) is Some ==> !((field(&items[i], "dependsOn"@)->Some_0).kind is Null)),
    ensures
        (condition_findings(items, n, base, file).len() == 0) == (forall|i: int|
            0 <= i < n ==> is_condition(#[trigger] &items[i])),
    decreases n,
{
    lemma_plain(file, scope);
    if n > 0 {
        lemma_conditions(items, (n - 1) as nat, base, file, scope);
        let item = &items[n - 1];
        assert(field(item, "expression"@) is Some ==> !((field(
            item,
            "expression"@,
        )->Some_0).kind is Null));
    }
}

/// A condition is an object of texts.
pub open spec fn is_condition(node: &Node) -> bool {
    &&& node.kind is Object
    &&& field(node, "expression"@) is Some ==> is_text(node, "expression"@)
    &&& field(node, "dependsOn"@) is Some ==> is_text(node, "dependsOn"@)
}

/// The conditions of a trigger are clean exactly where each is an object of texts.
pub proof fn law_conditions_are_texts(
    trigger: &Node,
    items: Vec<Node>,
    pointer: Seq<char>,
    file: &Document,
    scope: &ArmScope,
)
    requires
        is_plain(file, scope),
        holds_only(trigger, seq!["type"@, "inputs"@, "recurrence"@, "conditions"@]),
        field(trigger, "conditions"@) is Some,
        (field(trigger, "conditions"@)->Some_0).kind == Json::Array(items),
        forall|i: int|
            0 <= i < items@.len() ==> (field(#[trigger] &items@[i], "expression"@) is Some ==> !((
            field(&items@[i], "expression"@)->Some_0).kind is Null)) && (field(
                &items@[i],
                "dependsOn"@,
            ) is Some ==> !((field(&items@[i], "dependsOn"@)->Some_0).kind is Null)),
    ensures
        (trigger_common_findings(trigger, pointer, file).len() == 0) == (forall|i: int|
            0 <= i < items@.len() ==> is_condition(#[trigger] &items@[i])),
{
    lemma_plain(file, scope);
    lemma_conditions_alone(trigger);
    lemma_conditions(items@, items@.len(), joined(pointer, "conditions"@), file, scope);
}

/// A trigger with these members has nothing else.
proof fn lemma_conditions_alone(node: &Node)
    requires
        holds_only(node, seq!["type"@, "inputs"@, "recurrence"@, "conditions"@]),
    ensures
        field(node, "splitOn"@) is None,
        field(node, "correlation"@) is None,
        field(node, "splitOnConfiguration"@) is None,
{
    reveal_strlit("type");
    reveal_strlit("inputs");
    reveal_strlit("recurrence");
    reveal_strlit("conditions");
    reveal_strlit("splitOn");
    reveal_strlit("correlation");
    reveal_strlit("splitOnConfiguration");
    assert("type"@.len() == 4 && "type"@[0] == 't');
    assert("inputs"@.len() == 6 && "inputs"@[0] == 'i');
    assert("recurrence"@.len() == 10 && "recurrence"@[0] == 'r');
    assert("conditions"@.len() == 10 && "conditions"@[0] == 'c');
    assert("splitOn"@.len() == 7 && "splitOn"@[0] == 's');
    assert("correlation"@.len() == 11 && "correlation"@[0] == 'c');
    assert("splitOnConfiguration"@.len() == 20 && "splitOnConfiguration"@[0] == 's');
    let keys = seq!["type"@, "inputs"@, "recurrence"@, "conditions"@];
    if field(node, "splitOn"@) is Some {
        assert(keys.contains("splitOn"@));
        let i = choose|i: int| 0 <= i < keys.len() && keys[i] == "splitOn"@;
        assert(keys[i] == "splitOn"@);
    }
    if field(node, "correlation"@) is Some {
        assert(keys.contains("correlation"@));
        let i = choose|i: int| 0 <= i < keys.len() && keys[i] == "correlation"@;
        assert(keys[i] == "correlation"@);
    }
    if field(node, "splitOnConfiguration"@) is Some {
        assert(keys.contains("splitOnConfiguration"@));
        let i = choose|i: int| 0 <= i < keys.len() && keys[i] == "splitOnConfiguration"@;
        assert(keys[i] == "splitOnConfiguration"@);
    }
}

/// A correlation of a trigger, its own or that of its splitting, is clean exactly
/// where it is an object and its tracking identifier, if any, is a text.
pub proof fn law_correlations_are_objects(
    trigger: &Node,
    split: &Node,
    own: &Node,
    other: &Node,
    pointer: Seq<char>,
    file: &Document,
    scope: &ArmScope,
)
    requires
        is_plain(file, scope),
        holds_only(
            trigger,
            seq!["type"@, "inputs"@, "recurrence"@, "correlation"@, "splitOnConfiguration"@],
        ),
        field(trigger, "correlation"@) == Some(*own),
        !(own.kind is Null),
        field(trigger, "splitOnConfiguration"@) == Some(*split),
        split.kind is Object,
        field(split, "correlation"@) == Some(*other),
        !(other.kind is Null),
        field(own, "clientTrackingId"@) is Some ==> !((field(
            own,
            "clientTrackingId"@,
        )->Some_0).kind is Null),
        field(other, "clientTrackingId"@) is Some ==> !((field(
            other,
            "clientTrackingId"@,
        )->Some_0).kind is Null),
    ensures
        (trigger_common_findings(trigger, pointer, file).len() == 0) == {
            &&& own.kind is Object
            &&& other.kind is Object
            &&& field(own, "clientTrackingId"@) is Some ==> is_text(own, "clientTrackingId"@)
            &&& field(other, "clientTrackingId"@) is Some ==> is_text(other, "clientTrackingId"@)
        },
{
    lemma_plain(file, scope);
    lemma_correlations_alone(trigger);
}

/// A trigger with these members has nothing else.
proof fn lemma_correlations_alone(node: &Node)
    requires
        holds_only(node, seq!["type"@, "inputs"@, "recurrence"@, "correlation"@, "splitOnConfiguration"@]),
    ensures
        field(node, "splitOn"@) is None,
        field(node, "conditions"@) is None,
{
    reveal_strlit("type");
    reveal_strlit("inputs");
    reveal_strlit("recurrence");
    reveal_strlit("correlation");
    reveal_strlit("splitOnConfiguration");
    reveal_strlit("splitOn");
    reveal_strlit("conditions");
    assert("type"@.len() == 4 && "type"@[0] == 't');
    assert("inputs"@.len() == 6 && "inputs"@[0] == 'i');
    assert("recurrence"@.len() == 10 && "recurrence"@[0] == 'r');
    assert("correlation"@.len() == 11 && "correlation"@[0] == 'c');
    assert("splitOnConfiguration"@.len() == 20 && "splitOnConfiguration"@[0] == 's');
    assert("splitOn"@.len() == 7 && "splitOn"@[0] == 's');
    assert("conditions"@.len() == 10 && "conditions"@[0] == 'c');
    let keys = seq!["type"@, "inputs"@, "recurrence"@, "correlation"@, "splitOnConfiguration"@];
    if field(node, "splitOn"@) is Some {
        assert(keys.contains("splitOn"@));
        let i = choose|i: int| 0 <= i < keys.len() && keys[i] == "splitOn"@;
        assert(keys[i] == "splitOn"@);
    }
    if field(node, "conditions"@) is Some {
        assert(keys.contains("conditions"@));
        let i = choose|i: int| 0 <= i < keys.len() && keys[i] == "conditions"@;
        assert(keys[i] == "conditions"@);
    }
}

/// A duration to wait for is clean exactly where it is one.
pub proof fn law_delays_are_durations(
    inputs: &Node,
    text: Seq<char>,
    base: Seq<char>,
    key: Seq<char>,
    label: Seq<char>,
    file: &Document,
    scope: &ArmScope,
)
    requires
        is_plain(file, scope),
        text_field(inputs, key) == Some(text),
        is_unmarked(text),
    ensures
        (duration_findings(inputs, base, key, label, file).len() == 0)
            == crate::shape::time::is_duration(text),
{
    lemma_plain(file, scope);
    lemma_unmarked_is_literal(text);
}

/// The URL of the API behind a request is clean exactly where it is a URI.
pub proof fn law_apis_are_at_a_uri(
    inputs: &Node,
    host: &Node,
    api: &Node,
    text: Seq<char>,
    base: Seq<char>,
    file: &Document,
    scope: &ArmScope,
)
    requires
        is_plain(file, scope),
        field(inputs, "host"@) == Some(*host),
        host.kind is Object,
        field(host, "api"@) == Some(*api),
        api.kind is Object,
        text_field(api, "runtimeUrl"@) == Some(text),
        is_unmarked(text),
    ensures
        (request_host_findings(inputs, base, file).len() == 0) == is_uri(text),
{
    lemma_plain(file, scope);
    lemma_unmarked_is_literal(text);
}

/// A parameter that may have any value is clean exactly where the values that it
/// allows are a list and its description has at most 256 characters.
pub proof fn law_parameters_are_described(
    parameter: &Node,
    allowed: &Node,
    text: Seq<char>,
    pointer: Seq<char>,
    file: &Document,
    scope: &ArmScope,
)
    requires
        is_plain(file, scope),
        text_field(parameter, "type"@) == Some("String"@),
        field(parameter, "defaultValue"@) is None,
        field(parameter, "allowedValues"@) == Some(*allowed),
        !(allowed.kind is Null),
        text_field(parameter, "description"@) == Some(text),
    ensures
        (parameter_findings(parameter, pointer, false, file).len() == 0) == (allowed.kind is Array
            && text.len() <= 256),
{
    lemma_plain(file, scope);
    let names = crate::shape::definition_io::parameter_type_names();
    assert(names[7] == "String"@);
    assert(one_of("String"@, names));
    let body = parameter_body_findings(parameter, pointer, "String"@, false, file);
    assert((body.len() == 0) == (allowed.kind is Array && text.len() <= 256));
}

/// Properties that are tracked beside masked inputs or outputs are reported.
pub proof fn law_masked_actions_track_nothing(
    node: &Node,
    runtime: &Node,
    secure: &Node,
    items: Vec<Node>,
    at: int,
    pointer: Seq<char>,
    file: &Document,
    workflow: &Workflow,
    scope: &ArmScope,
)
    requires
        is_plain(file, scope),
        field(node, "trackedProperties"@) is Some,
        (field(node, "trackedProperties"@)->Some_0).kind is Object,
        field(node, "runtimeConfiguration"@) == Some(*runtime),
        field(runtime, "secureData"@) == Some(*secure),
        secure.kind is Object,
        field(secure, "properties"@) is Some,
        (field(secure, "properties"@)->Some_0).kind == Json::Array(items),
        0 <= at < items@.len(),
        text_of(&items@[at]) is Some,
        same_ignoring_case(text_of(&items@[at])->Some_0, "inputs"@) || same_ignoring_case(
            text_of(&items@[at])->Some_0,
            "outputs"@,
        ),
    ensures
        common_findings(node, pointer, "action"@, file, workflow, scope).len() > 0,
{
    lemma_plain(file, scope);
    let names = secure_property_names();
    assert(names[0] == "inputs"@ && names[1] == "outputs"@);
    assert(one_of_ignoring_case(text_of(&items@[at])->Some_0, names));
    assert(names_secure_property(&items@[at]));
    assert(some_secure_property(items@));
    assert(has_secure_data(file, node));
}

} // verus!
