//! What monthly occurrences, static results and webhooks are judged by.

use vstd::prelude::*;

use crate::arm::ArmScope;
use crate::json::{field, joined, text_field, Document, Json, Node, Number};
use crate::shape::actions::connectors::access_key_type_names;

use crate::shape::data_laws::is_text;
use crate::shape::http::{
    bounds_of, http_inputs_findings, request_method_names, webhook_findings,
    webhook_object_findings, WebhookOperationOptions, WebhookOperationString,
};
use crate::shape::http_laws::{is_host, is_word, law_urls_are_told_by_their_scheme};
use crate::shape::operations::authored_action_findings;
use crate::shape::plain_laws::{
    holds_only, is_plain, lemma_action_alone, lemma_action_by_type, lemma_plain,
};
use crate::shape::recurrence_laws::{
    is_unit_of_recurrence, is_unmarked, lemma_unmarked_is_literal,
};
use crate::shape::registry::ActionSpec;
use crate::shape::static_results::{
    entry_findings, error_entry_findings, failed_outputs_findings, is_http_result,
    static_result_status_names,
};
use crate::shape::triggers::recurrence::recurrence_frequency_names;
use crate::shape::triggers::schedule::{
    occurrence_findings, schedule_context_findings, schedule_findings, schedule_lists_findings,
    schedule_week_findings, week_day_names,
};
use crate::shape::type_laws::lemma_action_types;
use crate::text::{folded, one_of, same_ignoring_case};
use crate::workflow::Workflow;
use vstd::utf8::{is_ascii_chars, is_ascii_chars_encode_utf8};

verus! {

proof fn lemma_week_day_names(name: Seq<char>)
    ensures
        one_of(name, week_day_names()) == (name == "Friday"@ || name == "Monday"@ || name == "Saturday"@ || name == "Sunday"@ || name == "Thursday"@ || name == "Tuesday"@ || name == "Wednesday"@),
{
    let list = week_day_names();
    if one_of(name, list) {
        let k = choose|k: int| 0 <= k < list.len() && list[k] == name;
        assert(list[k] == name);
    }
    assert(list[0] == "Friday"@);
    assert(list[1] == "Monday"@);
    assert(list[2] == "Saturday"@);
    assert(list[3] == "Sunday"@);
    assert(list[4] == "Thursday"@);
    assert(list[5] == "Tuesday"@);
    assert(list[6] == "Wednesday"@);
}

proof fn lemma_recurrence_frequency_names(name: Seq<char>)
    ensures
        one_of(name, recurrence_frequency_names()) == (name == "Second"@ || name == "Minute"@ || name == "Hour"@ || name == "Day"@ || name == "Week"@ || name == "Month"@ || name == "Year"@),
{
    let list = recurrence_frequency_names();
    if one_of(name, list) {
        let k = choose|k: int| 0 <= k < list.len() && list[k] == name;
        assert(list[k] == name);
    }
    assert(list[0] == "Second"@);
    assert(list[1] == "Minute"@);
    assert(list[2] == "Hour"@);
    assert(list[3] == "Day"@);
    assert(list[4] == "Week"@);
    assert(list[5] == "Month"@);
    assert(list[6] == "Year"@);
}

/// An occurrence is a week day and which of those of a month is meant, from
/// the front or from the back.
pub open spec fn is_occurrence(node: &Node) -> bool {
    &&& node.kind is Object
    &&& match field(node, "occurrence"@) {
        Some(value) => match value.kind {
            Json::Number(Number::PosInt(n)) => 1 <= n <= 5,
            Json::Number(Number::NegInt(n)) => -5 <= n <= 5 && n != 0,
            _ => false,
        },
        None => false,
    }
    &&& match text_field(node, "dayOfWeek"@) {
        Some(day) => day == "Friday"@ || day == "Monday"@ || day == "Saturday"@ || day == "Sunday"@ || day == "Thursday"@ || day == "Tuesday"@ || day == "Wednesday"@,
        None => false,
    }
}

proof fn lemma_occurrences(
    items: Seq<Node>,
    n: nat,
    base: Seq<char>,
    file: &Document,
    scope: &ArmScope,
)
    requires
        is_plain(file, scope),
        n <= items.len(),
        forall|i: int|
            0 <= i < items.len() ==> !((#[trigger] items[i]).kind is String) && (field(
                &items[i],
                "dayOfWeek"@,
            ) is Some ==> text_field(&items[i], "dayOfWeek"@) is Some && is_unmarked(
                text_field(&items[i], "dayOfWeek"@)->Some_0,
            )),
    ensures
        (occurrence_findings(items, n, base, file).len() == 0) == (forall|i: int|
            0 <= i < n ==> is_occurrence(#[trigger] &items[i])),
    decreases n,
{
    lemma_plain(file, scope);
    if n > 0 {
        lemma_occurrences(items, (n - 1) as nat, base, file, scope);
        let item = items[n - 1];
        if let Some(day) = text_field(&item, "dayOfWeek"@) {
            lemma_unmarked_is_literal(day);
            lemma_week_day_names(day);
        }
        assert(!(item.kind is String));
    }
}

/// A schedule with this member has nothing else.
proof fn lemma_occurrences_alone(node: &Node)
    requires
        holds_only(node, seq!["monthlyOccurrences"@]),
    ensures
        field(node, "hours"@) is None,
        field(node, "minutes"@) is None,
        field(node, "weekDays"@) is None,
        field(node, "monthDays"@) is None,
{
    reveal_strlit("monthlyOccurrences");
    reveal_strlit("hours");
    reveal_strlit("minutes");
    reveal_strlit("weekDays");
    reveal_strlit("monthDays");
    assert("monthlyOccurrences"@.len() == 18 && "monthlyOccurrences"@[0] == 'm');
    assert("hours"@.len() == 5 && "hours"@[0] == 'h');
    assert("minutes"@.len() == 7 && "minutes"@[0] == 'm');
    assert("weekDays"@.len() == 8 && "weekDays"@[0] == 'w');
    assert("monthDays"@.len() == 9 && "monthDays"@[0] == 'm');
    let keys = seq!["monthlyOccurrences"@];
    if field(node, "hours"@) is Some {
        assert(keys.contains("hours"@));
        let i = choose|i: int| 0 <= i < keys.len() && keys[i] == "hours"@;
        assert(keys[i] == "hours"@);
    }
    if field(node, "minutes"@) is Some {
        assert(keys.contains("minutes"@));
        let i = choose|i: int| 0 <= i < keys.len() && keys[i] == "minutes"@;
        assert(keys[i] == "minutes"@);
    }
    if field(node, "weekDays"@) is Some {
        assert(keys.contains("weekDays"@));
        let i = choose|i: int| 0 <= i < keys.len() && keys[i] == "weekDays"@;
        assert(keys[i] == "weekDays"@);
    }
    if field(node, "monthDays"@) is Some {
        assert(keys.contains("monthDays"@));
        let i = choose|i: int| 0 <= i < keys.len() && keys[i] == "monthDays"@;
        assert(keys[i] == "monthDays"@);
    }
}

/// A schedule of monthly occurrences is clean exactly where the unit is the month
/// and each occurrence is one of the first or last five of a week day.
pub proof fn law_occurrences_are_within_a_month(
    recurrence: &Node,
    schedule: &Node,
    items: Vec<Node>,
    unit: Seq<char>,
    pointer: Seq<char>,
    file: &Document,
    scope: &ArmScope,
)
    requires
        is_plain(file, scope),
        text_field(recurrence, "frequency"@) == Some(unit),
        is_unit_of_recurrence(unit),
        field(recurrence, "schedule"@) == Some(*schedule),
        schedule.kind is Object,
        holds_only(schedule, seq!["monthlyOccurrences"@]),
        field(schedule, "monthlyOccurrences"@) is Some,
        (field(schedule, "monthlyOccurrences"@)->Some_0).kind == Json::Array(items),
        forall|i: int|
            0 <= i < items@.len() ==> !((#[trigger] items@[i]).kind is String) && (field(
                &items@[i],
                "dayOfWeek"@,
            ) is Some ==> text_field(&items@[i], "dayOfWeek"@) is Some && is_unmarked(
                text_field(&items@[i], "dayOfWeek"@)->Some_0,
            )),
    ensures
        (schedule_findings(recurrence, pointer, file).len() == 0) == (unit == "Month"@ && forall|
            i: int,
        |
            0 <= i < items@.len() ==> is_occurrence(#[trigger] &items@[i])),
{
    lemma_plain(file, scope);
    lemma_occurrences_alone(schedule);
    lemma_recurrence_frequency_names(unit);
    let at = joined(pointer, "schedule"@);
    lemma_occurrences(items@, items@.len(), joined(at, "monthlyOccurrences"@), file, scope);
    lemma_units(unit);
    lemma_unmarked_is_literal(unit);
    let context = schedule_context_findings(schedule, at, unit, file);
    assert((context.len() == 0) == (unit == "Month"@));
    let lists = schedule_lists_findings(schedule, at, file);
    assert((lists.len() == 0) == (forall|i: int|
        0 <= i < items@.len() ==> is_occurrence(#[trigger] &items@[i])));
    assert(schedule_week_findings(recurrence, schedule, at, file).len() == 0);
}

proof fn lemma_static_result_status_names(name: Seq<char>)
    ensures
        one_of(name, static_result_status_names()) == (name == "Cancelled"@ || name == "Failed"@ || name == "Skipped"@ || name == "Succeeded"@),
{
    let list = static_result_status_names();
    if one_of(name, list) {
        let k = choose|k: int| 0 <= k < list.len() && list[k] == name;
        assert(list[k] == name);
    }
    assert(list[0] == "Cancelled"@);
    assert(list[1] == "Failed"@);
    assert(list[2] == "Skipped"@);
    assert(list[3] == "Succeeded"@);
}

/// A static result with these members has nothing else.
proof fn lemma_entry_alone(node: &Node)
    requires
        holds_only(node, seq!["status"@, "outputs"@]),
    ensures
        field(node, "error"@) is None,
{
    reveal_strlit("status");
    reveal_strlit("outputs");
    reveal_strlit("error");
    assert("status"@.len() == 6 && "status"@[0] == 's');
    assert("outputs"@.len() == 7 && "outputs"@[0] == 'o');
    assert("error"@.len() == 5 && "error"@[0] == 'e');
    let keys = seq!["status"@, "outputs"@];
    if field(node, "error"@) is Some {
        assert(keys.contains("error"@));
        let i = choose|i: int| 0 <= i < keys.len() && keys[i] == "error"@;
        assert(keys[i] == "error"@);
    }
}

/// The errors of a failed result are a list of messages.
pub open spec fn lists_errors(outputs: &Node) -> bool {
    match field(outputs, "errors"@) {
        Some(errors) => match errors.kind {
            Json::Array(items) => items@.len() > 0 && forall|i: int|
                0 <= i < items@.len() ==> (#[trigger] items@[i]).kind is Object && is_text(
                    &items@[i],
                    "message"@,
                ),
            _ => false,
        },
        None => false,
    }
}

/// No error is a text, and each message is one.
pub open spec fn has_plain_errors(outputs: &Node) -> bool {
    match field(outputs, "errors"@) {
        Some(errors) => !(errors.kind is String) && match errors.kind {
            Json::Array(items) => forall|i: int|
                0 <= i < items@.len() ==> !((#[trigger] items@[i]).kind is String) && (field(
                    &items@[i],
                    "message"@,
                ) is Some ==> !((field(&items@[i], "message"@)->Some_0).kind is Null)),
            _ => true,
        },
        None => true,
    }
}

proof fn lemma_errors(
    items: Seq<Node>,
    n: nat,
    base: Seq<char>,
    file: &Document,
    scope: &ArmScope,
)
    requires
        is_plain(file, scope),
        n <= items.len(),
        forall|i: int|
            0 <= i < items.len() ==> !((#[trigger] items[i]).kind is String) && (field(
                &items[i],
                "message"@,
            ) is Some ==> !((field(&items[i], "message"@)->Some_0).kind is Null)),
    ensures
        (error_entry_findings(items, n, base, file).len() == 0) == (forall|i: int|
            0 <= i < n ==> (#[trigger] items[i]).kind is Object && is_text(
                &items[i],
                "message"@,
            )),
    decreases n,
{
    lemma_plain(file, scope);
    if n > 0 {
        lemma_errors(items, (n - 1) as nat, base, file, scope);
        assert(!(items[n - 1].kind is String));
    }
}

/// A static result is clean exactly where its status is one that a static result
/// has, a failure lists its errors, and the success of an HTTP action has a status
/// code.
pub proof fn law_static_results_go_by_status(
    entry: &Node,
    outputs: &Node,
    status: Seq<char>,
    name: Seq<char>,
    pointer: Seq<char>,
    file: &Document,
    workflow: &Workflow,
    scope: &ArmScope,
)
    requires
        is_plain(file, scope),
        holds_only(entry, seq!["status"@, "outputs"@]),
        text_field(entry, "status"@) == Some(status),
        is_unmarked(status),
        field(entry, "outputs"@) == Some(*outputs),
        outputs.kind is Object,
        has_plain_errors(outputs),
    ensures
        (entry_findings(entry, pointer, name, file, workflow).len() == 0) == {
            ||| status == "Cancelled"@
            ||| status == "Skipped"@
            ||| status == "Failed"@ && lists_errors(outputs)
            ||| status == "Succeeded"@ && (is_http_result(workflow, name) ==> is_text(
                outputs,
                "statusCode"@,
            ))
        },
{
    lemma_plain(file, scope);
    lemma_entry_alone(entry);
    lemma_unmarked_is_literal(status);
    lemma_static_result_status_names(status);
    lemma_statuses_apart();
    let at = joined(pointer, "outputs"@);
    if let Some(errors) = field(outputs, "errors"@) {
        if let Json::Array(items) = errors.kind {
            lemma_errors(items@, items@.len(), joined(at, "errors"@), file, scope);
        }
    }
    assert((failed_outputs_findings(outputs, at, file).len() == 0) == lists_errors(outputs));
}

proof fn lemma_statuses_apart()
    ensures
        !same_ignoring_case("Cancelled"@, "Failed"@),
        !same_ignoring_case("Cancelled"@, "Succeeded"@),
        same_ignoring_case("Failed"@, "Failed"@),
        !same_ignoring_case("Failed"@, "Succeeded"@),
        !same_ignoring_case("Skipped"@, "Failed"@),
        !same_ignoring_case("Skipped"@, "Succeeded"@),
        !same_ignoring_case("Succeeded"@, "Failed"@),
        same_ignoring_case("Succeeded"@, "Succeeded"@),
        "Cancelled"@ != "Failed"@,
        "Cancelled"@ != "Skipped"@,
        "Cancelled"@ != "Succeeded"@,
        "Failed"@ != "Skipped"@,
        "Failed"@ != "Succeeded"@,
        "Skipped"@ != "Succeeded"@,
{
    reveal_strlit("Cancelled");
    reveal_strlit("Failed");
    reveal_strlit("Skipped");
    reveal_strlit("Succeeded");
    assert("Cancelled"@.len() == 9 && "Cancelled"@[0] == 'C');
    assert("Failed"@.len() == 6 && "Failed"@[0] == 'F');
    assert("Skipped"@.len() == 7 && "Skipped"@[0] == 'S');
    assert("Succeeded"@.len() == 9 && "Succeeded"@[0] == 'S');
    assert(!same_ignoring_case("Cancelled"@, "Failed"@)) by {
        reveal_strlit("Cancelled");
        reveal_strlit("Failed");
        assert("Cancelled"@.len() == 9 && "Failed"@.len() == 6);
    }
    assert(!same_ignoring_case("Cancelled"@, "Succeeded"@)) by {
        reveal_strlit("Cancelled");
        reveal_strlit("Succeeded");
        assert(folded("Cancelled"@[0]) == 'c' && folded("Succeeded"@[0]) == 's');
    }
    assert(same_ignoring_case("Failed"@, "Failed"@)) by {
        reveal_strlit("Failed");
        reveal_strlit("Failed");
        assert("Failed"@.len() == 6 && "Failed"@.len() == 6);
        assert(folded("Failed"@[0]) == 'f' && folded("Failed"@[0]) == 'f');
        assert(folded("Failed"@[1]) == 'a' && folded("Failed"@[1]) == 'a');
        assert(folded("Failed"@[2]) == 'i' && folded("Failed"@[2]) == 'i');
        assert(folded("Failed"@[3]) == 'l' && folded("Failed"@[3]) == 'l');
        assert(folded("Failed"@[4]) == 'e' && folded("Failed"@[4]) == 'e');
        assert(folded("Failed"@[5]) == 'd' && folded("Failed"@[5]) == 'd');
    }
    assert(!same_ignoring_case("Failed"@, "Succeeded"@)) by {
        reveal_strlit("Failed");
        reveal_strlit("Succeeded");
        assert("Failed"@.len() == 6 && "Succeeded"@.len() == 9);
    }
    assert(!same_ignoring_case("Skipped"@, "Failed"@)) by {
        reveal_strlit("Skipped");
        reveal_strlit("Failed");
        assert("Skipped"@.len() == 7 && "Failed"@.len() == 6);
    }
    assert(!same_ignoring_case("Skipped"@, "Succeeded"@)) by {
        reveal_strlit("Skipped");
        reveal_strlit("Succeeded");
        assert("Skipped"@.len() == 7 && "Succeeded"@.len() == 9);
    }
    assert(!same_ignoring_case("Succeeded"@, "Failed"@)) by {
        reveal_strlit("Succeeded");
        reveal_strlit("Failed");
        assert("Succeeded"@.len() == 9 && "Failed"@.len() == 6);
    }
    assert(same_ignoring_case("Succeeded"@, "Succeeded"@)) by {
        reveal_strlit("Succeeded");
        reveal_strlit("Succeeded");
        assert("Succeeded"@.len() == 9 && "Succeeded"@.len() == 9);
        assert(folded("Succeeded"@[0]) == 's' && folded("Succeeded"@[0]) == 's');
        assert(folded("Succeeded"@[1]) == 'u' && folded("Succeeded"@[1]) == 'u');
        assert(folded("Succeeded"@[2]) == 'c' && folded("Succeeded"@[2]) == 'c');
        assert(folded("Succeeded"@[3]) == 'c' && folded("Succeeded"@[3]) == 'c');
        assert(folded("Succeeded"@[4]) == 'e' && folded("Succeeded"@[4]) == 'e');
        assert(folded("Succeeded"@[5]) == 'e' && folded("Succeeded"@[5]) == 'e');
        assert(folded("Succeeded"@[6]) == 'd' && folded("Succeeded"@[6]) == 'd');
        assert(folded("Succeeded"@[7]) == 'e' && folded("Succeeded"@[7]) == 'e');
        assert(folded("Succeeded"@[8]) == 'd' && folded("Succeeded"@[8]) == 'd');
    }
}

proof fn lemma_units(unit: Seq<char>)
    requires
        is_unit_of_recurrence(unit),
    ensures
        is_unmarked(unit),
{
    reveal_strlit("Second");
    reveal_strlit("Minute");
    reveal_strlit("Hour");
    reveal_strlit("Day");
    reveal_strlit("Week");
    reveal_strlit("Month");
    reveal_strlit("Year");
    assert("Second"@[0] == 'S' && "Second"@[1] == 'e' && "Second"@[2] == 'c' && "Second"@[3] == 'o' && "Second"@[4] == 'n' && "Second"@[5] == 'd' && "Second"@.len() == 6);
    assert("Minute"@[0] == 'M' && "Minute"@[1] == 'i' && "Minute"@[2] == 'n' && "Minute"@[3] == 'u' && "Minute"@[4] == 't' && "Minute"@[5] == 'e' && "Minute"@.len() == 6);
    assert("Hour"@[0] == 'H' && "Hour"@[1] == 'o' && "Hour"@[2] == 'u' && "Hour"@[3] == 'r' && "Hour"@.len() == 4);
    assert("Day"@[0] == 'D' && "Day"@[1] == 'a' && "Day"@[2] == 'y' && "Day"@.len() == 3);
    assert("Week"@[0] == 'W' && "Week"@[1] == 'e' && "Week"@[2] == 'e' && "Week"@[3] == 'k' && "Week"@.len() == 4);
    assert("Month"@[0] == 'M' && "Month"@[1] == 'o' && "Month"@[2] == 'n' && "Month"@[3] == 't' && "Month"@[4] == 'h' && "Month"@.len() == 5);
    assert("Year"@[0] == 'Y' && "Year"@[1] == 'e' && "Year"@[2] == 'a' && "Year"@[3] == 'r' && "Year"@.len() == 4);
}

proof fn lemma_request_method_names(name: Seq<char>)
    ensures
        one_of(name, request_method_names()) == (name == "DELETE"@ || name == "GET"@ || name == "HEAD"@ || name == "OPTIONS"@ || name == "PATCH"@ || name == "POST"@ || name == "PUT"@ || name == "TRACE"@),
{
    let list = request_method_names();
    if one_of(name, list) {
        let k = choose|k: int| 0 <= k < list.len() && list[k] == name;
        assert(list[k] == name);
    }
    assert(list[0] == "DELETE"@);
    assert(list[1] == "GET"@);
    assert(list[2] == "HEAD"@);
    assert(list[3] == "OPTIONS"@);
    assert(list[4] == "PATCH"@);
    assert(list[5] == "POST"@);
    assert(list[6] == "PUT"@);
    assert(list[7] == "TRACE"@);
}

proof fn lemma_access_key_type_names(name: Seq<char>)
    ensures
        one_of(name, access_key_type_names()) == (name == "Primary"@ || name == "Secondary"@),
{
    let list = access_key_type_names();
    if one_of(name, list) {
        let k = choose|k: int| 0 <= k < list.len() && list[k] == name;
        assert(list[k] == name);
    }
    assert(list[0] == "Primary"@);
    assert(list[1] == "Secondary"@);
}

/// An operation with these members has nothing else.
proof fn lemma_operation_alone(node: &Node)
    requires
        holds_only(node, seq!["method"@, "uri"@]),
    ensures
        field(node, "headers"@) is None,
        field(node, "queries"@) is None,
        field(node, "cookie"@) is None,
        field(node, "operationOptions"@) is None,
        field(node, "authentication"@) is None,
        field(node, "retryPolicy"@) is None,
        field(node, "url"@) is None,
{
    reveal_strlit("method");
    reveal_strlit("uri");
    reveal_strlit("headers");
    reveal_strlit("queries");
    reveal_strlit("cookie");
    reveal_strlit("operationOptions");
    reveal_strlit("authentication");
    reveal_strlit("retryPolicy");
    reveal_strlit("url");
    assert("method"@.len() == 6 && "method"@[0] == 'm');
    assert("uri"@.len() == 3 && "uri"@[0] == 'u' && "uri"@[2] == 'i');
    assert("headers"@.len() == 7 && "headers"@[0] == 'h');
    assert("queries"@.len() == 7 && "queries"@[0] == 'q');
    assert("cookie"@.len() == 6 && "cookie"@[0] == 'c');
    assert("operationOptions"@.len() == 16 && "operationOptions"@[0] == 'o');
    assert("authentication"@.len() == 14 && "authentication"@[0] == 'a');
    assert("retryPolicy"@.len() == 11 && "retryPolicy"@[0] == 'r');
    assert("url"@.len() == 3 && "url"@[0] == 'u' && "url"@[2] == 'l');
    let keys = seq!["method"@, "uri"@];
    if field(node, "headers"@) is Some {
        assert(keys.contains("headers"@));
        let i = choose|i: int| 0 <= i < keys.len() && keys[i] == "headers"@;
        assert(keys[i] == "headers"@);
    }
    if field(node, "queries"@) is Some {
        assert(keys.contains("queries"@));
        let i = choose|i: int| 0 <= i < keys.len() && keys[i] == "queries"@;
        assert(keys[i] == "queries"@);
    }
    if field(node, "cookie"@) is Some {
        assert(keys.contains("cookie"@));
        let i = choose|i: int| 0 <= i < keys.len() && keys[i] == "cookie"@;
        assert(keys[i] == "cookie"@);
    }
    if field(node, "operationOptions"@) is Some {
        assert(keys.contains("operationOptions"@));
        let i = choose|i: int| 0 <= i < keys.len() && keys[i] == "operationOptions"@;
        assert(keys[i] == "operationOptions"@);
    }
    if field(node, "authentication"@) is Some {
        assert(keys.contains("authentication"@));
        let i = choose|i: int| 0 <= i < keys.len() && keys[i] == "authentication"@;
        assert(keys[i] == "authentication"@);
    }
    if field(node, "retryPolicy"@) is Some {
        assert(keys.contains("retryPolicy"@));
        let i = choose|i: int| 0 <= i < keys.len() && keys[i] == "retryPolicy"@;
        assert(keys[i] == "retryPolicy"@);
    }
    if field(node, "url"@) is Some {
        assert(keys.contains("url"@));
        let i = choose|i: int| 0 <= i < keys.len() && keys[i] == "url"@;
        assert(keys[i] == "url"@);
    }
}

/// Inputs with these members have nothing else.
proof fn lemma_inputs_of_webhooks_subscribe_by_a_method(node: &Node)
    requires
        holds_only(node, seq!["subscribe"@, "accessKeyType"@]),
    ensures
        field(node, "unsubscribe"@) is None,
{
    reveal_strlit("subscribe");
    reveal_strlit("accessKeyType");
    reveal_strlit("unsubscribe");
    assert("subscribe"@.len() == 9 && "subscribe"@[0] == 's');
    assert("accessKeyType"@.len() == 13 && "accessKeyType"@[0] == 'a');
    assert("unsubscribe"@.len() == 11 && "unsubscribe"@[0] == 'u');
    let keys = seq!["subscribe"@, "accessKeyType"@];
    if field(node, "unsubscribe"@) is Some {
        assert(keys.contains("unsubscribe"@));
        let i = choose|i: int| 0 <= i < keys.len() && keys[i] == "unsubscribe"@;
        assert(keys[i] == "unsubscribe"@);
    }
}

/// An `HttpWebhook` action that subscribes at a host is clean exactly where the
/// method is one of HTTP, the scheme is one of HTTP, the URL has at most 2048
/// bytes and the key is known.
pub proof fn law_webhooks_subscribe_by_a_method(
    action: &Node,
    inputs: &Node,
    kind: Seq<char>,
    operation: &Node,
    method: Seq<char>,
    key: Seq<char>,
    protocol: Seq<char>,
    host: Seq<char>,
    pointer: Seq<char>,
    container: Seq<char>,
    file: &Document,
    workflow: &Workflow,
    scope: &ArmScope,
)
    requires
        is_plain(file, scope),
        holds_only(action, seq!["type"@, "inputs"@]),
        text_field(action, "type"@) == Some(kind),
        same_ignoring_case(kind, "HttpWebhook"@),
        field(action, "inputs"@) == Some(*inputs),
        inputs.kind is Object,
        holds_only(inputs, seq!["subscribe"@, "accessKeyType"@]),
        field(inputs, "subscribe"@) == Some(*operation),
        operation.kind is Object,
        holds_only(operation, seq!["method"@, "uri"@]),
        text_field(operation, "method"@) == Some(method),
        is_unmarked(method),
        is_word(protocol),
        is_host(host),
        text_field(operation, "uri"@) == Some(protocol + seq![':', '/', '/'] + host),
        text_field(inputs, "accessKeyType"@) == Some(key),
        is_unmarked(key),
    ensures
        (authored_action_findings(action, pointer, container, file, workflow, scope).len() == 0)
            == ({
            &&& method == "DELETE"@ || method == "GET"@ || method == "HEAD"@ || method == "OPTIONS"@ || method == "PATCH"@ || method == "POST"@ || method == "PUT"@ || method == "TRACE"@
            &&& same_ignoring_case(protocol, "http"@) || same_ignoring_case(protocol, "https"@)
            &&& protocol.len() + 3 + host.len() <= 2048
            &&& key == "Primary"@ || key == "Secondary"@
        }),
{
    let declared = field(action, "type"@)->Some_0;
    lemma_plain(file, scope);
    lemma_action_alone(action);
    lemma_action_types(kind);
    lemma_action_by_type(
        action,
        pointer,
        container,
        file,
        workflow,
        scope,
        &declared,
        kind,
        ActionSpec::HttpWebhook,
    );
    lemma_inputs_of_webhooks_subscribe_by_a_method(inputs);
    lemma_operation_alone(operation);
    lemma_unmarked_is_literal(method);
    lemma_unmarked_is_literal(key);
    lemma_request_method_names(method);
    lemma_access_key_type_names(key);
    let uri = protocol + seq![':', '/', '/'] + host;
    assert(uri =~= protocol + seq![':', '/', '/'] + host + Seq::empty());
    law_urls_are_told_by_their_scheme(protocol, host, Seq::empty());
    let n = protocol.len() as int;
    assert forall|i: int| 0 <= i < uri.len() implies #[trigger] uri[i] != '@' && '\0' <= uri[i]
        <= '\u{7f}' by {
        if i < n {
            assert(uri[i] == protocol[i]);
        } else if i >= n + 3 {
            assert(uri[i] == host[i - n - 3]);
        }
    }
    assert(is_ascii_chars(uri));
    is_ascii_chars_encode_utf8(uri);
    lemma_unmarked_is_literal(uri);
    let at = joined(pointer, "inputs"@);
    let bounds = bounds_of(workflow);
    let base = joined(at, "subscribe"@);
    assert(http_inputs_findings(operation, base, "webhook "@ + "subscribe"@, bounds, file).len()
        == 0);
    reveal_strlit("subscribe");
    reveal_strlit("unsubscribe");
    assert("subscribe"@.len() == 9 && "unsubscribe"@.len() == 11);
    let object = webhook_object_findings(operation, base, "subscribe"@, true, bounds, file);
    assert((object.len() == 0) == (one_of(method, request_method_names()) && (same_ignoring_case(
        protocol,
        "http"@,
    ) || same_ignoring_case(protocol, "https"@)) && uri.len() <= 2048));
    let options = WebhookOperationOptions {
        string_operation: WebhookOperationString::Allow,
        retry_bounds: bounds,
    };
    assert(webhook_findings(inputs, at, "subscribe"@, true, options, file) == object);
    assert(webhook_findings(inputs, at, "unsubscribe"@, false, options, file).len() == 0);
}

} // verus!
