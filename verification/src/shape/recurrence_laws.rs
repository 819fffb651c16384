//! Which recurrences are accepted: the units, how long an interval may be at
//! each, and what a schedule may list.

use vstd::prelude::*;

use crate::arm::ArmScope;

use crate::json::{field, joined, text_field, text_of, Document, Json, Node, Number};
use crate::shape::operations::authored_trigger_findings;
use crate::shape::plain_laws::{
    holds_only, is_plain, keeps_state, lemma_plain, lemma_trigger_alone, lemma_trigger_by_type,
};
use crate::shape::registry::TriggerSpec;
use crate::shape::triggers::recurrence::{
    frequency_findings, interval_findings, recurrence_frequency_names, recurrence_object_findings,
};
use crate::shape::triggers::schedule::{
    interval_limit_findings, schedule_context_findings, schedule_findings, schedule_list_findings,
    schedule_lists_findings, schedule_number_findings, schedule_numbers_findings,
    schedule_week_findings, week_day_findings, week_day_names, IntegerListRule,
};
use crate::shape::type_laws::lemma_trigger_types;
use crate::text::{decimal, one_of, same_ignoring_case};
use crate::wdl::laws::{doubled, law_escaped_text_is_literal};
use crate::wdl::value::{classified, Classified};
use crate::workflow::Workflow;

verus! {

/// The number that a node holds, where it is a 64-bit integer.
pub open spec fn number_in(node: &Node) -> Option<int> {
    match node.kind {
        Json::Number(Number::PosInt(n)) => if n <= i64::MAX {
            Some(n as int)
        } else {
            None
        },
        Json::Number(Number::NegInt(n)) => Some(n as int),
        _ => None,
    }
}

/// A member is left out, or is a list of integers.
pub open spec fn may_list_numbers(node: &Node, key: Seq<char>) -> bool {
    match field(node, key) {
        Some(value) => match value.kind {
            Json::Array(items) => forall|i: int|
                0 <= i < items@.len() ==> number_in(#[trigger] &items@[i]) is Some,
            _ => false,
        },
        None => true,
    }
}

/// The numbers that a member lists are all from `low` up to `high`.
pub open spec fn lists_within(node: &Node, key: Seq<char>, low: int, high: int) -> bool {
    match field(node, key) {
        Some(value) => match value.kind {
            Json::Array(items) => forall|i: int|
                0 <= i < items@.len() ==> low <= number_in(#[trigger] &items@[i])->Some_0 <= high,
            _ => true,
        },
        None => true,
    }
}

/// Zero is not among the numbers that a member lists.
pub open spec fn lists_no_zero(node: &Node, key: Seq<char>) -> bool {
    match field(node, key) {
        Some(value) => match value.kind {
            Json::Array(items) => forall|i: int|
                0 <= i < items@.len() ==> number_in(#[trigger] &items@[i]) != Some(0int),
            _ => true,
        },
        None => true,
    }
}

/// A text without `@`, which means itself.
pub open spec fn is_unmarked(text: Seq<char>) -> bool {
    forall|i: int| 0 <= i < text.len() ==> #[trigger] text[i] != '@'
}

/// A member is left out, or is a list of texts without `@`.
pub open spec fn may_list_words(node: &Node, key: Seq<char>) -> bool {
    match field(node, key) {
        Some(value) => match value.kind {
            Json::Array(items) => forall|i: int|
                0 <= i < items@.len() ==> text_of(#[trigger] &items@[i]) is Some && is_unmarked(
                    text_of(&items@[i])->Some_0,
                ),
            _ => false,
        },
        None => true,
    }
}

/// The name of a day of the week.
pub open spec fn is_day_of_week(text: Seq<char>) -> bool {
    text == "Monday"@ || text == "Tuesday"@ || text == "Wednesday"@ || text == "Thursday"@ || text
        == "Friday"@ || text == "Saturday"@ || text == "Sunday"@
}

/// The texts that a member lists are all days of the week.
pub open spec fn lists_days(node: &Node, key: Seq<char>) -> bool {
    match field(node, key) {
        Some(value) => match value.kind {
            Json::Array(items) => forall|i: int|
                0 <= i < items@.len() ==> is_day_of_week(
                    text_of(#[trigger] &items@[i])->Some_0,
                ),
            _ => true,
        },
        None => true,
    }
}

/// How often a trigger can recur.
pub open spec fn is_unit_of_recurrence(text: Seq<char>) -> bool {
    text == "Second"@ || text == "Minute"@ || text == "Hour"@ || text == "Day"@ || text == "Week"@
        || text == "Month"@ || text == "Year"@
}

pub proof fn lemma_unmarked_is_literal(text: Seq<char>)
    requires
        is_unmarked(text),
    ensures
        classified(text) == Classified::Literal(text),
{
    lemma_doubled_unmarked(text);
    law_escaped_text_is_literal(text);
}

proof fn lemma_doubled_unmarked(text: Seq<char>)
    requires
        is_unmarked(text),
    ensures
        doubled(text, '@') == text,
    decreases text.len(),
{
    if text.len() > 0 {
        assert forall|i: int| 0 <= i < text.skip(1).len() implies #[trigger] text.skip(1)[i] != '@' by {
            assert(text.skip(1)[i] == text[i + 1]);
        }
        lemma_doubled_unmarked(text.skip(1));
        assert(seq![text[0]] + text.skip(1) =~= text);
    } else {
        assert(doubled(text, '@') =~= text);
    }
}

proof fn lemma_week_day_names(name: Seq<char>)
    ensures
        one_of(name, week_day_names()) == (name == "Friday"@ || name == "Monday"@ || name == "Saturday"@ || name == "Sunday"@ || name == "Thursday"@ || name == "Tuesday"@ || name == "Wednesday"@),
{
    let list = week_day_names();
    if one_of(name, list) {
        let k = choose|k: int| 0 <= k < list.len() && list[k] == name;
        assert(list[k] == name);
    }
    assert(list[0] == "Friday"@);
    assert(list[1] == "Monday"@);
    assert(list[2] == "Saturday"@);
    assert(list[3] == "Sunday"@);
    assert(list[4] == "Thursday"@);
    assert(list[5] == "Tuesday"@);
    assert(list[6] == "Wednesday"@);
}

proof fn lemma_recurrence_frequency_names(name: Seq<char>)
    ensures
        one_of(name, recurrence_frequency_names()) == (name == "Second"@ || name == "Minute"@ || name == "Hour"@ || name == "Day"@ || name == "Week"@ || name == "Month"@ || name == "Year"@),
{
    let list = recurrence_frequency_names();
    if one_of(name, list) {
        let k = choose|k: int| 0 <= k < list.len() && list[k] == name;
        assert(list[k] == name);
    }
    assert(list[0] == "Second"@);
    assert(list[1] == "Minute"@);
    assert(list[2] == "Hour"@);
    assert(list[3] == "Day"@);
    assert(list[4] == "Week"@);
    assert(list[5] == "Month"@);
    assert(list[6] == "Year"@);
}

proof fn lemma_numbers(
    items: Seq<Node>,
    n: nat,
    base: Seq<char>,
    key: Seq<char>,
    rule: IntegerListRule,
    file: &Document,
)
    requires
        n <= items.len(),
        forall|i: int| 0 <= i < n ==> number_in(#[trigger] &items[i]) is Some,
    ensures
        (schedule_numbers_findings(items, n, base, key, rule, file).len() == 0) == (forall|i: int|
            0 <= i < n ==> {
                let number = number_in(#[trigger] &items[i])->Some_0;
                rule.low <= number <= rule.high && !(key == "monthDays"@ && number == 0)
            }),
    decreases n,
{
    if n > 0 {
        lemma_numbers(items, (n - 1) as nat, base, key, rule, file);
        let item = &items[n - 1];
        assert(number_in(&items[n - 1]) is Some);
        let own = schedule_number_findings(item, joined(base, decimal(n - 1)), key, rule, file);
        let number = number_in(item)->Some_0;
        assert((own.len() == 0) == (rule.low <= number <= rule.high && !(key == "monthDays"@
            && number == 0)));
    }
}

proof fn lemma_days(items: Seq<Node>, n: nat, base: Seq<char>, file: &Document, scope: &ArmScope)
    requires
        is_plain(file, scope),
        n <= items.len(),
        forall|i: int|
            0 <= i < n ==> text_of(#[trigger] &items[i]) is Some && is_unmarked(
                text_of(&items[i])->Some_0,
            ),
    ensures
        (week_day_findings(items, n, base, file).len() == 0) == (forall|i: int|
            0 <= i < n ==> is_day_of_week(text_of(#[trigger] &items[i])->Some_0)),
    decreases n,
{
    lemma_plain(file, scope);
    if n > 0 {
        lemma_days(items, (n - 1) as nat, base, file, scope);
        assert(text_of(&items[n - 1]) is Some);
        let text = text_of(&items[n - 1])->Some_0;
        lemma_unmarked_is_literal(text);
        lemma_week_day_names(text);
    }
}

proof fn lemma_units(unit: Seq<char>)
    ensures
        unit == "Second"@ ==> unit != "Minute"@ && unit != "Hour"@ && unit != "Day"@ && unit != "Week"@ && unit != "Month"@ && unit != "Year"@,
        unit == "Minute"@ ==> unit != "Second"@ && unit != "Hour"@ && unit != "Day"@ && unit != "Week"@ && unit != "Month"@ && unit != "Year"@,
        unit == "Hour"@ ==> unit != "Second"@ && unit != "Minute"@ && unit != "Day"@ && unit != "Week"@ && unit != "Month"@ && unit != "Year"@,
        unit == "Day"@ ==> unit != "Second"@ && unit != "Minute"@ && unit != "Hour"@ && unit != "Week"@ && unit != "Month"@ && unit != "Year"@,
        unit == "Week"@ ==> unit != "Second"@ && unit != "Minute"@ && unit != "Hour"@ && unit != "Day"@ && unit != "Month"@ && unit != "Year"@,
        unit == "Month"@ ==> unit != "Second"@ && unit != "Minute"@ && unit != "Hour"@ && unit != "Day"@ && unit != "Week"@ && unit != "Year"@,
        unit == "Year"@ ==> unit != "Second"@ && unit != "Minute"@ && unit != "Hour"@ && unit != "Day"@ && unit != "Week"@ && unit != "Month"@,
        is_unit_of_recurrence(unit) ==> is_unmarked(unit),
{
    reveal_strlit("Second");
    reveal_strlit("Minute");
    reveal_strlit("Hour");
    reveal_strlit("Day");
    reveal_strlit("Week");
    reveal_strlit("Month");
    reveal_strlit("Year");
    assert("Second"@.len() == 6 && "Second"@[0] == 'S');
    assert("Minute"@.len() == 6 && "Minute"@[0] == 'M');
    assert("Hour"@.len() == 4 && "Hour"@[0] == 'H');
    assert("Day"@.len() == 3 && "Day"@[0] == 'D');
    assert("Week"@.len() == 4 && "Week"@[0] == 'W');
    assert("Month"@.len() == 5 && "Month"@[0] == 'M');
    assert("Year"@.len() == 4 && "Year"@[0] == 'Y');
    assert(is_unmarked("Second"@));
    assert(is_unmarked("Minute"@));
    assert(is_unmarked("Hour"@));
    assert(is_unmarked("Day"@));
    assert(is_unmarked("Week"@));
    assert(is_unmarked("Month"@));
    assert(is_unmarked("Year"@));
}

/// A recurrence with these members has nothing else.
proof fn lemma_recurrence_alone(node: &Node)
    requires
        holds_only(node, seq!["frequency"@, "interval"@, "schedule"@]),
    ensures
        field(node, "count"@) is None,
        field(node, "startTime"@) is None,
        field(node, "endTime"@) is None,
        field(node, "timeZone"@) is None,
{
    reveal_strlit("frequency");
    reveal_strlit("interval");
    reveal_strlit("schedule");
    reveal_strlit("count");
    reveal_strlit("startTime");
    reveal_strlit("endTime");
    reveal_strlit("timeZone");
    assert("frequency"@.len() == 9 && "frequency"@[0] == 'f');
    assert("interval"@.len() == 8 && "interval"@[0] == 'i');
    assert("schedule"@.len() == 8 && "schedule"@[0] == 's');
    assert("count"@.len() == 5 && "count"@[0] == 'c');
    assert("startTime"@.len() == 9 && "startTime"@[0] == 's');
    assert("endTime"@.len() == 7 && "endTime"@[0] == 'e');
    assert("timeZone"@.len() == 8 && "timeZone"@[0] == 't');
    let keys = seq!["frequency"@, "interval"@, "schedule"@];
    if field(node, "count"@) is Some {
        assert(keys.contains("count"@));
        let i = choose|i: int| 0 <= i < keys.len() && keys[i] == "count"@;
        assert(keys[i] == "count"@);
    }
    if field(node, "startTime"@) is Some {
        assert(keys.contains("startTime"@));
        let i = choose|i: int| 0 <= i < keys.len() && keys[i] == "startTime"@;
        assert(keys[i] == "startTime"@);
    }
    if field(node, "endTime"@) is Some {
        assert(keys.contains("endTime"@));
        let i = choose|i: int| 0 <= i < keys.len() && keys[i] == "endTime"@;
        assert(keys[i] == "endTime"@);
    }
    if field(node, "timeZone"@) is Some {
        assert(keys.contains("timeZone"@));
        let i = choose|i: int| 0 <= i < keys.len() && keys[i] == "timeZone"@;
        assert(keys[i] == "timeZone"@);
    }
}

/// A schedule with these members has no monthly occurrences.
proof fn lemma_lists_alone(node: &Node)
    requires
        holds_only(node, seq!["hours"@, "minutes"@, "weekDays"@, "monthDays"@]),
    ensures
        field(node, "monthlyOccurrences"@) is None,
{
    reveal_strlit("hours");
    reveal_strlit("minutes");
    reveal_strlit("weekDays");
    reveal_strlit("monthDays");
    reveal_strlit("monthlyOccurrences");
    assert("hours"@.len() == 5 && "hours"@[0] == 'h');
    assert("minutes"@.len() == 7 && "minutes"@[0] == 'm');
    assert("weekDays"@.len() == 8 && "weekDays"@[0] == 'w');
    assert("monthDays"@.len() == 9 && "monthDays"@[0] == 'm');
    assert("monthlyOccurrences"@.len() == 18 && "monthlyOccurrences"@[0] == 'm');
    let keys = seq!["hours"@, "minutes"@, "weekDays"@, "monthDays"@];
    if field(node, "monthlyOccurrences"@) is Some {
        assert(keys.contains("monthlyOccurrences"@));
        let i = choose|i: int| 0 <= i < keys.len() && keys[i] == "monthlyOccurrences"@;
        assert(keys[i] == "monthlyOccurrences"@);
    }
}

/// What a schedule of lists is judged by.
proof fn lemma_schedule(
    recurrence: &Node,
    schedule: &Node,
    unit: Seq<char>,
    pointer: Seq<char>,
    file: &Document,
    scope: &ArmScope,
)
    requires
        is_plain(file, scope),
        text_field(recurrence, "frequency"@) == Some(unit),
        is_unit_of_recurrence(unit),
        field(recurrence, "schedule"@) == Some(*schedule),
        schedule.kind is Object,
        holds_only(schedule, seq!["hours"@, "minutes"@, "weekDays"@, "monthDays"@]),
        may_list_numbers(schedule, "hours"@),
        may_list_numbers(schedule, "minutes"@),
        may_list_numbers(schedule, "monthDays"@),
        may_list_words(schedule, "weekDays"@),
    ensures
        (schedule_findings(recurrence, pointer, file).len() == 0) == {
            &&& field(schedule, "hours"@) is Some || field(schedule, "minutes"@) is Some ==> unit
                == "Day"@ || unit == "Week"@
            &&& field(schedule, "weekDays"@) is Some ==> unit == "Week"@
            &&& field(schedule, "monthDays"@) is Some ==> unit == "Month"@
            &&& lists_within(schedule, "hours"@, 0, 23)
            &&& lists_within(schedule, "minutes"@, 0, 59)
            &&& lists_within(schedule, "monthDays"@, -31, 31)
            &&& lists_no_zero(schedule, "monthDays"@)
            &&& lists_days(schedule, "weekDays"@)
        },
{
    lemma_plain(file, scope);
    lemma_units(unit);
    lemma_recurrence_frequency_names(unit);
    lemma_lists_alone(schedule);
    reveal_strlit("hours");
    reveal_strlit("minutes");
    reveal_strlit("monthDays");
    assert("hours"@.len() == 5 && "minutes"@.len() == 7 && "monthDays"@.len() == 9);
    let at = joined(pointer, "schedule"@);
    lemma_list(schedule, at, "hours"@, 0, 23, true, file, scope);
    lemma_list(schedule, at, "minutes"@, 0, 59, true, file, scope);
    lemma_list(schedule, at, "monthDays"@, (-31int) as i64, 31, false, file, scope);
    if let Some(week_days) = field(schedule, "weekDays"@) {
        if let Json::Array(items) = week_days.kind {
            lemma_days(items@, items@.len(), joined(at, "weekDays"@), file, scope);
        }
    }
    let context = schedule_context_findings(schedule, at, unit, file);
    let week = schedule_week_findings(recurrence, schedule, at, file);
    let lists = schedule_lists_findings(schedule, at, file);
    assert((context.len() == 0) == {
        &&& field(schedule, "hours"@) is Some || field(schedule, "minutes"@) is Some ==> unit
            == "Day"@ || unit == "Week"@
        &&& field(schedule, "monthDays"@) is Some ==> unit == "Month"@
    });
    assert((week.len() == 0) == {
        &&& field(schedule, "weekDays"@) is Some ==> unit == "Week"@
        &&& lists_days(schedule, "weekDays"@)
    });
    assert((lists.len() == 0) == {
        &&& lists_within(schedule, "hours"@, 0, 23)
        &&& lists_within(schedule, "minutes"@, 0, 59)
        &&& lists_within(schedule, "monthDays"@, -31, 31)
        &&& lists_no_zero(schedule, "monthDays"@)
    });
}

proof fn lemma_list(
    schedule: &Node,
    at: Seq<char>,
    key: Seq<char>,
    low: i64,
    high: i64,
    texts: bool,
    file: &Document,
    scope: &ArmScope,
)
    requires
        is_plain(file, scope),
        may_list_numbers(schedule, key),
    ensures
        forall|allow_scalar: bool| #![trigger schedule_list_findings(
                schedule,
                at,
                key,
                (IntegerListRule { low, high, allow_string_values: texts, allow_scalar }),
                file,
            )] (schedule_list_findings(
                schedule,
                at,
                key,
                (IntegerListRule { low, high, allow_string_values: texts, allow_scalar }),
                file,
            ).len() == 0) == (lists_within(schedule, key, low as int, high as int) && (key
                == "monthDays"@ ==> lists_no_zero(schedule, key))),
{
    lemma_plain(file, scope);
    assert forall|allow_scalar: bool| #![trigger schedule_list_findings(
            schedule,
            at,
            key,
            (IntegerListRule { low, high, allow_string_values: texts, allow_scalar }),
            file,
        )] (schedule_list_findings(
        schedule,
        at,
        key,
        (IntegerListRule { low, high, allow_string_values: texts, allow_scalar }),
        file,
    ).len() == 0) == (lists_within(schedule, key, low as int, high as int) && (key
        == "monthDays"@ ==> lists_no_zero(schedule, key))) by {
        let rule = IntegerListRule { low, high, allow_string_values: texts, allow_scalar };
        if let Some(value) = field(schedule, key) {
            if let Json::Array(items) = value.kind {
                lemma_numbers(items@, items@.len(), joined(at, key), key, rule, file);
                let found = schedule_numbers_findings(
                    items@,
                    items@.len(),
                    joined(at, key),
                    key,
                    rule,
                    file,
                );
                if lists_within(schedule, key, low as int, high as int) && (key == "monthDays"@
                    ==> lists_no_zero(schedule, key)) {
                    assert forall|i: int| 0 <= i < items@.len() implies {
                        let number = number_in(#[trigger] &items@[i])->Some_0;
                        rule.low <= number <= rule.high && !(key == "monthDays"@ && number == 0)
                    } by {
                        assert(number_in(&items@[i]) is Some);
                    }
                    assert(found.len() == 0);
                }
                if found.len() == 0 {
                    assert forall|i: int| 0 <= i < items@.len() implies low <= number_in(
                        #[trigger] &items@[i],
                    )->Some_0 <= high by {}
                    assert(key == "monthDays"@ ==> lists_no_zero(schedule, key));
                }
            }
        }
    }
}

/// A trigger of type `Recurrence` with a unit, an interval and a schedule of
/// lists has no finding exactly where the interval is at least one and at most
/// what the unit allows, hours run from 0 to 23, minutes from 0 to 59 and days
/// of the month from 1 to 31 or from the end, week days are called by their
/// names, and each list goes with the unit.
pub proof fn law_recurrences_are_judged_by_their_numbers(
    trigger: &Node,
    recurrence: &Node,
    schedule: Option<Node>,
    interval: &Node,
    count: u64,
    kind: Seq<char>,
    unit: Seq<char>,
    pointer: Seq<char>,
    file: &Document,
    workflow: &Workflow,
    scope: &ArmScope,
)
    requires
        is_plain(file, scope),
        keeps_state(workflow),
        holds_only(trigger, seq!["type"@, "inputs"@, "recurrence"@]),
        text_field(trigger, "type"@) == Some(kind),
        same_ignoring_case(kind, "Recurrence"@),
        field(trigger, "recurrence"@) == Some(*recurrence),
        recurrence.kind is Object,
        holds_only(recurrence, seq!["frequency"@, "interval"@, "schedule"@]),
        text_field(recurrence, "frequency"@) == Some(unit),
        is_unit_of_recurrence(unit),
        field(recurrence, "interval"@) == Some(*interval),
        interval.kind == Json::Number(Number::PosInt(count)),
        count <= i64::MAX,
        field(recurrence, "schedule"@) == schedule,
        schedule matches Some(node) ==> {
            &&& node.kind is Object
            &&& holds_only(&node, seq!["hours"@, "minutes"@, "weekDays"@, "monthDays"@])
            &&& may_list_numbers(&node, "hours"@)
            &&& may_list_numbers(&node, "minutes"@)
            &&& may_list_numbers(&node, "monthDays"@)
            &&& may_list_words(&node, "weekDays"@)
        },
    ensures
        (authored_trigger_findings(trigger, pointer, file, workflow, scope).len() == 0) == {
            &&& 1 <= count
            &&& unit == "Second"@ ==> count <= 9999999
            &&& unit == "Minute"@ ==> count <= 72000
            &&& unit == "Hour"@ ==> count <= 12000
            &&& unit == "Day"@ ==> count <= 500
            &&& unit == "Week"@ ==> count <= 71
            &&& unit == "Month"@ ==> count <= 16
            &&& schedule matches Some(node) ==> {
                &&& field(&node, "hours"@) is Some || field(&node, "minutes"@) is Some ==> unit
                    == "Day"@ || unit == "Week"@
                &&& field(&node, "weekDays"@) is Some ==> unit == "Week"@
                &&& field(&node, "monthDays"@) is Some ==> unit == "Month"@
                &&& lists_within(&node, "hours"@, 0, 23)
                &&& lists_within(&node, "minutes"@, 0, 59)
                &&& lists_within(&node, "monthDays"@, -31, 31)
                &&& lists_no_zero(&node, "monthDays"@)
                &&& lists_days(&node, "weekDays"@)
            }
        },
{
    let declared = field(trigger, "type"@)->Some_0;
    lemma_plain(file, scope);
    lemma_trigger_alone(trigger);
    lemma_trigger_types(kind);
    lemma_trigger_by_type(
        trigger,
        pointer,
        file,
        workflow,
        scope,
        &declared,
        kind,
        TriggerSpec::Recurrence,
    );
    lemma_recurrence_alone(recurrence);
    lemma_units(unit);
    lemma_unmarked_is_literal(unit);
    lemma_recurrence_frequency_names(unit);
    let at = joined(pointer, "recurrence"@);
    if let Some(node) = schedule {
        lemma_schedule(recurrence, &node, unit, at, file, scope);
    }
    assert(frequency_findings(recurrence, at, file).len() == 0);
    assert((interval_findings(recurrence, at, file).len() == 0) == (1 <= count));
    assert((interval_limit_findings(recurrence, at, file).len() == 0) == {
        &&& unit == "Second"@ ==> count <= 9999999
        &&& unit == "Minute"@ ==> count <= 72000
        &&& unit == "Hour"@ ==> count <= 12000
        &&& unit == "Day"@ ==> count <= 500
        &&& unit == "Week"@ ==> count <= 71
        &&& unit == "Month"@ ==> count <= 16
    });
    assert((recurrence_object_findings(recurrence, at, file).len() == 0) == (interval_findings(
        recurrence,
        at,
        file,
    ).len() == 0 && interval_limit_findings(recurrence, at, file).len() == 0 && schedule_findings(
        recurrence,
        at,
        file,
    ).len() == 0));
}

/// A unit that a trigger cannot recur in is reported.
pub proof fn law_other_units_are_reported(
    recurrence: &Node,
    unit: Seq<char>,
    pointer: Seq<char>,
    file: &Document,
    scope: &ArmScope,
)
    requires
        is_plain(file, scope),
        text_field(recurrence, "frequency"@) == Some(unit),
        is_unmarked(unit),
    ensures
        (frequency_findings(recurrence, pointer, file).len() == 0) == is_unit_of_recurrence(unit),
{
    lemma_plain(file, scope);
    lemma_unmarked_is_literal(unit);
    lemma_recurrence_frequency_names(unit);
}

} // verus!
