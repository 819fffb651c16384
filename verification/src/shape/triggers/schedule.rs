//! Shape validators for `recurrence.schedule`, and the limits on intervals.

use vstd::prelude::*;

use crate::diagnostic::{findings, Diagnostic, Finding};
use crate::json::{
    as_array, as_string, field, get, get_string, joined, pointer_join, text_field, text_of,
    Document, Json, Node,
};
use crate::shape::arm_boundary::{
    arm_optional_property_absent, authored, checked, get_authored, get_checked, get_present,
    is_absent, is_opaque, is_opaque_arm_expression, is_skipped, present, skipped,
};
use crate::shape::dynamic_wdl::{
    may_be_integer, wdl_string_is_full_expression, wdl_string_may_be_integer,
    wdl_string_may_match_exact,
};
use crate::shape::field_validators::{required_enum_findings, validate_required_string_enum};
use crate::shape::numbers::{
    integer_of, integer_or_integer_string_value, integer_or_spelled, integer_value,
};
use crate::shape::report::{
    issue, missing, report, report_context, report_missing, report_type, report_value,
    wrong_context, wrong_type, wrong_value,
};
use crate::shape::triggers::recurrence::{recurrence_frequency_names, recurrence_frequency_list};
use crate::text::{
    decimal, decimal_of_i64, decimal_of_usize, in_list, names, one_of, text3, text5, text6,
    text_eq,
};
use crate::wdl::value::{classified, may_match};

verus! {

broadcast use crate::diagnostic::group_findings;

pub open spec fn week_day_names() -> Seq<Seq<char>> {
    seq!["Friday"@, "Monday"@, "Saturday"@, "Sunday"@, "Thursday"@, "Tuesday"@, "Wednesday"@]
}

fn week_day_list() -> (list: Vec<&'static str>)
    ensures
        names(list@) == week_day_names(),
{
    let list = vec!["Friday", "Monday", "Saturday", "Sunday", "Thursday", "Tuesday", "Wednesday"];
    assert(names(list@) =~= week_day_names());
    list
}

/// What a list of schedule numbers may hold.
#[derive(Debug, Clone, Copy, PartialEq, Eq, Structural)]
pub struct IntegerListRule {
    pub low: i64,
    pub high: i64,
    pub allow_string_values: bool,
    pub allow_scalar: bool,
}

/// The largest interval at a frequency, where there is one.
pub open spec fn interval_max(frequency: Seq<char>) -> Option<int> {
    if frequency == "Second"@ {
        Some(9999999)
    } else if frequency == "Minute"@ {
        Some(72000)
    } else if frequency == "Hour"@ {
        Some(12000)
    } else if frequency == "Day"@ {
        Some(500)
    } else if frequency == "Week"@ {
        Some(71)
    } else if frequency == "Month"@ {
        Some(16)
    } else {
        None
    }
}

fn recurrence_interval_max(frequency: &str) -> (max: Option<i64>)
    ensures
        match max {
            Some(n) => interval_max(frequency@) == Some(n as int),
            None => interval_max(frequency@) is None,
        },
{
    if text_eq(frequency, "Second") {
        Some(9999999)
    } else if text_eq(frequency, "Minute") {
        Some(72000)
    } else if text_eq(frequency, "Hour") {
        Some(12000)
    } else if text_eq(frequency, "Day") {
        Some(500)
    } else if text_eq(frequency, "Week") {
        Some(71)
    } else if text_eq(frequency, "Month") {
        Some(16)
    } else {
        None
    }
}

/// The frequency of a recurrence, where it is one of the known ones.
pub open spec fn known_frequency(recurrence: &Node, file: &Document) -> Option<Seq<char>> {
    match authored(file, recurrence, "frequency"@) {
        Some(frequency) => match text_of(&frequency) {
            Some(text) => if one_of(
                text,
                recurrence_frequency_names(),
            ) { Some(text) } else { None },
            None => None,
        },
        None => None,
    }
}

fn get_known_frequency<'a>(recurrence: &'a Node, file: &Document) -> (found: Option<&'a str>)
    ensures
        match found {
            Some(text) => known_frequency(recurrence, file) == Some(text@),
            None => known_frequency(recurrence, file) is None,
        },
{
    match get_authored(file, recurrence, "frequency") {
        Some(frequency) => match as_string(frequency) {
            Some(text) => if in_list(
                text,
                recurrence_frequency_list().as_slice(),
            ) { Some(text) } else { None },
            None => None,
        },
        None => None,
    }
}

/// What is wrong with the interval of a recurrence against the largest at its frequency.
pub open spec fn interval_limit_findings(
    recurrence: &Node,
    recurrence_pointer: Seq<char>,
    file: &Document,
) -> Seq<Finding> {
    match authored(file, recurrence, "interval"@) {
        Some(interval) => match integer_of(&interval) {
            Some(number) => match text_field(recurrence, "frequency"@) {
                Some(frequency) => match interval_max(frequency) {
                    Some(max) => if number > max {
                        wrong_value(
                            file,
                            recurrence_pointer,
                            "interval"@,
                            interval.span,
                            "Recurrence interval "@
                                + decimal(number)
                                + " exceeds maximum "@
                                + decimal(max)
                                + " for "@
                                + frequency,
                        )
                    } else {
                        Seq::empty()
                    },
                    None => Seq::empty(),
                },
                None => Seq::empty(),
            },
            None => Seq::empty(),
        },
        None => Seq::empty(),
    }
}

/// Validate the interval of a recurrence against the largest at its frequency.
pub fn validate_recurrence_interval_limit(
    recurrence: &Node,
    recurrence_pointer: &str,
    file: &Document,
    diagnostics: &mut Vec<Diagnostic>,
)
    ensures
        findings(final(diagnostics)@) == findings(old(diagnostics)@)
            + interval_limit_findings(recurrence, recurrence_pointer@, file),
{
    if let Some(interval) = get_authored(file, recurrence, "interval") {
        if let Some(number) = integer_value(interval) {
            if let Some(frequency) = get_string(recurrence, "frequency") {
                if let Some(max) = recurrence_interval_max(frequency) {
                    if number > max {
                        let message = text6(
                            "Recurrence interval ",
                            decimal_of_i64(number).as_str(),
                            " exceeds maximum ",
                            decimal_of_i64(max).as_str(),
                            " for ",
                            frequency,
                        );
                        report_value(
                            file,
                            recurrence_pointer,
                            "interval",
                            interval.span,
                            message.as_str(),
                            diagnostics,
                        );
                    }
                }
            }
        }
    }
}

fn text_may_be_number(entry: &Node, allow_string_values: bool) -> (may: bool)
    ensures
        may == (
            text_of(entry) is Some
                && (
                    classified(text_of(entry)->Some_0) is FullExpression
                        || (allow_string_values && may_be_integer(text_of(entry)->Some_0))
                )
        ),
{
    match as_string(entry) {
        Some(text) => wdl_string_is_full_expression(text)
            || (allow_string_values && wdl_string_may_be_integer(text)),
        None => false,
    }
}

/// What is wrong with one number of a schedule.
pub open spec fn schedule_number_findings(
    entry: &Node,
    pointer: Seq<char>,
    key: Seq<char>,
    rule: IntegerListRule,
    file: &Document,
) -> Seq<Finding> {
    if is_opaque(file, entry)
        || (
            text_of(entry) is Some
                && (
                    classified(text_of(entry)->Some_0) is FullExpression
                        || (rule.allow_string_values && may_be_integer(text_of(entry)->Some_0))
                )
        ) {
        Seq::empty()
    } else {
        match (
            if rule.allow_string_values { integer_or_spelled(entry) } else { integer_of(entry) }
        ) {
            Some(number) => if number < rule.low
                || number > rule.high
                || (key == "monthDays"@ && number == 0) {
                issue(
                    file,
                    "workflow-shape-invalid-value"@,
                    pointer,
                    Some(entry.span),
                    "Recurrence schedule."@
                        + key
                        + " value "@
                        + decimal(number)
                        + " is out of range"@,
                )
            } else {
                Seq::empty()
            },
            None => if rule.allow_string_values {
                issue(
                    file,
                    "workflow-shape-invalid-type"@,
                    pointer,
                    Some(entry.span),
                    "Recurrence schedule."@ + key + " entries must be integers or integer strings"@,
                )
            } else {
                issue(
                    file,
                    "workflow-shape-invalid-type"@,
                    pointer,
                    Some(entry.span),
                    "Recurrence schedule."@ + key + " entries must be integers"@,
                )
            },
        }
    }
}

/// Validate one number of a schedule.
fn validate_schedule_integer_value(
    entry: &Node,
    pointer: &str,
    key: &str,
    rule: IntegerListRule,
    file: &Document,
    diagnostics: &mut Vec<Diagnostic>,
)
    ensures
        findings(final(diagnostics)@) == findings(old(diagnostics)@)
            + schedule_number_findings(entry, pointer@, key@, rule, file),
{
    if is_opaque_arm_expression(file, entry)
        || text_may_be_number(entry, rule.allow_string_values) {
        return;
    }
    let number = if rule.allow_string_values { integer_or_integer_string_value(entry) } else { integer_value(
        entry,
    ) };
    match number {
        Some(number) => {
            if number < rule.low
                || number > rule.high
                || (text_eq(key, "monthDays") && number == 0) {
                let message = text5(
                    "Recurrence schedule.",
                    key,
                    " value ",
                    decimal_of_i64(number).as_str(),
                    " is out of range",
                );
                report(
                    file,
                    "workflow-shape-invalid-value",
                    pointer,
                    Some(entry.span),
                    message.as_str(),
                    diagnostics,
                );
            }
        },
        None => {
            if rule.allow_string_values {
                let message = text3(
                    "Recurrence schedule.",
                    key,
                    " entries must be integers or integer strings",
                );
                report(
                    file,
                    "workflow-shape-invalid-type",
                    pointer,
                    Some(entry.span),
                    message.as_str(),
                    diagnostics,
                );
            } else {
                let message = text3("Recurrence schedule.", key, " entries must be integers");
                report(
                    file,
                    "workflow-shape-invalid-type",
                    pointer,
                    Some(entry.span),
                    message.as_str(),
                    diagnostics,
                );
            }
        },
    }
}

/// What is wrong with the first `n` of the numbers of a schedule.
pub open spec fn schedule_numbers_findings(
    items: Seq<Node>,
    n: nat,
    base: Seq<char>,
    key: Seq<char>,
    rule: IntegerListRule,
    file: &Document,
) -> Seq<Finding>
    decreases n,
{
    if n == 0 {
        Seq::empty()
    } else {
        let item = items[n - 1];
        let index = decimal(n - 1);
        schedule_numbers_findings(items, (n - 1) as nat, base, key, rule, file)
            + (schedule_number_findings(&item, joined(base, index), key, rule, file))
    }
}

fn validate_schedule_integer_values(
    items: &Vec<Node>,
    base: &str,
    key: &str,
    rule: IntegerListRule,
    file: &Document,
    diagnostics: &mut Vec<Diagnostic>,
)
    ensures
        findings(final(diagnostics)@) == findings(old(diagnostics)@)
            + schedule_numbers_findings(items@, items@.len(), base@, key@, rule, file),
{
    let ghost before = findings(diagnostics@);
    let mut i: usize = 0;
    while i < items.len()
        invariant
            i <= items.len(),
            findings(diagnostics@) == before
                + schedule_numbers_findings(items@, i as nat, base@, key@, rule, file),
        decreases items.len() - i,
    {
        let item = &items[i];
        let index_text = decimal_of_usize(i);
        let index = index_text.as_str();
        let item_pointer = pointer_join(base, index);
        validate_schedule_integer_value(item, item_pointer.as_str(), key, rule, file, diagnostics);
        i += 1;
    }
}

fn text_is_full_expression(value: &Node) -> (holds: bool)
    ensures
        holds == (text_of(value) is Some && classified(text_of(value)->Some_0) is FullExpression),
{
    match as_string(value) {
        Some(text) => wdl_string_is_full_expression(text),
        None => false,
    }
}

/// What is wrong with a list of schedule numbers.
pub open spec fn schedule_list_findings(
    object: &Node,
    base: Seq<char>,
    key: Seq<char>,
    rule: IntegerListRule,
    file: &Document,
) -> Seq<Finding> {
    match checked(file, object, key) {
        Some(value) => if text_of(&value) is Some
            && classified(text_of(&value)->Some_0) is FullExpression {
            Seq::empty()
        } else {
            let field_pointer = joined(base, key);
            match value.kind {
                Json::Array(items) => schedule_numbers_findings(
                    items@,
                    items@.len(),
                    field_pointer,
                    key,
                    rule,
                    file,
                ),
                _ => if rule.allow_scalar {
                    schedule_number_findings(&value, field_pointer, key, rule, file)
                } else {
                    wrong_type(
                        file,
                        base,
                        key,
                        value.span,
                        "Recurrence schedule."@ + key + " must be an array"@,
                    )
                },
            }
        },
        None => Seq::empty(),
    }
}

/// Validate a list of schedule numbers.
pub fn validate_integer_list_field(
    object: &Node,
    base: &str,
    key: &str,
    rule: IntegerListRule,
    file: &Document,
    diagnostics: &mut Vec<Diagnostic>,
)
    ensures
        findings(final(diagnostics)@) == findings(old(diagnostics)@)
            + schedule_list_findings(object, base@, key@, rule, file),
{
    if let Some(value) = get_checked(file, object, key) {
        if !text_is_full_expression(value) {
            let field_pointer_text = pointer_join(base, key);
            let field_pointer = field_pointer_text.as_str();
            match as_array(value) {
                Some(items) => {
                    validate_schedule_integer_values(
                        items,
                        field_pointer,
                        key,
                        rule,
                        file,
                        diagnostics,
                    );
                },
                None => {
                    if rule.allow_scalar {
                        validate_schedule_integer_value(
                            value,
                            field_pointer,
                            key,
                            rule,
                            file,
                            diagnostics,
                        );
                    } else {
                        let message = text3("Recurrence schedule.", key, " must be an array");
                        report_type(file, base, key, value.span, message.as_str(), diagnostics);
                    }
                },
            }
        }
    }
}

/// What is wrong with the first `n` of the week days of a schedule.
pub open spec fn week_day_findings(
    items: Seq<Node>,
    n: nat,
    base: Seq<char>,
    file: &Document,
) -> Seq<Finding>
    decreases n,
{
    if n == 0 {
        Seq::empty()
    } else {
        let item = items[n - 1];
        let index = decimal(n - 1);
        week_day_findings(items, (n - 1) as nat, base, file) + (if is_skipped(file, &item) {
            Seq::empty()
        } else {
            match text_of(&item) {
                Some(text) => if may_match(classified(text), week_day_names()) {
                    Seq::empty()
                } else {
                    wrong_value(
                        file,
                        base,
                        index,
                        item.span,
                        "Recurrence schedule.weekDays value '"@ + text + "' is not supported"@,
                    )
                },
                None => wrong_type(
                    file,
                    base,
                    index,
                    item.span,
                    "Recurrence schedule.weekDays entries must be strings"@,
                ),
            }
        })
    }
}

fn validate_week_day_entries(
    items: &Vec<Node>,
    base: &str,
    file: &Document,
    diagnostics: &mut Vec<Diagnostic>,
)
    ensures
        findings(final(diagnostics)@) == findings(old(diagnostics)@)
            + week_day_findings(items@, items@.len(), base@, file),
{
    let ghost before = findings(diagnostics@);
    let mut i: usize = 0;
    while i < items.len()
        invariant
            i <= items.len(),
            findings(diagnostics@) == before + week_day_findings(items@, i as nat, base@, file),
        decreases items.len() - i,
    {
        let item = &items[i];
        let index_text = decimal_of_usize(i);
        let index = index_text.as_str();
        if !skipped(file, item) {
            match as_string(item) {
                Some(text) => {
                    if !wdl_string_may_match_exact(text, week_day_list().as_slice()) {
                        let message = text3(
                            "Recurrence schedule.weekDays value '",
                            text,
                            "' is not supported",
                        );
                        report_value(file, base, index, item.span, message.as_str(), diagnostics);
                    }
                },
                None => {
                    report_type(
                        file,
                        base,
                        index,
                        item.span,
                        "Recurrence schedule.weekDays entries must be strings",
                        diagnostics,
                    );
                },
            }
        }
        i += 1;
    }
}

/// What is wrong with `weekDays`.
pub open spec fn week_days_findings(
    week_days: &Node,
    pointer: Seq<char>,
    file: &Document,
) -> Seq<Finding> {
    if is_skipped(file, week_days) {
        Seq::empty()
    } else {
        match week_days.kind {
            Json::String(name) => {
                let text = name@;
                if may_match(classified(text), week_day_names()) {
                    Seq::empty()
                } else {
                    issue(
                        file,
                        "workflow-shape-invalid-value"@,
                        pointer,
                        Some(week_days.span),
                        "Recurrence schedule.weekDays value '"@ + text + "' is not supported"@,
                    )
                }
            },
            Json::Array(items) => week_day_findings(items@, items@.len(), pointer, file),
            _ => issue(
                file,
                "workflow-shape-invalid-type"@,
                pointer,
                Some(week_days.span),
                "Recurrence schedule.weekDays must be a string or array"@,
            ),
        }
    }
}

/// Validate `weekDays`: one day, or a list of days.
pub fn validate_week_days(
    week_days: &Node,
    pointer: &str,
    file: &Document,
    diagnostics: &mut Vec<Diagnostic>,
)
    ensures
        findings(final(diagnostics)@) == findings(old(diagnostics)@)
            + week_days_findings(week_days, pointer@, file),
{
    if !skipped(file, week_days) {
        match &week_days.kind {
            Json::String(name) => {
                let text = name.as_str();
                if !wdl_string_may_match_exact(text, week_day_list().as_slice()) {
                    let message = text3(
                        "Recurrence schedule.weekDays value '",
                        text,
                        "' is not supported",
                    );
                    report(
                        file,
                        "workflow-shape-invalid-value",
                        pointer,
                        Some(week_days.span),
                        message.as_str(),
                        diagnostics,
                    );
                }
            },
            Json::Array(items) => {
                validate_week_day_entries(items, pointer, file, diagnostics);
            },
            _ => {
                report(
                    file,
                    "workflow-shape-invalid-type",
                    pointer,
                    Some(week_days.span),
                    "Recurrence schedule.weekDays must be a string or array",
                    diagnostics,
                );
            },
        }
    }
}

/// What is wrong with which occurrence of a week day is meant.
pub open spec fn occurrence_number_findings(
    occurrence: &Node,
    occurrence_pointer: Seq<char>,
    file: &Document,
) -> Seq<Finding> {
    match field(occurrence, "occurrence"@) {
        Some(value) => if is_opaque(file, &value) {
            Seq::empty()
        } else {
            match integer_of(&value) {
                Some(number) => if -5 <= number <= 5 && number != 0 {
                    Seq::empty()
                } else {
                    wrong_value(
                        file,
                        occurrence_pointer,
                        "occurrence"@,
                        value.span,
                        "Recurrence schedule.monthlyOccurrences.occurrence value "@
                            + decimal(number)
                            + " is out of range"@,
                    )
                },
                None => wrong_type(
                    file,
                    occurrence_pointer,
                    "occurrence"@,
                    value.span,
                    "Recurrence schedule.monthlyOccurrences.occurrence must be an integer"@,
                ),
            }
        },
        None => missing(
            file,
            occurrence_pointer,
            "occurrence"@,
            occurrence.span,
            "object is missing required field 'occurrence'"@,
        ),
    }
}

/// Validate which occurrence of a week day in a month is meant: -5 to 5, and not 0.
pub fn validate_monthly_occurrence_number(
    occurrence: &Node,
    occurrence_pointer: &str,
    file: &Document,
    diagnostics: &mut Vec<Diagnostic>,
)
    ensures
        findings(final(diagnostics)@) == findings(old(diagnostics)@)
            + occurrence_number_findings(occurrence, occurrence_pointer@, file),
{
    match get(occurrence, "occurrence") {
        Some(value) => {
            if !is_opaque_arm_expression(file, value) {
                match integer_value(value) {
                    Some(number) => {
                        if !(-5 <= number && number <= 5 && number != 0) {
                            let message = text3(
                                "Recurrence schedule.monthlyOccurrences.occurrence value ",
                                decimal_of_i64(number).as_str(),
                                " is out of range",
                            );
                            report_value(
                                file,
                                occurrence_pointer,
                                "occurrence",
                                value.span,
                                message.as_str(),
                                diagnostics,
                            );
                        }
                    },
                    None => {
                        report_type(
                            file,
                            occurrence_pointer,
                            "occurrence",
                            value.span,
                            "Recurrence schedule.monthlyOccurrences.occurrence must be an integer",
                            diagnostics,
                        );
                    },
                }
            }
        },
        None => {
            report_missing(
                file,
                occurrence_pointer,
                "occurrence",
                occurrence.span,
                "object is missing required field 'occurrence'",
                diagnostics,
            );
        },
    }
}

/// What is wrong with the first `n` of the monthly occurrences of a schedule.
pub open spec fn occurrence_findings(
    items: Seq<Node>,
    n: nat,
    base: Seq<char>,
    file: &Document,
) -> Seq<Finding>
    decreases n,
{
    if n == 0 {
        Seq::empty()
    } else {
        let item = items[n - 1];
        let index = decimal(n - 1);
        occurrence_findings(items, (n - 1) as nat, base, file) + (if is_opaque(file, &item) {
            Seq::empty()
        } else {
            if item.kind is Object {
                let occurrence_pointer = joined(base, index);
                occurrence_number_findings(&item, occurrence_pointer, file)
                    + required_enum_findings(
                        &item,
                        occurrence_pointer,
                        "dayOfWeek"@,
                        "Recurrence schedule.monthlyOccurrences.dayOfWeek"@,
                        week_day_names(),
                        file,
                    )
            } else {
                wrong_type(
                    file,
                    base,
                    index,
                    item.span,
                    "Recurrence schedule.monthlyOccurrences entries must be objects"@,
                )
            }
        })
    }
}

fn validate_occurrences(
    items: &Vec<Node>,
    base: &str,
    file: &Document,
    diagnostics: &mut Vec<Diagnostic>,
)
    ensures
        findings(final(diagnostics)@) == findings(old(diagnostics)@)
            + occurrence_findings(items@, items@.len(), base@, file),
{
    let ghost before = findings(diagnostics@);
    let mut i: usize = 0;
    while i < items.len()
        invariant
            i <= items.len(),
            findings(diagnostics@) == before + occurrence_findings(items@, i as nat, base@, file),
        decreases items.len() - i,
    {
        let item = &items[i];
        let index_text = decimal_of_usize(i);
        let index = index_text.as_str();
        if !is_opaque_arm_expression(file, item) {
            if item.is_object() {
                let occurrence_pointer_text = pointer_join(base, index);
                let occurrence_pointer = occurrence_pointer_text.as_str();
                validate_monthly_occurrence_number(item, occurrence_pointer, file, diagnostics);
                validate_required_string_enum(
                    item,
                    occurrence_pointer,
                    "dayOfWeek",
                    "Recurrence schedule.monthlyOccurrences.dayOfWeek",
                    week_day_list().as_slice(),
                    file,
                    diagnostics,
                );
            } else {
                report_type(
                    file,
                    base,
                    index,
                    item.span,
                    "Recurrence schedule.monthlyOccurrences entries must be objects",
                    diagnostics,
                );
            }
        }
        i += 1;
    }
}

/// What is wrong with `monthlyOccurrences`.
pub open spec fn monthly_occurrences_findings(
    schedule: &Node,
    schedule_pointer: Seq<char>,
    file: &Document,
) -> Seq<Finding> {
    match checked(file, schedule, "monthlyOccurrences"@) {
        Some(value) => match value.kind {
            Json::Array(items) => occurrence_findings(
                items@,
                items@.len(),
                joined(schedule_pointer, "monthlyOccurrences"@),
                file,
            ),
            _ => wrong_type(
                file,
                schedule_pointer,
                "monthlyOccurrences"@,
                value.span,
                "Recurrence schedule.monthlyOccurrences must be an array"@,
            ),
        },
        None => Seq::empty(),
    }
}

/// Validate `monthlyOccurrences`.
pub fn validate_monthly_occurrences(
    schedule: &Node,
    schedule_pointer: &str,
    file: &Document,
    diagnostics: &mut Vec<Diagnostic>,
)
    ensures
        findings(final(diagnostics)@) == findings(old(diagnostics)@)
            + monthly_occurrences_findings(schedule, schedule_pointer@, file),
{
    if let Some(value) = get_checked(file, schedule, "monthlyOccurrences") {
        match as_array(value) {
            Some(items) => {
                let pointer = pointer_join(schedule_pointer, "monthlyOccurrences");
                validate_occurrences(items, pointer.as_str(), file, diagnostics);
            },
            None => {
                report_type(
                    file,
                    schedule_pointer,
                    "monthlyOccurrences",
                    value.span,
                    "Recurrence schedule.monthlyOccurrences must be an array",
                    diagnostics,
                );
            },
        }
    }
}

/// What is wrong with the fields of a schedule against the frequency.
pub open spec fn schedule_context_findings(
    schedule: &Node,
    schedule_pointer: Seq<char>,
    frequency: Seq<char>,
    file: &Document,
) -> Seq<Finding> {
    (match present(file, schedule, "minutes"@) {
        Some(value) => if frequency != "Day"@ && frequency != "Week"@ {
            wrong_context(
                file,
                schedule_pointer,
                "minutes"@,
                value.span,
                "Recurrence schedule.minutes is only supported when frequency is Day or Week"@,
            )
        } else {
            Seq::empty()
        },
        None => Seq::empty(),
    }) + (match present(file, schedule, "hours"@) {
        Some(value) => if frequency != "Day"@ && frequency != "Week"@ {
            wrong_context(
                file,
                schedule_pointer,
                "hours"@,
                value.span,
                "Recurrence schedule.hours is only supported when frequency is Day or Week"@,
            )
        } else {
            Seq::empty()
        },
        None => Seq::empty(),
    }) + (match present(file, schedule, "monthDays"@) {
        Some(value) => if frequency != "Month"@ {
            wrong_context(
                file,
                schedule_pointer,
                "monthDays"@,
                value.span,
                "Recurrence schedule.monthDays is only supported when frequency is Month"@,
            )
        } else {
            Seq::empty()
        },
        None => Seq::empty(),
    }) + (match present(file, schedule, "monthlyOccurrences"@) {
        Some(value) => if frequency != "Month"@ {
            wrong_context(
                file,
                schedule_pointer,
                "monthlyOccurrences"@,
                value.span,
                "Recurrence schedule.monthlyOccurrences is only supported when frequency is Month"@,
            )
        } else {
            Seq::empty()
        },
        None => Seq::empty(),
    })
}

/// Validate the fields of a schedule against the frequency.
fn validate_schedule_context(
    schedule: &Node,
    schedule_pointer: &str,
    frequency: &str,
    file: &Document,
    diagnostics: &mut Vec<Diagnostic>,
)
    ensures
        findings(final(diagnostics)@) == findings(old(diagnostics)@)
            + schedule_context_findings(schedule, schedule_pointer@, frequency@, file),
{
    if let Some(value) = get_present(file, schedule, "minutes") {
        if !text_eq(frequency, "Day") && !text_eq(frequency, "Week") {
            report_context(
                file,
                schedule_pointer,
                "minutes",
                value.span,
                "Recurrence schedule.minutes is only supported when frequency is Day or Week",
                diagnostics,
            );
        }
    }
    if let Some(value) = get_present(file, schedule, "hours") {
        if !text_eq(frequency, "Day") && !text_eq(frequency, "Week") {
            report_context(
                file,
                schedule_pointer,
                "hours",
                value.span,
                "Recurrence schedule.hours is only supported when frequency is Day or Week",
                diagnostics,
            );
        }
    }
    if let Some(value) = get_present(file, schedule, "monthDays") {
        if !text_eq(frequency, "Month") {
            report_context(
                file,
                schedule_pointer,
                "monthDays",
                value.span,
                "Recurrence schedule.monthDays is only supported when frequency is Month",
                diagnostics,
            );
        }
    }
    if let Some(value) = get_present(file, schedule, "monthlyOccurrences") {
        if !text_eq(frequency, "Month") {
            report_context(
                file,
                schedule_pointer,
                "monthlyOccurrences",
                value.span,
                "Recurrence schedule.monthlyOccurrences is only supported when frequency is Month",
                diagnostics,
            );
        }
    }
}

/// A single number of hours or minutes may stand for a list of one, unless the
/// schedule names week days.
pub open spec fn allows_shorthand(schedule: &Node, file: &Document) -> bool {
    present(file, schedule, "weekDays"@) is None
}

/// What is wrong with the numbers and occurrences of a schedule.
pub open spec fn schedule_lists_findings(
    schedule: &Node,
    schedule_pointer: Seq<char>,
    file: &Document,
) -> Seq<Finding> {
    schedule_list_findings(
        schedule,
        schedule_pointer,
        "minutes"@,
        (IntegerListRule {
            low: 0,
            high: 59,
            allow_string_values: true,
            allow_scalar: allows_shorthand(schedule, file),
        }),
        file,
    )
        + schedule_list_findings(
            schedule,
            schedule_pointer,
            "hours"@,
            (IntegerListRule {
                low: 0,
                high: 23,
                allow_string_values: true,
                allow_scalar: allows_shorthand(schedule, file),
            }),
            file,
        )
        + schedule_list_findings(
            schedule,
            schedule_pointer,
            "monthDays"@,
            (IntegerListRule {
                low: (-31int) as i64,
                high: 31,
                allow_string_values: false,
                allow_scalar: false,
            }),
            file,
        )
        + monthly_occurrences_findings(schedule, schedule_pointer, file)
}

/// Validate the numbers and occurrences of a schedule.
fn validate_schedule_lists(
    schedule: &Node,
    schedule_pointer: &str,
    file: &Document,
    diagnostics: &mut Vec<Diagnostic>,
)
    ensures
        findings(final(diagnostics)@) == findings(old(diagnostics)@)
            + schedule_lists_findings(schedule, schedule_pointer@, file),
{
    let allow_scalar: bool = get_present(file, schedule, "weekDays").is_none();
    validate_integer_list_field(
        schedule,
        schedule_pointer,
        "minutes",
        IntegerListRule { low: 0, high: 59, allow_string_values: true, allow_scalar },
        file,
        diagnostics,
    );
    validate_integer_list_field(
        schedule,
        schedule_pointer,
        "hours",
        IntegerListRule { low: 0, high: 23, allow_string_values: true, allow_scalar },
        file,
        diagnostics,
    );
    validate_integer_list_field(
        schedule,
        schedule_pointer,
        "monthDays",
        IntegerListRule { low: -31, high: 31, allow_string_values: false, allow_scalar: false },
        file,
        diagnostics,
    );
    validate_monthly_occurrences(schedule, schedule_pointer, file, diagnostics);
}

/// What is wrong with the week days of a schedule against the frequency.
pub open spec fn schedule_week_findings(
    recurrence: &Node,
    schedule: &Node,
    schedule_pointer: Seq<char>,
    file: &Document,
) -> Seq<Finding> {
    match field(schedule, "weekDays"@) {
        Some(week_days) => week_days_findings(
            &week_days,
            joined(schedule_pointer, "weekDays"@),
            file,
        )
            + (match known_frequency(recurrence, file) {
            Some(frequency) => if frequency != "Week"@ && !is_absent(file, &week_days) {
                wrong_context(
                    file,
                    schedule_pointer,
                    "weekDays"@,
                    week_days.span,
                    "Recurrence schedule.weekDays is only supported when frequency is Week"@,
                )
            } else {
                Seq::empty()
            },
            None => Seq::empty(),
        }),
        None => Seq::empty(),
    }
}

/// Validate the week days of a schedule against the frequency.
fn validate_schedule_week(
    recurrence: &Node,
    schedule: &Node,
    schedule_pointer: &str,
    file: &Document,
    diagnostics: &mut Vec<Diagnostic>,
)
    ensures
        findings(final(diagnostics)@) == findings(old(diagnostics)@)
            + schedule_week_findings(recurrence, schedule, schedule_pointer@, file),
{
    if let Some(week_days) = get(schedule, "weekDays") {
        let week_pointer = pointer_join(schedule_pointer, "weekDays");
        validate_week_days(week_days, week_pointer.as_str(), file, diagnostics);
        if let Some(frequency) = get_known_frequency(recurrence, file) {
            if !text_eq(frequency, "Week") && !arm_optional_property_absent(file, week_days) {
                report_context(
                    file,
                    schedule_pointer,
                    "weekDays",
                    week_days.span,
                    "Recurrence schedule.weekDays is only supported when frequency is Week",
                    diagnostics,
                );
            }
        }
    }
}

/// What is wrong with the `schedule` of a recurrence.
pub open spec fn schedule_findings(
    recurrence: &Node,
    recurrence_pointer: Seq<char>,
    file: &Document,
) -> Seq<Finding> {
    match checked(file, recurrence, "schedule"@) {
        Some(schedule) => if schedule.kind is Object {
            let schedule_pointer = joined(recurrence_pointer, "schedule"@);
            (match known_frequency(recurrence, file) {
                Some(frequency) => schedule_context_findings(
                    &schedule,
                    schedule_pointer,
                    frequency,
                    file,
                ),
                None => Seq::empty(),
            }) + schedule_week_findings(
                recurrence,
                &schedule,
                schedule_pointer,
                file,
            ) + schedule_lists_findings(&schedule, schedule_pointer, file)
        } else {
            wrong_type(
                file,
                recurrence_pointer,
                "schedule"@,
                schedule.span,
                "Recurrence schedule must be an object"@,
            )
        },
        None => Seq::empty(),
    }
}

/// Validate the `schedule` of a recurrence, whose fields depend on the
/// frequency: hours and minutes go with days and weeks, month days and
/// occurrences with months, week days with weeks. With week days, hours and
/// minutes are lists; without, a single number will do.
pub fn validate_recurrence_schedule(
    recurrence: &Node,
    recurrence_pointer: &str,
    file: &Document,
    diagnostics: &mut Vec<Diagnostic>,
)
    ensures
        findings(final(diagnostics)@) == findings(old(diagnostics)@)
            + schedule_findings(recurrence, recurrence_pointer@, file),
{
    if let Some(schedule) = get_checked(file, recurrence, "schedule") {
        if schedule.is_object() {
            let schedule_pointer_text = pointer_join(recurrence_pointer, "schedule");
            let schedule_pointer = schedule_pointer_text.as_str();
            if let Some(frequency) = get_known_frequency(recurrence, file) {
                validate_schedule_context(schedule, schedule_pointer, frequency, file, diagnostics);
            }
            validate_schedule_week(recurrence, schedule, schedule_pointer, file, diagnostics);
            validate_schedule_lists(schedule, schedule_pointer, file, diagnostics);
        } else {
            report_type(
                file,
                recurrence_pointer,
                "schedule",
                schedule.span,
                "Recurrence schedule must be an object",
                diagnostics,
            );
        }
    }
}
} // verus!
