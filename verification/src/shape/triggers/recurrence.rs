//! Shape validator for recurrences: of the `Recurrence` trigger, of other
//! triggers, and of batch release criteria.

use vstd::prelude::*;

use crate::diagnostic::{findings, Diagnostic, Finding};
use crate::json::{as_string, field, get, joined, pointer_join, text_of, Document, Node};
use crate::shape::arm_boundary::{
    arm_optional_property_absent, authored, checked, get_authored, get_checked, get_present,
    is_absent, is_opaque, is_opaque_arm_expression, node_in, present,
};
use crate::shape::dynamic_wdl::{
    may_be_positive_integer, wdl_string_has_dynamic_value, wdl_string_may_be_positive_integer,
    wdl_string_may_match_exact,
};
use crate::shape::field_validators::{
    integer_findings, string_findings, validate_optional_integer_field,
    validate_optional_string_field,
};
use crate::shape::numbers::{
    is_integer, is_integer_value, is_positive_integer, is_positive_integer_value,
};
use crate::shape::report::{
    missing, report_missing, report_type, report_value, wrong_type, wrong_value,
};
use crate::shape::time::{
    has_offset, has_z_suffix, is_datetime, is_iso8601_datetime, is_windows_time_zone, is_zone_name,
    iso8601_datetime_has_utc_offset, iso8601_datetime_has_z_suffix,
};
use crate::shape::triggers::date::{
    start_time_findings, validate_recurrence_start_time_future_limit,
};
use crate::shape::triggers::schedule::{
    interval_limit_findings, schedule_findings, validate_recurrence_interval_limit,
    validate_recurrence_schedule,
};
use crate::text::{names, text2, text3, text_eq};
use crate::wdl::value::{classified, is_dynamic, may_match};

verus! {

broadcast use crate::diagnostic::group_findings;

pub open spec fn recurrence_frequency_names() -> Seq<Seq<char>> {
    seq!["Second"@, "Minute"@, "Hour"@, "Day"@, "Week"@, "Month"@, "Year"@]
}

pub fn recurrence_frequency_list() -> (list: Vec<&'static str>)
    ensures
        names(list@) == recurrence_frequency_names(),
{
    let list = vec!["Second", "Minute", "Hour", "Day", "Week", "Month", "Year"];
    assert(names(list@) =~= recurrence_frequency_names());
    list
}

/// What is wrong with the frequency of a recurrence.
pub open spec fn frequency_findings(
    recurrence: &Node,
    recurrence_pointer: Seq<char>,
    file: &Document,
) -> Seq<Finding> {
    match authored(file, recurrence, "frequency"@) {
        Some(frequency) => match text_of(&frequency) {
            Some(text) => if may_match(classified(text), recurrence_frequency_names()) {
                Seq::empty()
            } else {
                wrong_value(
                    file,
                    recurrence_pointer,
                    "frequency"@,
                    frequency.span,
                    "Recurrence frequency '"@ + text + "' is not supported"@,
                )
            },
            None => wrong_type(
                file,
                recurrence_pointer,
                "frequency"@,
                frequency.span,
                "Recurrence frequency must be a string"@,
            ),
        },
        None => Seq::empty(),
    }
}

/// Validate the frequency of a recurrence.
fn validate_frequency(
    recurrence: &Node,
    recurrence_pointer: &str,
    file: &Document,
    diagnostics: &mut Vec<Diagnostic>,
)
    ensures
        findings(final(diagnostics)@) == findings(old(diagnostics)@)
            + frequency_findings(recurrence, recurrence_pointer@, file),
{
    if let Some(frequency) = get_authored(file, recurrence, "frequency") {
        match as_string(frequency) {
            Some(text) => {
                if !wdl_string_may_match_exact(text, recurrence_frequency_list().as_slice()) {
                    let message = text3("Recurrence frequency '", text, "' is not supported");
                    report_value(
                        file,
                        recurrence_pointer,
                        "frequency",
                        frequency.span,
                        message.as_str(),
                        diagnostics,
                    );
                }
            },
            None => {
                report_type(
                    file,
                    recurrence_pointer,
                    "frequency",
                    frequency.span,
                    "Recurrence frequency must be a string",
                    diagnostics,
                );
            },
        }
    }
}

fn text_may_be_positive(value: &Node) -> (may: bool)
    ensures
        may == (text_of(value) is Some && may_be_positive_integer(text_of(value)->Some_0)),
{
    match as_string(value) {
        Some(text) => wdl_string_may_be_positive_integer(text),
        None => false,
    }
}

fn is_dynamic_text(value: &Node) -> (holds: bool)
    ensures
        holds == (text_of(value) is Some && is_dynamic(text_of(value)->Some_0)),
{
    match as_string(value) {
        Some(text) => wdl_string_has_dynamic_value(text),
        None => false,
    }
}

/// What is wrong with the interval of a recurrence.
pub open spec fn interval_findings(
    recurrence: &Node,
    recurrence_pointer: Seq<char>,
    file: &Document,
) -> Seq<Finding> {
    match authored(file, recurrence, "interval"@) {
        Some(interval) => if !(
            text_of(&interval) is Some && may_be_positive_integer(text_of(&interval)->Some_0)
        )
            && !is_integer(&interval) {
            wrong_type(
                file,
                recurrence_pointer,
                "interval"@,
                interval.span,
                "Recurrence interval must be an integer"@,
            )
        } else {
            if !(text_of(&interval) is Some && is_dynamic(text_of(&interval)->Some_0))
                && !is_positive_integer(&interval) {
                wrong_value(
                    file,
                    recurrence_pointer,
                    "interval"@,
                    interval.span,
                    "Recurrence interval must be greater than zero"@,
                )
            } else {
                Seq::empty()
            }
        },
        None => Seq::empty(),
    }
}

/// Validate the interval of a recurrence.
fn validate_interval(
    recurrence: &Node,
    recurrence_pointer: &str,
    file: &Document,
    diagnostics: &mut Vec<Diagnostic>,
)
    ensures
        findings(final(diagnostics)@) == findings(old(diagnostics)@)
            + interval_findings(recurrence, recurrence_pointer@, file),
{
    if let Some(interval) = get_authored(file, recurrence, "interval") {
        if !text_may_be_positive(interval) && !is_integer_value(interval) {
            report_type(
                file,
                recurrence_pointer,
                "interval",
                interval.span,
                "Recurrence interval must be an integer",
                diagnostics,
            );
        } else {
            if !is_dynamic_text(interval) && !is_positive_integer_value(interval) {
                report_value(
                    file,
                    recurrence_pointer,
                    "interval",
                    interval.span,
                    "Recurrence interval must be greater than zero",
                    diagnostics,
                );
            }
        }
    }
}

/// What is wrong with a start or end time.
pub open spec fn datetime_findings(
    recurrence: &Node,
    recurrence_pointer: Seq<char>,
    key: Seq<char>,
    label: Seq<char>,
    file: &Document,
) -> Seq<Finding> {
    match authored(file, recurrence, key) {
        Some(value) => match text_of(&value) {
            Some(text) => if is_dynamic(text) {
                Seq::empty()
            } else {
                if !is_datetime(text) {
                    wrong_value(
                        file,
                        recurrence_pointer,
                        key,
                        value.span,
                        label + " must be an ISO 8601 date-time"@,
                    )
                } else {
                    if has_offset(text) {
                        wrong_value(
                            file,
                            recurrence_pointer,
                            key,
                            value.span,
                            label + " must not include a UTC offset"@,
                        )
                    } else {
                        if present(file, recurrence, "timeZone"@) is None && !has_z_suffix(text) {
                            wrong_value(
                                file,
                                recurrence_pointer,
                                key,
                                value.span,
                                label
                                    + " must end with 'Z' when recurrence.timeZone is not specified"@,
                            )
                        } else {
                            if key == "startTime"@ {
                                start_time_findings(text, recurrence_pointer, &value, file)
                            } else {
                                Seq::empty()
                            }
                        }
                    }
                }
            },
            None => Seq::empty(),
        },
        None => Seq::empty(),
    }
}

/// Validate a start or end time: a datetime without an offset, in UTC unless a time zone is given.
fn validate_optional_recurrence_datetime(
    recurrence: &Node,
    recurrence_pointer: &str,
    key: &str,
    label: &str,
    file: &Document,
    diagnostics: &mut Vec<Diagnostic>,
)
    ensures
        findings(final(diagnostics)@) == findings(old(diagnostics)@)
            + datetime_findings(recurrence, recurrence_pointer@, key@, label@, file),
{
    if let Some(value) = get_authored(file, recurrence, key) {
        if let Some(text) = as_string(value) {
            if !wdl_string_has_dynamic_value(text) {
                if !is_iso8601_datetime(text) {
                    let message = text2(label, " must be an ISO 8601 date-time");
                    report_value(
                        file,
                        recurrence_pointer,
                        key,
                        value.span,
                        message.as_str(),
                        diagnostics,
                    );
                } else {
                    if iso8601_datetime_has_utc_offset(text) {
                        let message = text2(label, " must not include a UTC offset");
                        report_value(
                            file,
                            recurrence_pointer,
                            key,
                            value.span,
                            message.as_str(),
                            diagnostics,
                        );
                    } else {
                        if get_present(file, recurrence, "timeZone").is_none()
                            && !iso8601_datetime_has_z_suffix(text) {
                            let message = text2(
                                label,
                                " must end with 'Z' when recurrence.timeZone is not specified",
                            );
                            report_value(
                                file,
                                recurrence_pointer,
                                key,
                                value.span,
                                message.as_str(),
                                diagnostics,
                            );
                        } else {
                            if text_eq(key, "startTime") {
                                validate_recurrence_start_time_future_limit(
                                    text,
                                    recurrence_pointer,
                                    value,
                                    file,
                                    diagnostics,
                                );
                            }
                        }
                    }
                }
            }
        }
    }
}

/// What is wrong with the time zone of a recurrence.
pub open spec fn time_zone_findings(
    recurrence: &Node,
    recurrence_pointer: Seq<char>,
    file: &Document,
) -> Seq<Finding> {
    match checked(file, recurrence, "timeZone"@) {
        Some(value) => match text_of(&value) {
            Some(text) => if is_dynamic(text) || is_zone_name(text) {
                Seq::empty()
            } else {
                wrong_value(
                    file,
                    recurrence_pointer,
                    "timeZone"@,
                    value.span,
                    "Recurrence timeZone '"@ + text + "' is not a supported Windows time zone"@,
                )
            },
            None => Seq::empty(),
        },
        None => Seq::empty(),
    }
}

/// Validate the time zone of a recurrence.
fn validate_optional_recurrence_time_zone(
    recurrence: &Node,
    recurrence_pointer: &str,
    file: &Document,
    diagnostics: &mut Vec<Diagnostic>,
)
    ensures
        findings(final(diagnostics)@) == findings(old(diagnostics)@)
            + time_zone_findings(recurrence, recurrence_pointer@, file),
{
    if let Some(value) = get_checked(file, recurrence, "timeZone") {
        if let Some(text) = as_string(value) {
            if !(wdl_string_has_dynamic_value(text) || is_windows_time_zone(text)) {
                let message = text3(
                    "Recurrence timeZone '",
                    text,
                    "' is not a supported Windows time zone",
                );
                report_value(
                    file,
                    recurrence_pointer,
                    "timeZone",
                    value.span,
                    message.as_str(),
                    diagnostics,
                );
            }
        }
    }
}

/// What is wrong with a recurrence object.
pub open spec fn recurrence_object_findings(
    recurrence: &Node,
    recurrence_pointer: Seq<char>,
    file: &Document,
) -> Seq<Finding> {
    (if field(recurrence, "frequency"@) is None {
        missing(
            file,
            recurrence_pointer,
            "frequency"@,
            recurrence.span,
            "Recurrence trigger is missing required field 'frequency'"@,
        )
    } else {
        Seq::empty()
    }) + (if field(recurrence, "interval"@) is None {
        missing(
            file,
            recurrence_pointer,
            "interval"@,
            recurrence.span,
            "Recurrence trigger is missing required field 'interval'"@,
        )
    } else {
        Seq::empty()
    }) + frequency_findings(recurrence, recurrence_pointer, file) + interval_findings(recurrence, recurrence_pointer, file) + interval_limit_findings(recurrence, recurrence_pointer, file) + integer_findings(recurrence, recurrence_pointer, "count"@, "Recurrence count"@, file) + string_findings(recurrence, recurrence_pointer, "startTime"@, "Recurrence startTime"@, file) + datetime_findings(
        recurrence,
        recurrence_pointer,
        "startTime"@,
        "Recurrence startTime"@,
        file,
    ) + string_findings(recurrence, recurrence_pointer, "endTime"@, "Recurrence endTime"@, file) + datetime_findings(recurrence, recurrence_pointer, "endTime"@, "Recurrence endTime"@, file) + string_findings(
        recurrence,
        recurrence_pointer,
        "timeZone"@,
        "Recurrence timeZone"@,
        file,
    ) + time_zone_findings(recurrence, recurrence_pointer, file) + schedule_findings(
        recurrence,
        recurrence_pointer,
        file,
    )
}

/// Validate a recurrence object.
fn validate_recurrence_object(
    recurrence: &Node,
    recurrence_pointer: &str,
    file: &Document,
    diagnostics: &mut Vec<Diagnostic>,
)
    ensures
        findings(final(diagnostics)@) == findings(old(diagnostics)@)
            + recurrence_object_findings(recurrence, recurrence_pointer@, file),
{
    if get(recurrence, "frequency").is_none() {
        report_missing(
            file,
            recurrence_pointer,
            "frequency",
            recurrence.span,
            "Recurrence trigger is missing required field 'frequency'",
            diagnostics,
        );
    }
    if get(recurrence, "interval").is_none() {
        report_missing(
            file,
            recurrence_pointer,
            "interval",
            recurrence.span,
            "Recurrence trigger is missing required field 'interval'",
            diagnostics,
        );
    }
    validate_frequency(recurrence, recurrence_pointer, file, diagnostics);
    validate_interval(recurrence, recurrence_pointer, file, diagnostics);
    validate_recurrence_interval_limit(recurrence, recurrence_pointer, file, diagnostics);
    validate_optional_integer_field(
        recurrence,
        recurrence_pointer,
        "count",
        "Recurrence count",
        file,
        diagnostics,
    );
    validate_optional_string_field(
        recurrence,
        recurrence_pointer,
        "startTime",
        "Recurrence startTime",
        file,
        diagnostics,
    );
    validate_optional_recurrence_datetime(
        recurrence,
        recurrence_pointer,
        "startTime",
        "Recurrence startTime",
        file,
        diagnostics,
    );
    validate_optional_string_field(
        recurrence,
        recurrence_pointer,
        "endTime",
        "Recurrence endTime",
        file,
        diagnostics,
    );
    validate_optional_recurrence_datetime(
        recurrence,
        recurrence_pointer,
        "endTime",
        "Recurrence endTime",
        file,
        diagnostics,
    );
    validate_optional_string_field(
        recurrence,
        recurrence_pointer,
        "timeZone",
        "Recurrence timeZone",
        file,
        diagnostics,
    );
    validate_optional_recurrence_time_zone(recurrence, recurrence_pointer, file, diagnostics);
    validate_recurrence_schedule(recurrence, recurrence_pointer, file, diagnostics);
}

/// What is wrong with the `recurrence` of a trigger.
pub open spec fn recurrence_findings(
    trigger: &Node,
    recurrence: Option<Node>,
    trigger_pointer: Seq<char>,
    file: &Document,
) -> Seq<Finding> {
    match recurrence {
        Some(found) => if is_opaque(file, &found) {
            Seq::empty()
        } else {
            if found.kind is Object {
                recurrence_object_findings(&found, joined(trigger_pointer, "recurrence"@), file)
            } else {
                wrong_type(
                    file,
                    trigger_pointer,
                    "recurrence"@,
                    found.span,
                    "Recurrence trigger field 'recurrence' must be an object"@,
                )
            }
        },
        None => missing(
            file,
            trigger_pointer,
            "recurrence"@,
            trigger.span,
            "Recurrence trigger is missing required object field 'recurrence'"@,
        ),
    }
}

/// Validate the `recurrence` of a trigger.
pub fn validate_recurrence_trigger(
    trigger: &Node,
    recurrence: Option<&Node>,
    trigger_pointer: &str,
    file: &Document,
    diagnostics: &mut Vec<Diagnostic>,
)
    ensures
        findings(final(diagnostics)@) == findings(old(diagnostics)@)
            + recurrence_findings(trigger, node_in(recurrence), trigger_pointer@, file),
{
    match recurrence {
        Some(found) => {
            if !is_opaque_arm_expression(file, found) {
                if found.is_object() {
                    let pointer = pointer_join(trigger_pointer, "recurrence");
                    validate_recurrence_object(found, pointer.as_str(), file, diagnostics);
                } else {
                    report_type(
                        file,
                        trigger_pointer,
                        "recurrence",
                        found.span,
                        "Recurrence trigger field 'recurrence' must be an object",
                        diagnostics,
                    );
                }
            }
        },
        None => {
            report_missing(
                file,
                trigger_pointer,
                "recurrence",
                trigger.span,
                "Recurrence trigger is missing required object field 'recurrence'",
                diagnostics,
            );
        },
    }
}

/// What is wrong with a `recurrence` that may be left out. One that a template
/// gives as null is left out.
pub open spec fn optional_recurrence_findings(
    trigger: &Node,
    recurrence: Option<Node>,
    trigger_pointer: Seq<char>,
    file: &Document,
) -> Seq<Finding> {
    match recurrence {
        Some(given) if !is_absent(file, &given) => recurrence_findings(
            trigger,
            recurrence,
            trigger_pointer,
            file,
        ),
        _ => Seq::empty(),
    }
}

/// Validate a `recurrence` that may be left out.
pub fn validate_optional_recurrence(
    trigger: &Node,
    recurrence: Option<&Node>,
    trigger_pointer: &str,
    file: &Document,
    diagnostics: &mut Vec<Diagnostic>,
)
    ensures
        findings(final(diagnostics)@) == findings(old(diagnostics)@)
            + optional_recurrence_findings(trigger, node_in(recurrence), trigger_pointer@, file),
{
    if let Some(given) = recurrence {
        if !arm_optional_property_absent(file, given) {
            validate_recurrence_trigger(trigger, recurrence, trigger_pointer, file, diagnostics);
        }
    }
}

} // verus!
