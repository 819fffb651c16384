//! `runtimeConfiguration`.
//!
//! Each nested block has a module of its own; the rules on concurrency, waiting
//! runs and pagination are here.

use vstd::prelude::*;

use crate::arm::ArmScope;
use crate::diagnostic::{findings, Diagnostic, Finding};
use crate::json::{as_string, field, get, joined, pointer_join, text_of, Document, Node};
use crate::shape::arm_boundary::{
    authored, get_authored,
    checked, get_checked, get_present, is_opaque, is_opaque_arm_expression, present,
};
use crate::shape::content_transfer::{content_transfer_findings, validate_runtime_content_transfer};
use crate::shape::dynamic_wdl::wdl_string_has_dynamic_value;
use crate::shape::field_validators::{
    positive_integer_findings, range_findings, validate_optional_integer_range,
    validate_optional_positive_integer,
};
use crate::shape::node_type::{type_is, node_type_is, is_foreach_action};
use crate::shape::numbers::{integer_of, integer_value};
use crate::shape::operation_options::{operation_option_enabled, option_enabled};
use crate::shape::report::{
    issue, missing, report, report_context, report_missing, report_type, wrong_context, wrong_type,
};
use crate::shape::secure_data::{secure_data_findings, validate_runtime_secure_data};
use crate::shape::static_results::{static_result_findings, validate_runtime_static_result};
use crate::text::{decimal, decimal_of_i64, text2, text4, text_eq};
use crate::wdl::value::is_dynamic;
use crate::workflow::{standard, stateless, Workflow};

verus! {

broadcast use crate::diagnostic::group_findings;

/// The number of runs that concurrency allows, where it is written out.
pub open spec fn allowed_runs(concurrency: &Node, file: &Document) -> Option<int> {
    match checked(file, concurrency, "runs"@) {
        Some(runs) => integer_of(&runs),
        None => None,
    }
}

/// The options of the operation include `SingleInstance`.
pub open spec fn is_single(operation: &Node, file: &Document) -> bool {
    match authored(file, operation, "operationOptions"@) {
        Some(options) => match text_of(&options) {
            Some(text) => option_enabled(text, "SingleInstance"@),
            None => false,
        },
        None => false,
    }
}

/// The options of the operation may turn out to include `SingleInstance`.
pub open spec fn may_be_single(operation: &Node, file: &Document) -> bool {
    match field(operation, "operationOptions"@) {
        Some(options) => is_opaque(file, &options)
            || (text_of(&options) is Some && is_dynamic(text_of(&options)->Some_0)),
        None => false,
    }
}

/// The least number of waiting runs: ten more than the runs that are allowed.
pub open spec fn least_waiting(operation: &Node, concurrency: &Node, file: &Document) -> int {
    match allowed_runs(concurrency, file) {
        Some(runs) => runs + 10,
        None => if is_single(operation, file) { 11 } else { 1 },
    }
}

/// The largest number of waiting runs.
pub open spec fn most_waiting(label: Seq<char>, workflow: &Workflow) -> int {
    if label == "trigger"@ && standard(workflow) { 200 } else { 100 }
}

fn operation_is_single(operation: &Node, file: &Document) -> (holds: bool)
    ensures
        holds == is_single(operation, file),
{
    match get_authored(file, operation, "operationOptions") {
        Some(options) => match as_string(options) {
            Some(text) => operation_option_enabled(text, "SingleInstance"),
            None => false,
        },
        None => false,
    }
}

fn operation_may_be_single(operation: &Node, file: &Document) -> (holds: bool)
    ensures
        holds == may_be_single(operation, file),
{
    match get(operation, "operationOptions") {
        Some(options) => is_opaque_arm_expression(file, options) || match as_string(options) {
            Some(text) => wdl_string_has_dynamic_value(text),
            None => false,
        },
        None => false,
    }
}

fn waiting_runs_in_range(
    waiting: i64,
    operation: &Node,
    concurrency: &Node,
    label: &str,
    file: &Document,
    workflow: &Workflow,
) -> (holds: bool)
    ensures
        holds == (
            least_waiting(operation, concurrency, file) <= waiting <= most_waiting(label@, workflow)
        ),
{
    let least: i128 = match get_checked(file, concurrency, "runs") {
        Some(runs) => match integer_value(runs) {
            Some(n) => n as i128 + 10,
            None => if operation_is_single(operation, file) { 11 } else { 1 },
        },
        None => if operation_is_single(operation, file) { 11 } else { 1 },
    };
    let most: i64 = if text_eq(label, "trigger") && workflow.is_standard() { 200 } else { 100 };
    least <= waiting as i128 && waiting <= most
}

/// What is wrong with the number of waiting runs.
pub open spec fn waiting_value_findings(
    waiting: &Node,
    number: i64,
    pointer: Seq<char>,
    operation: &Node,
    concurrency: &Node,
    label: Seq<char>,
    file: &Document,
    workflow: &Workflow,
) -> Seq<Finding> {
    (if label == "trigger"@ && present(file, concurrency, "runs"@) is None && !is_single(operation, file) && !may_be_single(operation, file) {
        issue(
            file,
            "workflow-shape-invalid-context"@,
            pointer,
            Some(waiting.span),
            label
                + " runtimeConfiguration.concurrency.maximumWaitingRuns requires runtimeConfiguration.concurrency.runs or operationOptions SingleInstance"@,
        )
    } else {
        Seq::empty()
    }) + (if least_waiting(operation, concurrency, file) <= number <= most_waiting(label, workflow) {
        Seq::empty()
    } else {
        issue(
            file,
            "workflow-shape-invalid-value"@,
            pointer,
            Some(waiting.span),
            label
                + " runtimeConfiguration.concurrency.maximumWaitingRuns value "@
                + decimal(number as int)
                + " is out of range"@,
        )
    })
}

/// Validate the number of waiting runs.
fn validate_waiting_value(
    waiting: &Node,
    number: i64,
    pointer: &str,
    operation: &Node,
    concurrency: &Node,
    label: &str,
    file: &Document,
    workflow: &Workflow,
    diagnostics: &mut Vec<Diagnostic>,
)
    ensures
        findings(final(diagnostics)@) == findings(old(diagnostics)@)
            + waiting_value_findings(
                waiting,
                number,
                pointer@,
                operation,
                concurrency,
                label@,
                file,
                workflow,
            ),
{
    if text_eq(label, "trigger")
        && get_present(file, concurrency, "runs").is_none()
        && !operation_is_single(operation, file)
        && !operation_may_be_single(operation, file) {
        let message = text2(
            label,
            " runtimeConfiguration.concurrency.maximumWaitingRuns requires runtimeConfiguration.concurrency.runs or operationOptions SingleInstance",
        );
        report(
            file,
            "workflow-shape-invalid-context",
            pointer,
            Some(waiting.span),
            message.as_str(),
            diagnostics,
        );
    }
    if !waiting_runs_in_range(number, operation, concurrency, label, file, workflow) {
        let message = text4(
            label,
            " runtimeConfiguration.concurrency.maximumWaitingRuns value ",
            decimal_of_i64(number).as_str(),
            " is out of range",
        );
        report(
            file,
            "workflow-shape-invalid-value",
            pointer,
            Some(waiting.span),
            message.as_str(),
            diagnostics,
        );
    }
}

/// What is wrong with `maximumWaitingRuns`.
pub open spec fn waiting_runs_findings(
    waiting: &Node,
    pointer: Seq<char>,
    operation: &Node,
    known: bool,
    concurrency: &Node,
    label: Seq<char>,
    file: &Document,
    workflow: &Workflow,
) -> Seq<Finding> {
    (if label != "trigger"@ {
        issue(
            file,
            "workflow-shape-invalid-context"@,
            pointer,
            Some(waiting.span),
            label
                + " runtimeConfiguration.concurrency.maximumWaitingRuns is only supported on triggers"@,
        )
    } else {
        Seq::empty()
    }) + (match integer_of(waiting) {
        Some(number) => waiting_value_findings(
            waiting,
            number as i64,
            pointer,
            operation,
            concurrency,
            label,
            file,
            workflow,
        )
            + (if label == "trigger"@ && stateless(workflow) {
            issue(
                file,
                "workflow-shape-invalid-context"@,
                pointer,
                Some(waiting.span),
                "trigger runtimeConfiguration.concurrency.maximumWaitingRuns is not supported in Stateless workflows"@,
            )
        } else {
            Seq::empty()
        }) + (if label == "trigger"@ && known && type_is(operation, "Recurrence"@) {
            issue(
                file,
                "workflow-shape-invalid-context"@,
                pointer,
                Some(waiting.span),
                "Recurrence trigger runtimeConfiguration.concurrency.maximumWaitingRuns is not supported"@,
            )
        } else {
            Seq::empty()
        }),
        None => issue(
            file,
            "workflow-shape-invalid-type"@,
            pointer,
            Some(waiting.span),
            label + " runtimeConfiguration.concurrency.maximumWaitingRuns must be an integer"@,
        ),
    })
}

/// Validate `maximumWaitingRuns`: for triggers only, at least ten more than the
/// runs allowed, at most 200 in Standard workflows and 100 elsewhere, and
/// neither in Stateless workflows nor on Recurrence triggers.
fn validate_maximum_waiting_runs(
    waiting: &Node,
    pointer: &str,
    operation: &Node,
    known: bool,
    concurrency: &Node,
    label: &str,
    file: &Document,
    workflow: &Workflow,
    diagnostics: &mut Vec<Diagnostic>,
)
    ensures
        findings(final(diagnostics)@) == findings(old(diagnostics)@)
            + waiting_runs_findings(
                waiting,
                pointer@,
                operation,
                known,
                concurrency,
                label@,
                file,
                workflow,
            ),
{
    if !text_eq(label, "trigger") {
        let message = text2(
            label,
            " runtimeConfiguration.concurrency.maximumWaitingRuns is only supported on triggers",
        );
        report(
            file,
            "workflow-shape-invalid-context",
            pointer,
            Some(waiting.span),
            message.as_str(),
            diagnostics,
        );
    }
    match integer_value(waiting) {
        Some(number) => {
            validate_waiting_value(
                waiting,
                number,
                pointer,
                operation,
                concurrency,
                label,
                file,
                workflow,
                diagnostics,
            );
            if text_eq(label, "trigger") && workflow.is_stateless() {
                report(
                    file,
                    "workflow-shape-invalid-context",
                    pointer,
                    Some(waiting.span),
                    "trigger runtimeConfiguration.concurrency.maximumWaitingRuns is not supported in Stateless workflows",
                    diagnostics,
                );
            }
            if text_eq(label, "trigger") && known && node_type_is(operation, "Recurrence") {
                report(
                    file,
                    "workflow-shape-invalid-context",
                    pointer,
                    Some(waiting.span),
                    "Recurrence trigger runtimeConfiguration.concurrency.maximumWaitingRuns is not supported",
                    diagnostics,
                );
            }
        },
        None => {
            let message = text2(
                label,
                " runtimeConfiguration.concurrency.maximumWaitingRuns must be an integer",
            );
            report(
                file,
                "workflow-shape-invalid-type",
                pointer,
                Some(waiting.span),
                message.as_str(),
                diagnostics,
            );
        },
    }
}

/// What is wrong with where `runs` stands.
pub open spec fn runs_context_findings(
    concurrency: &Node,
    concurrency_pointer: Seq<char>,
    label: Seq<char>,
    file: &Document,
    workflow: &Workflow,
) -> Seq<Finding> {
    match present(file, concurrency, "runs"@) {
        Some(runs) => (if label != "trigger"@ {
            wrong_context(
                file,
                concurrency_pointer,
                "runs"@,
                runs.span,
                label + " runtimeConfiguration.concurrency.runs is only supported on triggers"@,
            )
        } else {
            Seq::empty()
        }) + (if label == "trigger"@ && stateless(workflow) {
            wrong_context(
                file,
                concurrency_pointer,
                "runs"@,
                runs.span,
                "trigger runtimeConfiguration.concurrency.runs is not supported in Stateless workflows"@,
            )
        } else {
            Seq::empty()
        }),
        None => Seq::empty(),
    }
}

/// Validate where `runs` may stand: on triggers of stateful workflows.
fn validate_runs_context(
    concurrency: &Node,
    concurrency_pointer: &str,
    label: &str,
    file: &Document,
    workflow: &Workflow,
    diagnostics: &mut Vec<Diagnostic>,
)
    ensures
        findings(final(diagnostics)@) == findings(old(diagnostics)@)
            + runs_context_findings(concurrency, concurrency_pointer@, label@, file, workflow),
{
    if let Some(runs) = get_present(file, concurrency, "runs") {
        if !text_eq(label, "trigger") {
            let message = text2(
                label,
                " runtimeConfiguration.concurrency.runs is only supported on triggers",
            );
            report_context(
                file,
                concurrency_pointer,
                "runs",
                runs.span,
                message.as_str(),
                diagnostics,
            );
        }
        if text_eq(label, "trigger") && workflow.is_stateless() {
            report_context(
                file,
                concurrency_pointer,
                "runs",
                runs.span,
                "trigger runtimeConfiguration.concurrency.runs is not supported in Stateless workflows",
                diagnostics,
            );
        }
    }
}

/// What is wrong with where `repetitions` stands.
pub open spec fn repetitions_context_findings(
    concurrency: &Node,
    concurrency_pointer: Seq<char>,
    operation: &Node,
    known: bool,
    label: Seq<char>,
    file: &Document,
) -> Seq<Finding> {
    if label != "action"@ || (known && !type_is(operation, "Foreach"@)) {
        match present(file, concurrency, "repetitions"@) {
            Some(repetitions) => wrong_context(
                file,
                concurrency_pointer,
                "repetitions"@,
                repetitions.span,
                label
                    + " runtimeConfiguration.concurrency.repetitions is only supported on Foreach actions"@,
            ),
            None => Seq::empty(),
        }
    } else {
        Seq::empty()
    }
}

/// Validate where `repetitions` may stand: on Foreach actions.
fn validate_repetitions_context(
    concurrency: &Node,
    concurrency_pointer: &str,
    operation: &Node,
    known: bool,
    label: &str,
    file: &Document,
    diagnostics: &mut Vec<Diagnostic>,
)
    ensures
        findings(final(diagnostics)@) == findings(old(diagnostics)@)
            + repetitions_context_findings(
                concurrency,
                concurrency_pointer@,
                operation,
                known,
                label@,
                file,
            ),
{
    if !text_eq(label, "action") || (known && !is_foreach_action(operation)) {
        if let Some(repetitions) = get_present(file, concurrency, "repetitions") {
            let message = text2(
                label,
                " runtimeConfiguration.concurrency.repetitions is only supported on Foreach actions",
            );
            report_context(
                file,
                concurrency_pointer,
                "repetitions",
                repetitions.span,
                message.as_str(),
                diagnostics,
            );
        }
    }
}

/// What is wrong with the concurrency settings of an operation.
pub open spec fn concurrency_object_findings(
    concurrency: &Node,
    concurrency_pointer: Seq<char>,
    operation: &Node,
    known: bool,
    label: Seq<char>,
    file: &Document,
    workflow: &Workflow,
) -> Seq<Finding> {
    range_findings(
        concurrency,
        concurrency_pointer,
        "runs"@,
        label + " runtimeConfiguration.concurrency.runs"@,
        1,
        100,
        file,
    )
        + runs_context_findings(concurrency, concurrency_pointer, label, file, workflow)
        + range_findings(
            concurrency,
            concurrency_pointer,
            "repetitions"@,
            label + " runtimeConfiguration.concurrency.repetitions"@,
            1,
            50,
            file,
        )
        + repetitions_context_findings(
            concurrency,
            concurrency_pointer,
            operation,
            known,
            label,
            file,
        )
        + (match checked(file, concurrency, "maximumWaitingRuns"@) {
        Some(waiting) => waiting_runs_findings(
            &waiting,
            joined(concurrency_pointer, "maximumWaitingRuns"@),
            operation,
            known,
            concurrency,
            label,
            file,
            workflow,
        ),
        None => Seq::empty(),
    })
}

/// Validate the concurrency settings of an operation.
fn validate_concurrency_object(
    concurrency: &Node,
    concurrency_pointer: &str,
    operation: &Node,
    known: bool,
    label: &str,
    file: &Document,
    workflow: &Workflow,
    diagnostics: &mut Vec<Diagnostic>,
)
    ensures
        findings(final(diagnostics)@) == findings(old(diagnostics)@)
            + concurrency_object_findings(
                concurrency,
                concurrency_pointer@,
                operation,
                known,
                label@,
                file,
                workflow,
            ),
{
    let runs_label = text2(label, " runtimeConfiguration.concurrency.runs");
    validate_optional_integer_range(
        concurrency,
        concurrency_pointer,
        "runs",
        runs_label.as_str(),
        1,
        100,
        file,
        diagnostics,
    );
    validate_runs_context(concurrency, concurrency_pointer, label, file, workflow, diagnostics);
    let repetitions_label = text2(label, " runtimeConfiguration.concurrency.repetitions");
    validate_optional_integer_range(
        concurrency,
        concurrency_pointer,
        "repetitions",
        repetitions_label.as_str(),
        1,
        50,
        file,
        diagnostics,
    );
    validate_repetitions_context(
        concurrency,
        concurrency_pointer,
        operation,
        known,
        label,
        file,
        diagnostics,
    );
    if let Some(waiting) = get_checked(file, concurrency, "maximumWaitingRuns") {
        let waiting_pointer = pointer_join(concurrency_pointer, "maximumWaitingRuns");
        validate_maximum_waiting_runs(
            waiting,
            waiting_pointer.as_str(),
            operation,
            known,
            concurrency,
            label,
            file,
            workflow,
            diagnostics,
        );
    }
}

/// What is wrong with `concurrency`.
pub open spec fn concurrency_findings(
    operation: &Node,
    known: bool,
    runtime: &Node,
    pointer: Seq<char>,
    label: Seq<char>,
    file: &Document,
    workflow: &Workflow,
) -> Seq<Finding> {
    match checked(file, runtime, "concurrency"@) {
        Some(concurrency) => if concurrency.kind is Object {
            concurrency_object_findings(
                &concurrency,
                joined(pointer, "concurrency"@),
                operation,
                known,
                label,
                file,
                workflow,
            )
        } else {
            wrong_type(
                file,
                pointer,
                "concurrency"@,
                concurrency.span,
                label + " runtimeConfiguration.concurrency must be an object"@,
            )
        },
        None => Seq::empty(),
    }
}

/// Validate `concurrency`.
fn validate_concurrency(
    operation: &Node,
    known: bool,
    runtime: &Node,
    pointer: &str,
    label: &str,
    file: &Document,
    workflow: &Workflow,
    diagnostics: &mut Vec<Diagnostic>,
)
    ensures
        findings(final(diagnostics)@) == findings(old(diagnostics)@)
            + concurrency_findings(operation, known, runtime, pointer@, label@, file, workflow),
{
    if let Some(concurrency) = get_checked(file, runtime, "concurrency") {
        if concurrency.is_object() {
            let concurrency_pointer = pointer_join(pointer, "concurrency");
            validate_concurrency_object(
                concurrency,
                concurrency_pointer.as_str(),
                operation,
                known,
                label,
                file,
                workflow,
                diagnostics,
            );
        } else {
            let message = text2(label, " runtimeConfiguration.concurrency must be an object");
            report_type(
                file,
                pointer,
                "concurrency",
                concurrency.span,
                message.as_str(),
                diagnostics,
            );
        }
    }
}

/// What is wrong with `maximumWaitingRuns` outside `concurrency`.
pub open spec fn misplaced_waiting_findings(
    runtime: &Node,
    pointer: Seq<char>,
    label: Seq<char>,
    file: &Document,
) -> Seq<Finding> {
    match checked(file, runtime, "maximumWaitingRuns"@) {
        Some(waiting) => wrong_context(
            file,
            pointer,
            "maximumWaitingRuns"@,
            waiting.span,
            label
                + " runtimeConfiguration.maximumWaitingRuns must be under runtimeConfiguration.concurrency"@,
        ),
        None => Seq::empty(),
    }
}

/// Validate `maximumWaitingRuns` outside `concurrency`, where it belongs.
fn validate_top_level_maximum_waiting_runs(
    runtime: &Node,
    pointer: &str,
    label: &str,
    file: &Document,
    diagnostics: &mut Vec<Diagnostic>,
)
    ensures
        findings(final(diagnostics)@) == findings(old(diagnostics)@)
            + misplaced_waiting_findings(runtime, pointer@, label@, file),
{
    if let Some(waiting) = get_checked(file, runtime, "maximumWaitingRuns") {
        let message = text2(
            label,
            " runtimeConfiguration.maximumWaitingRuns must be under runtimeConfiguration.concurrency",
        );
        report_context(
            file,
            pointer,
            "maximumWaitingRuns",
            waiting.span,
            message.as_str(),
            diagnostics,
        );
    }
}

/// What is wrong with `paginationPolicy`.
pub open spec fn pagination_findings(
    runtime: &Node,
    pointer: Seq<char>,
    label: Seq<char>,
    file: &Document,
) -> Seq<Finding> {
    match checked(file, runtime, "paginationPolicy"@) {
        Some(policy) => {
            let policy_pointer = joined(pointer, "paginationPolicy"@);
            (if label != "action"@ {
                issue(
                    file,
                    "workflow-shape-invalid-context"@,
                    policy_pointer,
                    Some(policy.span),
                    label + " runtimeConfiguration.paginationPolicy is only supported on actions"@,
                )
            } else {
                Seq::empty()
            }) + (if policy.kind is Object {
                (if present(file, &policy, "minimumItemCount"@) is None {
                    missing(
                        file,
                        policy_pointer,
                        "minimumItemCount"@,
                        policy.span,
                        label
                            + " runtimeConfiguration.paginationPolicy is missing required field 'minimumItemCount'"@,
                    )
                } else {
                    Seq::empty()
                }) + positive_integer_findings(
                    &policy,
                    policy_pointer,
                    "minimumItemCount"@,
                    label + " runtimeConfiguration.paginationPolicy.minimumItemCount"@,
                    file,
                )
            } else {
                issue(
                    file,
                    "workflow-shape-invalid-type"@,
                    policy_pointer,
                    Some(policy.span),
                    label + " runtimeConfiguration.paginationPolicy must be an object"@,
                )
            })
        },
        None => Seq::empty(),
    }
}

/// Validate `paginationPolicy`: for actions only, with a positive `minimumItemCount`.
fn validate_runtime_pagination_policy(
    runtime: &Node,
    pointer: &str,
    label: &str,
    file: &Document,
    diagnostics: &mut Vec<Diagnostic>,
)
    ensures
        findings(final(diagnostics)@) == findings(old(diagnostics)@)
            + pagination_findings(runtime, pointer@, label@, file),
{
    if let Some(policy) = get_checked(file, runtime, "paginationPolicy") {
        let policy_pointer_text = pointer_join(pointer, "paginationPolicy");
        let policy_pointer = policy_pointer_text.as_str();
        if !text_eq(label, "action") {
            let message = text2(
                label,
                " runtimeConfiguration.paginationPolicy is only supported on actions",
            );
            report(
                file,
                "workflow-shape-invalid-context",
                policy_pointer,
                Some(policy.span),
                message.as_str(),
                diagnostics,
            );
        }
        if policy.is_object() {
            if get_present(file, policy, "minimumItemCount").is_none() {
                let message = text2(
                    label,
                    " runtimeConfiguration.paginationPolicy is missing required field 'minimumItemCount'",
                );
                report_missing(
                    file,
                    policy_pointer,
                    "minimumItemCount",
                    policy.span,
                    message.as_str(),
                    diagnostics,
                );
            }
            {
                let label = text2(label, " runtimeConfiguration.paginationPolicy.minimumItemCount");
                validate_optional_positive_integer(
                    policy,
                    policy_pointer,
                    "minimumItemCount",
                    label.as_str(),
                    file,
                    diagnostics,
                );
            }
        } else {
            let message = text2(label, " runtimeConfiguration.paginationPolicy must be an object");
            report(
                file,
                "workflow-shape-invalid-type",
                policy_pointer,
                Some(policy.span),
                message.as_str(),
                diagnostics,
            );
        }
    }
}

/// What is wrong with `runtimeConfiguration`.
pub open spec fn runtime_findings(
    value: &Node,
    known: bool,
    pointer: Seq<char>,
    label: Seq<char>,
    file: &Document,
    workflow: &Workflow,
    scope: &ArmScope,
) -> Seq<Finding> {
    match checked(file, value, "runtimeConfiguration"@) {
        Some(runtime) => if runtime.kind is Object {
            let runtime_pointer = joined(pointer, "runtimeConfiguration"@);
            concurrency_findings(value, known, &runtime, runtime_pointer, label, file, workflow)
                + misplaced_waiting_findings(&runtime, runtime_pointer, label, file)
                + pagination_findings(&runtime, runtime_pointer, label, file)
                + content_transfer_findings(
                    value,
                    known,
                    &runtime,
                    runtime_pointer,
                    label,
                    file,
                    workflow,
                )
                + secure_data_findings(value, known, &runtime, runtime_pointer, label, file, scope)
                + static_result_findings(&runtime, runtime_pointer, label, file, workflow)
        } else {
            Seq::empty()
        },
        None => Seq::empty(),
    }
}

/// Validate `runtimeConfiguration`. Checks that depend on the type of the
/// operation run only where it is known.
fn validate_runtime_configuration_inner(
    value: &Node,
    known: bool,
    pointer: &str,
    label: &str,
    file: &Document,
    workflow: &Workflow,
    scope: &ArmScope,
    diagnostics: &mut Vec<Diagnostic>,
)
    ensures
        findings(final(diagnostics)@) == findings(old(diagnostics)@)
            + runtime_findings(value, known, pointer@, label@, file, workflow, scope),
{
    if let Some(runtime) = get_checked(file, value, "runtimeConfiguration") {
        if runtime.is_object() {
            let runtime_pointer_text = pointer_join(pointer, "runtimeConfiguration");
            let runtime_pointer = runtime_pointer_text.as_str();
            validate_concurrency(
                value,
                known,
                runtime,
                runtime_pointer,
                label,
                file,
                workflow,
                diagnostics,
            );
            validate_top_level_maximum_waiting_runs(
                runtime,
                runtime_pointer,
                label,
                file,
                diagnostics,
            );
            validate_runtime_pagination_policy(runtime, runtime_pointer, label, file, diagnostics);
            validate_runtime_content_transfer(
                value,
                known,
                runtime,
                runtime_pointer,
                label,
                file,
                workflow,
                diagnostics,
            );
            validate_runtime_secure_data(
                value,
                known,
                runtime,
                runtime_pointer,
                label,
                file,
                scope,
                diagnostics,
            );
            validate_runtime_static_result(
                runtime,
                runtime_pointer,
                label,
                file,
                workflow,
                diagnostics,
            );
        }
    }
}

/// Validate `runtimeConfiguration` of an operation whose type is known.
pub fn validate_runtime_configuration(
    value: &Node,
    pointer: &str,
    label: &str,
    file: &Document,
    workflow: &Workflow,
    scope: &ArmScope,
    diagnostics: &mut Vec<Diagnostic>,
)
    ensures
        findings(final(diagnostics)@) == findings(old(diagnostics)@)
            + runtime_findings(value, true, pointer@, label@, file, workflow, scope),
{
    validate_runtime_configuration_inner(
        value,
        true,
        pointer,
        label,
        file,
        workflow,
        scope,
        diagnostics,
    );
}

/// Validate `runtimeConfiguration` of an operation whose type is an expression.
pub fn validate_runtime_configuration_for_dynamic_type(
    value: &Node,
    pointer: &str,
    label: &str,
    file: &Document,
    workflow: &Workflow,
    scope: &ArmScope,
    diagnostics: &mut Vec<Diagnostic>,
)
    ensures
        findings(final(diagnostics)@) == findings(old(diagnostics)@)
            + runtime_findings(value, false, pointer@, label@, file, workflow, scope),
{
    validate_runtime_configuration_inner(
        value,
        false,
        pointer,
        label,
        file,
        workflow,
        scope,
        diagnostics,
    );
}
} // verus!
