//! `staticResults` declarations, and the actions that bind them.
//!
//! A workflow can declare mock results, and an action can opt into one by name.

use vstd::prelude::*;

use crate::diagnostic::{findings, Diagnostic, Finding};
use crate::json::{
    as_array, as_object, as_string, field, get, get_string, joined, pointer_join, text_field,
    text_of, Document, Json, Member, Node,
};
use crate::shape::arm_boundary::{
    authored, checked, get_authored, get_checked, get_present, is_opaque, is_opaque_arm_expression,
    is_skipped, present, skipped,
};
use crate::shape::field_validators::{
    enum_findings, object_findings, required_enum_findings, string_findings,
    validate_optional_object_field, validate_optional_string_enum, validate_optional_string_field,
    validate_required_string_enum,
};
use crate::shape::report::{
    issue, missing, report, report_missing, report_type, report_value, wrong_type, wrong_value,
};
use crate::shape::required_fields::{require_typed_field, typed_field_findings, Shape};
use crate::text::{
    decimal, decimal_of_usize, eq_ignoring_case, names, same_ignoring_case, text2, text4, text_eq,
};
use crate::workflow::{ActionInfo, Workflow, node_of};

verus! {

broadcast use crate::diagnostic::group_findings;

pub open spec fn static_result_option_names() -> Seq<Seq<char>> {
    seq!["Disabled"@, "Enabled"@]
}

fn static_result_option_list() -> (list: Vec<&'static str>)
    ensures
        names(list@) == static_result_option_names(),
{
    let list = vec!["Disabled", "Enabled"];
    assert(names(list@) =~= static_result_option_names());
    list
}

pub open spec fn static_result_status_names() -> Seq<Seq<char>> {
    seq!["Cancelled"@, "Failed"@, "Skipped"@, "Succeeded"@]
}

fn static_result_status_list() -> (list: Vec<&'static str>)
    ensures
        names(list@) == static_result_status_names(),
{
    let list = vec!["Cancelled", "Failed", "Skipped", "Succeeded"];
    assert(names(list@) =~= static_result_status_names());
    list
}

/// `staticResults` of the definition has an entry called `name`.
pub open spec fn has_entry(file: &Document, definition: &Node, name: Seq<char>) -> bool {
    match field(definition, "staticResults"@) {
        Some(results) => present(file, &results, name) is Some,
        None => false,
    }
}

fn static_result_entry_exists(file: &Document, definition: &Node, name: &str) -> (holds: bool)
    ensures
        holds == has_entry(file, definition, name@),
{
    match get(definition, "staticResults") {
        Some(results) => get_present(file, results, name).is_some(),
        None => false,
    }
}

/// The name of the static result that an action binds.
pub open spec fn bound_name(workflow: &Workflow, action: &ActionInfo) -> Option<Seq<char>> {
    match node_of(workflow, action.pointer@) {
        Some(node) => match field(&node, "runtimeConfiguration"@) {
            Some(runtime) => match field(&runtime, "staticResult"@) {
                Some(result) => text_field(&result, "name"@),
                None => None,
            },
            None => None,
        },
        None => None,
    }
}

/// The first action, from `from` on, that binds the static result `name`.
pub open spec fn binding_from(workflow: &Workflow, name: Seq<char>, from: int) -> Option<int>
    decreases workflow.action_list@.len() - from,
{
    if from < 0 || from >= workflow.action_list@.len() {
        None
    } else if bound_name(workflow, &workflow.action_list@[from]) == Some(name) {
        Some(from)
    } else {
        binding_from(workflow, name, from + 1)
    }
}

/// The first action that binds the static result `name` is an HTTP action.
pub open spec fn is_http_result(workflow: &Workflow, name: Seq<char>) -> bool {
    match binding_from(workflow, name, 0) {
        Some(at) => match workflow.action_list@[at].action_type {
            Some(kind) => same_ignoring_case(kind@, "Http"@),
            None => false,
        },
        None => false,
    }
}

fn binds_name(workflow: &Workflow, action: &ActionInfo, name: &str) -> (holds: bool)
    ensures
        holds == (bound_name(workflow, action) == Some(name@)),
{
    match workflow.node_at(action.pointer.as_str()) {
        Some(node) => match get(node, "runtimeConfiguration") {
            Some(runtime) => match get(runtime, "staticResult") {
                Some(result) => match get_string(result, "name") {
                    Some(text) => text_eq(text, name),
                    None => false,
                },
                None => false,
            },
            None => false,
        },
        None => false,
    }
}

fn static_result_is_http(workflow: &Workflow, name: &str) -> (holds: bool)
    ensures
        holds == is_http_result(workflow, name@),
{
    let actions = &workflow.action_list;
    let mut i: usize = 0;
    while i < actions.len()
        invariant
            i <= actions@.len(),
            actions == &workflow.action_list,
            binding_from(workflow, name@, 0) == binding_from(workflow, name@, i as int),
        decreases actions@.len() - i,
    {
        if binds_name(workflow, &actions[i], name) {
            return match &actions[i].action_type {
                Some(kind) => eq_ignoring_case(kind.as_str(), "Http"),
                None => false,
            };
        }
        i += 1;
    }
    false
}

/// What is wrong with the name of a static result, which has to be declared.
pub open spec fn static_result_reference_findings(
    result: &Node,
    result_pointer: Seq<char>,
    label: Seq<char>,
    file: &Document,
    workflow: &Workflow,
) -> Seq<Finding> {
    match authored(file, result, "name"@) {
        Some(value) => match text_of(&value) {
            Some(name) => if field(workflow.definition, "staticResults"@) is Some
                && is_opaque(file, &field(workflow.definition, "staticResults"@)->Some_0) {
                Seq::empty()
            } else {
                if has_entry(file, workflow.definition, name) {
                    Seq::empty()
                } else {
                    issue(
                        file,
                        "workflow-shape-invalid-reference"@,
                        joined(result_pointer, "name"@),
                        Some(value.span),
                        label
                            + " runtimeConfiguration.staticResult references missing staticResults entry '"@
                            + name
                            + "'"@,
                    )
                }
            },
            None => Seq::empty(),
        },
        None => Seq::empty(),
    }
}

/// Validate the name of a static result, which has to be declared.
fn validate_static_result_reference(
    result: &Node,
    result_pointer: &str,
    label: &str,
    file: &Document,
    workflow: &Workflow,
    diagnostics: &mut Vec<Diagnostic>,
)
    ensures
        findings(final(diagnostics)@) == findings(old(diagnostics)@)
            + static_result_reference_findings(result, result_pointer@, label@, file, workflow),
{
    if let Some(value) = get_authored(file, result, "name") {
        if let Some(name) = as_string(value) {
            if !declarations_are_opaque(file, workflow.definition) {
                if !static_result_entry_exists(file, workflow.definition, name) {
                    let pointer = pointer_join(result_pointer, "name");
                    let message = text4(
                        label,
                        " runtimeConfiguration.staticResult references missing staticResults entry '",
                        name,
                        "'",
                    );
                    report(
                        file,
                        "workflow-shape-invalid-reference",
                        pointer.as_str(),
                        Some(value.span),
                        message.as_str(),
                        diagnostics,
                    );
                }
            }
        }
    }
}

fn declarations_are_opaque(file: &Document, definition: &Node) -> (holds: bool)
    ensures
        holds == (
            field(definition, "staticResults"@) is Some
                && is_opaque(file, &field(definition, "staticResults"@)->Some_0)
        ),
{
    match get(definition, "staticResults") {
        Some(results) => is_opaque_arm_expression(file, results),
        None => false,
    }
}

/// What is wrong with the static result that an action binds.
pub open spec fn static_result_findings(
    runtime: &Node,
    pointer: Seq<char>,
    label: Seq<char>,
    file: &Document,
    workflow: &Workflow,
) -> Seq<Finding> {
    match present(file, runtime, "staticResult"@) {
        Some(result) => {
            let result_pointer = joined(pointer, "staticResult"@);
            if label == "trigger"@ {
                issue(
                    file,
                    "workflow-shape-invalid-context"@,
                    result_pointer,
                    Some(result.span),
                    "trigger runtimeConfiguration.staticResult is only supported on actions"@,
                )
            } else {
                if is_opaque(file, &result) {
                    Seq::empty()
                } else {
                    if result.kind is Object {
                        typed_field_findings(
                            &result,
                            result_pointer,
                            "name"@,
                            "runtimeConfiguration.staticResult.name must be a string"@,
                            Shape::Text,
                            file,
                        )
                            + required_enum_findings(
                                &result,
                                result_pointer,
                                "staticResultOptions"@,
                                label + " runtimeConfiguration.staticResult.staticResultOptions"@,
                                static_result_option_names(),
                                file,
                            )
                            + static_result_reference_findings(
                                &result,
                                result_pointer,
                                label,
                                file,
                                workflow,
                            )
                    } else {
                        issue(
                            file,
                            "workflow-shape-invalid-type"@,
                            result_pointer,
                            Some(result.span),
                            label + " runtimeConfiguration.staticResult must be an object"@,
                        )
                    }
                }
            }
        },
        None => Seq::empty(),
    }
}

/// Validate the static result that an action binds.
pub fn validate_runtime_static_result(
    runtime: &Node,
    pointer: &str,
    label: &str,
    file: &Document,
    workflow: &Workflow,
    diagnostics: &mut Vec<Diagnostic>,
)
    ensures
        findings(final(diagnostics)@) == findings(old(diagnostics)@)
            + static_result_findings(runtime, pointer@, label@, file, workflow),
{
    if let Some(result) = get_present(file, runtime, "staticResult") {
        let result_pointer_text = pointer_join(pointer, "staticResult");
        let result_pointer = result_pointer_text.as_str();
        if text_eq(label, "trigger") {
            report(
                file,
                "workflow-shape-invalid-context",
                result_pointer,
                Some(result.span),
                "trigger runtimeConfiguration.staticResult is only supported on actions",
                diagnostics,
            );
        } else {
            if !is_opaque_arm_expression(file, result) {
                if result.is_object() {
                    require_typed_field(
                        result,
                        result_pointer,
                        "name",
                        "runtimeConfiguration.staticResult.name must be a string",
                        Shape::Text,
                        file,
                        diagnostics,
                    );
                    {
                        let label = text2(
                            label,
                            " runtimeConfiguration.staticResult.staticResultOptions",
                        );
                        validate_required_string_enum(
                            result,
                            result_pointer,
                            "staticResultOptions",
                            label.as_str(),
                            static_result_option_list().as_slice(),
                            file,
                            diagnostics,
                        );
                    }
                    validate_static_result_reference(
                        result,
                        result_pointer,
                        label,
                        file,
                        workflow,
                        diagnostics,
                    );
                } else {
                    let message = text2(
                        label,
                        " runtimeConfiguration.staticResult must be an object",
                    );
                    report(
                        file,
                        "workflow-shape-invalid-type",
                        result_pointer,
                        Some(result.span),
                        message.as_str(),
                        diagnostics,
                    );
                }
            }
        }
    }
}

/// What is wrong with the first `n` of the errors of a failed result.
pub open spec fn error_entry_findings(
    items: Seq<Node>,
    n: nat,
    base: Seq<char>,
    file: &Document,
) -> Seq<Finding>
    decreases n,
{
    if n == 0 {
        Seq::empty()
    } else {
        let item = items[n - 1];
        let index = decimal(n - 1);
        error_entry_findings(items, (n - 1) as nat, base, file) + (if is_opaque(file, &item) {
            Seq::empty()
        } else if item.kind is Object {
            let error_pointer = joined(base, index);
            if present(file, &item, "message"@) is None {
                missing(
                    file,
                    error_pointer,
                    "message"@,
                    item.span,
                    "failed staticResults outputs.errors entries must define message"@,
                )
            } else {
                string_findings(
                    &item,
                    error_pointer,
                    "message"@,
                    "failed staticResults outputs.errors message"@,
                    file,
                )
            }
        } else {
            wrong_type(
                file,
                base,
                index,
                item.span,
                "failed staticResults outputs.errors entries must be objects"@,
            )
        })
    }
}

fn validate_error_entries(
    items: &Vec<Node>,
    base: &str,
    file: &Document,
    diagnostics: &mut Vec<Diagnostic>,
)
    ensures
        findings(final(diagnostics)@) == findings(old(diagnostics)@)
            + error_entry_findings(items@, items@.len(), base@, file),
{
    let ghost before = findings(diagnostics@);
    let mut i: usize = 0;
    while i < items.len()
        invariant
            i <= items.len(),
            findings(diagnostics@) == before + error_entry_findings(items@, i as nat, base@, file),
        decreases items.len() - i,
    {
        let item = &items[i];
        let index_text = decimal_of_usize(i);
        let index = index_text.as_str();
        if is_opaque_arm_expression(file, item) {
            i += 1;
            continue;
        }
        if item.is_object() {
            let error_pointer_text = pointer_join(base, index);
            let error_pointer = error_pointer_text.as_str();
            if get_present(file, item, "message").is_none() {
                report_missing(
                    file,
                    error_pointer,
                    "message",
                    item.span,
                    "failed staticResults outputs.errors entries must define message",
                    diagnostics,
                );
            } else {
                validate_optional_string_field(
                    item,
                    error_pointer,
                    "message",
                    "failed staticResults outputs.errors message",
                    file,
                    diagnostics,
                );
            }
        } else {
            report_type(
                file,
                base,
                index,
                item.span,
                "failed staticResults outputs.errors entries must be objects",
                diagnostics,
            );
        }
        i += 1;
    }
}

/// What is wrong with the outputs of a failed result.
pub open spec fn failed_outputs_findings(
    outputs: &Node,
    outputs_pointer: Seq<char>,
    file: &Document,
) -> Seq<Finding> {
    match field(outputs, "errors"@) {
        Some(errors) => match errors.kind {
            _ if is_opaque(file, &errors) => Seq::empty(),
            Json::Array(items) => (if items@.len() == 0 {
                wrong_value(
                    file,
                    outputs_pointer,
                    "errors"@,
                    errors.span,
                    "failed staticResults outputs.errors must contain at least one error"@,
                )
            } else {
                Seq::empty()
            }) + error_entry_findings(
                items@,
                items@.len(),
                joined(outputs_pointer, "errors"@),
                file,
            ),
            _ => wrong_type(
                file,
                outputs_pointer,
                "errors"@,
                errors.span,
                "failed staticResults outputs.errors must be an array"@,
            ),
        },
        None => missing(
            file,
            outputs_pointer,
            "errors"@,
            outputs.span,
            "failed staticResults outputs must define errors"@,
        ),
    }
}

/// Validate the outputs of a failed result: at least one error, each with a message.
fn validate_failed_outputs(
    outputs: &Node,
    outputs_pointer: &str,
    file: &Document,
    diagnostics: &mut Vec<Diagnostic>,
)
    ensures
        findings(final(diagnostics)@) == findings(old(diagnostics)@)
            + failed_outputs_findings(outputs, outputs_pointer@, file),
{
    match get(outputs, "errors") {
        Some(errors) => {
            if is_opaque_arm_expression(file, errors) {
                return;
            }
            match as_array(errors) {
                Some(items) => {
                    if items.len() == 0 {
                        report_value(
                            file,
                            outputs_pointer,
                            "errors",
                            errors.span,
                            "failed staticResults outputs.errors must contain at least one error",
                            diagnostics,
                        );
                    }
                    let pointer = pointer_join(outputs_pointer, "errors");
                    validate_error_entries(items, pointer.as_str(), file, diagnostics);
                },
                None => {
                    report_type(
                        file,
                        outputs_pointer,
                        "errors",
                        errors.span,
                        "failed staticResults outputs.errors must be an array",
                        diagnostics,
                    );
                },
            }
        },
        None => {
            report_missing(
                file,
                outputs_pointer,
                "errors",
                outputs.span,
                "failed staticResults outputs must define errors",
                diagnostics,
            );
        },
    }
}

/// What is wrong with the outputs of a succeeded HTTP result.
pub open spec fn http_outputs_findings(
    outputs: &Node,
    outputs_pointer: Seq<char>,
    file: &Document,
) -> Seq<Finding> {
    match field(outputs, "statusCode"@) {
        Some(status) => if status.kind is String {
            Seq::empty()
        } else {
            wrong_type(
                file,
                outputs_pointer,
                "statusCode"@,
                status.span,
                "HTTP Succeeded staticResults outputs.statusCode must be a string"@,
            )
        },
        None => missing(
            file,
            outputs_pointer,
            "statusCode"@,
            outputs.span,
            "HTTP Succeeded staticResults outputs is missing required field 'statusCode'"@,
        ),
    }
}

/// Validate the outputs of a succeeded HTTP result: a status code as a string.
fn validate_http_outputs(
    outputs: &Node,
    outputs_pointer: &str,
    file: &Document,
    diagnostics: &mut Vec<Diagnostic>,
)
    ensures
        findings(final(diagnostics)@) == findings(old(diagnostics)@)
            + http_outputs_findings(outputs, outputs_pointer@, file),
{
    match get(outputs, "statusCode") {
        Some(status) => {
            if !status.is_string() {
                report_type(
                    file,
                    outputs_pointer,
                    "statusCode",
                    status.span,
                    "HTTP Succeeded staticResults outputs.statusCode must be a string",
                    diagnostics,
                );
            }
        },
        None => {
            report_missing(
                file,
                outputs_pointer,
                "statusCode",
                outputs.span,
                "HTTP Succeeded staticResults outputs is missing required field 'statusCode'",
                diagnostics,
            );
        },
    }
}

/// The literal status of an entry.
pub open spec fn entry_status(entry: &Node, file: &Document) -> Option<Seq<char>> {
    match present(file, entry, "status"@) {
        Some(status) => text_of(&status),
        None => None,
    }
}

fn entry_status_is(entry: &Node, status: &str, file: &Document) -> (holds: bool)
    ensures
        holds == (
            entry_status(entry, file) is Some
                && same_ignoring_case(entry_status(entry, file)->Some_0, status@)
        ),
{
    match get_present(file, entry, "status") {
        Some(value) => match as_string(value) {
            Some(text) => eq_ignoring_case(text, status),
            None => false,
        },
        None => false,
    }
}

/// What is wrong with the outputs of a static result, by its status and the action that binds it.
pub open spec fn entry_outputs_findings(
    entry: &Node,
    entry_pointer: Seq<char>,
    name: Seq<char>,
    file: &Document,
    workflow: &Workflow,
) -> Seq<Finding> {
    if present(file, entry, "outputs"@) is None {
        missing(
            file,
            entry_pointer,
            "outputs"@,
            entry.span,
            "staticResults entry is missing required field 'outputs'"@,
        )
    } else {
        object_findings(entry, entry_pointer, "outputs"@, "staticResults outputs"@, file)
            + (match field(entry, "outputs"@) {
            Some(outputs) => if outputs.kind is Object {
                let outputs_pointer = joined(entry_pointer, "outputs"@);
                (if entry_status(entry, file) is Some && same_ignoring_case(entry_status(entry, file)->Some_0, "Succeeded"@) && is_http_result(workflow, name) {
                    http_outputs_findings(&outputs, outputs_pointer, file)
                } else {
                    Seq::empty()
                }) + (if entry_status(entry, file) is Some && same_ignoring_case(entry_status(entry, file)->Some_0, "Failed"@) {
                    failed_outputs_findings(&outputs, outputs_pointer, file)
                } else {
                    Seq::empty()
                })
            } else {
                Seq::empty()
            },
            None => Seq::empty(),
        })
    }
}

/// Validate the outputs of a static result, by its status and the action that binds it.
fn validate_entry_outputs(
    entry: &Node,
    entry_pointer: &str,
    name: &str,
    file: &Document,
    workflow: &Workflow,
    diagnostics: &mut Vec<Diagnostic>,
)
    ensures
        findings(final(diagnostics)@) == findings(old(diagnostics)@)
            + entry_outputs_findings(entry, entry_pointer@, name@, file, workflow),
{
    if get_present(file, entry, "outputs").is_none() {
        report_missing(
            file,
            entry_pointer,
            "outputs",
            entry.span,
            "staticResults entry is missing required field 'outputs'",
            diagnostics,
        );
    } else {
        validate_optional_object_field(
            entry,
            entry_pointer,
            "outputs",
            "staticResults outputs",
            file,
            diagnostics,
        );
        if let Some(outputs) = get(entry, "outputs") {
            if outputs.is_object() {
                let outputs_pointer_text = pointer_join(entry_pointer, "outputs");
                let outputs_pointer = outputs_pointer_text.as_str();
                if entry_status_is(entry, "Succeeded", file)
                    && static_result_is_http(workflow, name) {
                    validate_http_outputs(outputs, outputs_pointer, file, diagnostics);
                }
                if entry_status_is(entry, "Failed", file) {
                    validate_failed_outputs(outputs, outputs_pointer, file, diagnostics);
                }
            }
        }
    }
}

/// What is wrong with one static result.
pub open spec fn entry_findings(
    entry: &Node,
    entry_pointer: Seq<char>,
    name: Seq<char>,
    file: &Document,
    workflow: &Workflow,
) -> Seq<Finding> {
    (if present(file, entry, "status"@) is None {
        missing(
            file,
            entry_pointer,
            "status"@,
            entry.span,
            "staticResults entry is missing required field 'status'"@,
        )
    } else {
        enum_findings(
            entry,
            entry_pointer,
            "status"@,
            "staticResults status"@,
            static_result_status_names(),
            file,
        )
    }) + entry_outputs_findings(entry, entry_pointer, name, file, workflow) + object_findings(
        entry,
        entry_pointer,
        "error"@,
        "staticResults error"@,
        file,
    )
}

/// Validate one static result.
fn validate_entry(
    entry: &Node,
    entry_pointer: &str,
    name: &str,
    file: &Document,
    workflow: &Workflow,
    diagnostics: &mut Vec<Diagnostic>,
)
    ensures
        findings(final(diagnostics)@) == findings(old(diagnostics)@)
            + entry_findings(entry, entry_pointer@, name@, file, workflow),
{
    if get_present(file, entry, "status").is_none() {
        report_missing(
            file,
            entry_pointer,
            "status",
            entry.span,
            "staticResults entry is missing required field 'status'",
            diagnostics,
        );
    } else {
        validate_optional_string_enum(
            entry,
            entry_pointer,
            "status",
            "staticResults status",
            static_result_status_list().as_slice(),
            file,
            diagnostics,
        );
    }
    validate_entry_outputs(entry, entry_pointer, name, file, workflow, diagnostics);
    validate_optional_object_field(
        entry,
        entry_pointer,
        "error",
        "staticResults error",
        file,
        diagnostics,
    );
}

/// What is wrong with the first `n` of the static results of a workflow.
pub open spec fn entry_list_findings(
    members: Seq<Member>,
    n: nat,
    base: Seq<char>,
    file: &Document,
    workflow: &Workflow,
) -> Seq<Finding>
    decreases n,
{
    if n == 0 {
        Seq::empty()
    } else {
        let item = members[n - 1].value;
        let name = members[n - 1].name@;
        entry_list_findings(members, (n - 1) as nat, base, file, workflow)
            + (if is_skipped(file, &item) {
            Seq::empty()
        } else {
            if item.kind is Object {
                entry_findings(&item, joined(base, name), name, file, workflow)
            } else {
                wrong_type(file, base, name, item.span, "staticResults entries must be objects"@)
            }
        })
    }
}

fn validate_entries(
    members: &Vec<Member>,
    base: &str,
    file: &Document,
    workflow: &Workflow,
    diagnostics: &mut Vec<Diagnostic>,
)
    ensures
        findings(final(diagnostics)@) == findings(old(diagnostics)@)
            + entry_list_findings(members@, members@.len(), base@, file, workflow),
{
    let ghost before = findings(diagnostics@);
    let mut i: usize = 0;
    while i < members.len()
        invariant
            i <= members.len(),
            findings(diagnostics@) == before
                + entry_list_findings(members@, i as nat, base@, file, workflow),
        decreases members.len() - i,
    {
        let item = &members[i].value;
        let name = members[i].name.as_str();
        if !skipped(file, item) {
            if item.is_object() {
                let pointer = pointer_join(base, name);
                validate_entry(item, pointer.as_str(), name, file, workflow, diagnostics);
            } else {
                report_type(
                    file,
                    base,
                    name,
                    item.span,
                    "staticResults entries must be objects",
                    diagnostics,
                );
            }
        }
        i += 1;
    }
}

/// What is wrong with the `staticResults` of a definition.
pub open spec fn static_results_findings(
    definition: &Node,
    definition_pointer: Seq<char>,
    file: &Document,
    workflow: &Workflow,
) -> Seq<Finding> {
    match checked(file, definition, "staticResults"@) {
        Some(results) => match results.kind {
            Json::Object(members) => entry_list_findings(
                members@,
                members@.len(),
                joined(definition_pointer, "staticResults"@),
                file,
                workflow,
            ),
            _ => wrong_type(
                file,
                definition_pointer,
                "staticResults"@,
                results.span,
                "definition.staticResults must be an object"@,
            ),
        },
        None => Seq::empty(),
    }
}

/// Validate the `staticResults` of a definition.
pub fn validate_static_results(
    definition: &Node,
    definition_pointer: &str,
    file: &Document,
    workflow: &Workflow,
    diagnostics: &mut Vec<Diagnostic>,
)
    ensures
        findings(final(diagnostics)@) == findings(old(diagnostics)@)
            + static_results_findings(definition, definition_pointer@, file, workflow),
{
    if let Some(results) = get_checked(file, definition, "staticResults") {
        match as_object(results) {
            Some(members) => {
                let pointer = pointer_join(definition_pointer, "staticResults");
                validate_entries(members, pointer.as_str(), file, workflow, diagnostics);
            },
            None => {
                report_type(
                    file,
                    definition_pointer,
                    "staticResults",
                    results.span,
                    "definition.staticResults must be an object",
                    diagnostics,
                );
            },
        }
    }
}
} // verus!
