//! Driver for the shape diagnostics of one workflow definition.
//!
//! Definition-level metadata and the presence of `actions` and `triggers` come
//! first, then the checks of each section as a whole, then every action and
//! trigger by its type.

use vstd::prelude::*;

use crate::arm::ArmScope;
use crate::diagnostic::{findings, Diagnostic, Finding};
use crate::json::{as_string, field, get, joined, pointer_join, text_of, Document, Node};
use crate::shape::arm_boundary::{
    arm_optional_property_absent, checked, get_checked, get_present, is_absent, is_opaque,
    is_opaque_arm_expression, is_skipped, node_in, present, resolved,
    static_json_value_from_spanned,
};
use crate::shape::definition_io::{
    outputs_findings, parameters_findings, validate_definition_outputs,
    validate_definition_parameters,
};
use crate::shape::limits::{
    effective_object_entry_count, entry_count, object_count_findings, total_limit_findings,
    trigger_count_findings, validate_root_object_count, validate_standard_trigger_count,
    validate_total_action_limits,
};
use crate::shape::operations::{
    collect_action_container_shape, collect_trigger_shape, container_findings, triggers_findings,
};
use crate::shape::report::{
    extend_with_span, issue, missing, report, report_missing, report_type, report_value, respanned,
    wrong_type, wrong_value,
};
use crate::shape::static_results::{static_results_findings, validate_static_results};
use crate::text::{
    all_digits, chars_of, ends_with, eq_ignoring_case, has_suffix, is_digit, owned,
    same_ignoring_case, string_of_range, text2, text3, text_eq, texts,
};
use crate::workflow::{Workflow, WorkflowKind};
use crate::arm::known;
use crate::diagnostic::lemma_findings_index;

verus! {

broadcast use crate::diagnostic::group_findings;

/// `n` nonempty runs of decimal digits with dots between them.
pub open spec fn dotted_numbers(text: Seq<char>, n: nat) -> bool
    decreases n,
{
    if n <= 1 {
        text.len() > 0 && all_digits(text)
    } else {
        exists|at: int| 0 < at < text.len()
            && #[trigger] text[at] == '.'
            && all_digits(text.take(at))
            && dotted_numbers(text.skip(at + 1), (n - 1) as nat)
    }
}

fn has_dotted_numbers(text: &[char], from: usize, n: usize) -> (holds: bool)
    requires
        from <= text@.len(),
        1 <= n,
    ensures
        holds == dotted_numbers(text@.skip(from as int), n as nat),
    decreases n,
{
    let length: usize = text.len();
    let ghost rest = text@.skip(from as int);
    let mut at: usize = from;
    while at < length && '0' <= text[at] && text[at] <= '9'
        invariant
            from <= at <= length,
            length == text@.len(),
            rest == text@.skip(from as int),
            forall|i: int| 0 <= i < at - from ==> is_digit(#[trigger] rest[i]),
        decreases length - at,
    {
        assert(rest[at - from] == text@[at as int]);
        at += 1;
    }
    if n == 1 {
        proof {
            if at < length {
                assert(rest[at - from] == text@[at as int]);
            }
        }
        return at > from && at == length;
    }
    if at > from && at < length && text[at] == '.' {
        assert(rest[at - from] == text@[at as int]);
        let holds = has_dotted_numbers(text, at + 1, n - 1);
        proof {
            assert(rest.skip(at - from + 1) =~= text@.skip(at + 1));
            assert(all_digits(rest.take(at - from)));
            if dotted_numbers(rest, n as nat) {
                let k = choose|k: int| 0 < k < rest.len()
                    && #[trigger] rest[k] == '.'
                    && all_digits(rest.take(k))
                    && dotted_numbers(rest.skip(k + 1), (n - 1) as nat);
                if k > at - from {
                    assert(is_digit(rest.take(k)[at - from]));
                }
                assert(k == at - from);
            }
        }
        holds
    } else {
        proof {
            if dotted_numbers(rest, n as nat) {
                let k = choose|k: int| 0 < k < rest.len()
                    && #[trigger] rest[k] == '.'
                    && all_digits(rest.take(k))
                    && dotted_numbers(rest.skip(k + 1), (n - 1) as nat);
                if k < at - from {
                    assert(is_digit(rest[k]));
                } else {
                    assert(rest[at - from] == text@[at as int]);
                    if k > at - from {
                        assert(is_digit(rest.take(k)[at - from]));
                    }
                }
            }
        }
        false
    }
}

/// The schema that workflow definitions declare.
pub open spec fn schema_name() -> Seq<char> {
    "https://schema.management.azure.com/providers/Microsoft.Logic/schemas/2016-06-01/workflowdefinition.json#"@
}

/// Whether a `$schema` is the one that workflow definitions declare.
pub fn workflow_schema_supported(value: &str) -> (holds: bool)
    ensures
        holds == (value@ == schema_name()),
{
    text_eq(
        value,
        "https://schema.management.azure.com/providers/Microsoft.Logic/schemas/2016-06-01/workflowdefinition.json#",
    )
}

/// Whether a `contentVersion` is made of four numbers with dots between them.
pub fn workflow_content_version_supported(value: &str) -> (holds: bool)
    ensures
        holds == dotted_numbers(value@, 4),
{
    let text = chars_of(value);
    assert(text@.skip(0) =~= text@);
    has_dotted_numbers(text.as_slice(), 0, 4)
}

/// Where the workflow kind stands, for a definition at `definition_pointer`.
pub open spec fn kind_pointer(definition_pointer: Seq<char>) -> Seq<char> {
    if definition_pointer == "/definition"@ {
        "/kind"@
    } else if has_suffix(definition_pointer, "/properties/definition"@) {
        joined(
            definition_pointer.take(definition_pointer.len() - "/properties/definition"@.len()),
            "kind"@,
        )
    } else {
        joined(definition_pointer, "kind"@)
    }
}

/// Where the workflow kind stands, for a definition at `definition_pointer`.
pub fn workflow_kind_pointer(definition_pointer: &str) -> (pointer: String)
    ensures
        pointer@ == kind_pointer(definition_pointer@),
{
    if text_eq(definition_pointer, "/definition") {
        return owned("/kind");
    }
    if ends_with(definition_pointer, "/properties/definition") {
        let text = chars_of(definition_pointer);
        let suffix = chars_of("/properties/definition");
        let length: usize = text.len() - suffix.len();
        let resource = string_of_range(text.as_slice(), 0, length);
        assert(text@.subrange(0, length as int) =~= text@.take(length as int));
        return pointer_join(resource.as_str(), "kind");
    }
    pointer_join(definition_pointer, "kind")
}

/// What is wrong with the kind of a workflow. A kind that is no text is
/// reported elsewhere.
pub open spec fn workflow_kind_findings(
    definition_pointer: Seq<char>,
    file: &Document,
    workflow: &Workflow,
) -> Seq<Finding> {
    match workflow.kind {
        Some(WorkflowKind::Named(kind)) => if same_ignoring_case(kind@, "Stateful"@)
            || same_ignoring_case(kind@, "Stateless"@) {
            Seq::empty()
        } else {
            issue(
                file,
                "workflow-shape-invalid-value"@,
                kind_pointer(definition_pointer),
                None,
                "workflow kind '"@ + kind@ + "' is not supported"@,
            )
        },
        _ => Seq::empty(),
    }
}

/// Validate the kind of a workflow.
fn validate_workflow_kind(
    definition_pointer: &str,
    file: &Document,
    workflow: &Workflow,
    diagnostics: &mut Vec<Diagnostic>,
)
    ensures
        findings(final(diagnostics)@) == findings(old(diagnostics)@)
            + workflow_kind_findings(definition_pointer@, file, workflow),
{
    if let Some(WorkflowKind::Named(kind)) = &workflow.kind {
        if !eq_ignoring_case(kind.as_str(), "Stateful")
            && !eq_ignoring_case(kind.as_str(), "Stateless") {
            let pointer = workflow_kind_pointer(definition_pointer);
            let message = text3("workflow kind '", kind.as_str(), "' is not supported");
            report(
                file,
                "workflow-shape-invalid-value",
                pointer.as_str(),
                None,
                message.as_str(),
                diagnostics,
            );
        }
    }
}

/// A section that is written out as an object.
pub open spec fn is_written_object(file: &Document, value: &Node) -> bool {
    !is_skipped(file, value) && value.kind is Object
}

/// What is wrong with the type of a section of the definition.
pub open spec fn section_findings(
    value: &Node,
    pointer: Seq<char>,
    label: Seq<char>,
    file: &Document,
) -> Seq<Finding> {
    if is_absent(file, value) {
        Seq::empty()
    } else if is_opaque(file, value) {
        match resolved(file, value, file.arm) {
            Some(result) => if result.kind is Object || result.kind is Null {
                Seq::empty()
            } else {
                issue(
                    file,
                    "workflow-shape-invalid-type"@,
                    pointer,
                    Some(value.span),
                    label + " must be an object"@,
                )
            },
            None => Seq::empty(),
        }
    } else if value.kind is Object {
        Seq::empty()
    } else {
        issue(
            file,
            "workflow-shape-invalid-type"@,
            pointer,
            Some(value.span),
            label + " must be an object"@,
        )
    }
}

/// Validate the type of a section of the definition, and say whether it is
/// written out as an object.
fn validate_definition_object_field(
    value: &Node,
    pointer: &str,
    label: &str,
    file: &Document,
    diagnostics: &mut Vec<Diagnostic>,
) -> (written: bool)
    ensures
        written == is_written_object(file, value),
        findings(final(diagnostics)@) == findings(old(diagnostics)@)
            + section_findings(value, pointer@, label@, file),
{
    if arm_optional_property_absent(file, value) {
        return false;
    }
    let message = text2(label, " must be an object");
    if is_opaque_arm_expression(file, value) {
        if let Some(result) = static_json_value_from_spanned(file, value) {
            if !result.is_object() && !result.is_null() {
                report(
                    file,
                    "workflow-shape-invalid-type",
                    pointer,
                    Some(value.span),
                    message.as_str(),
                    diagnostics,
                );
            }
        }
        return false;
    }
    if !value.is_object() {
        report(
            file,
            "workflow-shape-invalid-type",
            pointer,
            Some(value.span),
            message.as_str(),
            diagnostics,
        );
        return false;
    }
    true
}

/// What is wrong with a metadata field of the definition.
pub open spec fn metadata_findings(
    key: Seq<char>,
    value: &Node,
    definition_pointer: Seq<char>,
    file: &Document,
) -> Seq<Finding> {
    match text_of(value) {
        Some(text) => if (key == "$schema"@ && text != schema_name())
            || (key == "contentVersion"@ && !dotted_numbers(text, 4)) {
            wrong_value(
                file,
                definition_pointer,
                key,
                value.span,
                "definition."@ + key + " has an unsupported value"@,
            )
        } else {
            Seq::empty()
        },
        None => wrong_type(
            file,
            definition_pointer,
            key,
            value.span,
            "definition."@ + key + " must be a string"@,
        ),
    }
}

/// Validate a metadata field of the definition.
fn validate_root_metadata_field(
    key: &str,
    value: &Node,
    definition_pointer: &str,
    file: &Document,
    diagnostics: &mut Vec<Diagnostic>,
)
    ensures
        findings(final(diagnostics)@) == findings(old(diagnostics)@)
            + metadata_findings(key@, value, definition_pointer@, file),
{
    match as_string(value) {
        Some(text) => {
            if (text_eq(key, "$schema") && !workflow_schema_supported(text))
                || (text_eq(key, "contentVersion") && !workflow_content_version_supported(text)) {
                let message = text3("definition.", key, " has an unsupported value");
                report_value(
                    file,
                    definition_pointer,
                    key,
                    value.span,
                    message.as_str(),
                    diagnostics,
                );
            }
        },
        None => {
            let message = text3("definition.", key, " must be a string");
            report_type(file, definition_pointer, key, value.span, message.as_str(), diagnostics);
        },
    }
}

/// What is wrong with a metadata field that the definition has, unless a
/// template expression decides on it.
pub open spec fn authored_metadata_findings(
    key: Seq<char>,
    definition: &Node,
    definition_pointer: Seq<char>,
    file: &Document,
) -> Seq<Finding> {
    match checked(file, definition, key) {
        Some(value) => metadata_findings(key, &value, definition_pointer, file),
        None => Seq::empty(),
    }
}

/// Validate a metadata field that the definition has, unless a template expression decides on it.
fn validate_authored_metadata(
    key: &str,
    definition: &Node,
    definition_pointer: &str,
    file: &Document,
    diagnostics: &mut Vec<Diagnostic>,
)
    ensures
        findings(final(diagnostics)@) == findings(old(diagnostics)@)
            + authored_metadata_findings(key@, definition, definition_pointer@, file),
{
    if let Some(value) = get_checked(file, definition, key) {
        validate_root_metadata_field(key, value, definition_pointer, file, diagnostics);
    }
}

/// What is wrong with a metadata field that a root definition lacks.
pub open spec fn missing_metadata_findings(
    key: Seq<char>,
    definition: &Node,
    definition_pointer: Seq<char>,
    file: &Document,
) -> Seq<Finding> {
    if (definition_pointer.len() == 0 || definition_pointer == "/definition"@)
        && present(file, definition, key) is None {
        missing(
            file,
            definition_pointer,
            key,
            definition.span,
            "definition is missing required field '"@ + key + "'"@,
        )
    } else {
        Seq::empty()
    }
}

/// Validate a metadata field that a root definition lacks.
fn report_missing_metadata(
    key: &str,
    definition: &Node,
    definition_pointer: &str,
    file: &Document,
    diagnostics: &mut Vec<Diagnostic>,
)
    ensures
        findings(final(diagnostics)@) == findings(old(diagnostics)@)
            + missing_metadata_findings(key@, definition, definition_pointer@, file),
{
    if (chars_of(definition_pointer).len() == 0 || text_eq(definition_pointer, "/definition"))
        && get_present(file, definition, key).is_none() {
        let message = text3("definition is missing required field '", key, "'");
        report_missing(
            file,
            definition_pointer,
            key,
            definition.span,
            message.as_str(),
            diagnostics,
        );
    }
}

/// What is wrong with the description of the definition.
pub open spec fn description_findings(
    definition: &Node,
    definition_pointer: Seq<char>,
    file: &Document,
) -> Seq<Finding> {
    match checked(file, definition, "description"@) {
        Some(value) => match text_of(&value) {
            Some(text) => if text.len() > 256 {
                wrong_value(
                    file,
                    definition_pointer,
                    "description"@,
                    value.span,
                    "definition.description exceeds the 256 character limit"@,
                )
            } else {
                Seq::empty()
            },
            None => wrong_type(
                file,
                definition_pointer,
                "description"@,
                value.span,
                "definition.description must be a string"@,
            ),
        },
        None => Seq::empty(),
    }
}

/// Validate the description of the definition.
fn validate_description(
    definition: &Node,
    definition_pointer: &str,
    file: &Document,
    diagnostics: &mut Vec<Diagnostic>,
)
    ensures
        findings(final(diagnostics)@) == findings(old(diagnostics)@)
            + description_findings(definition, definition_pointer@, file),
{
    if let Some(value) = get_checked(file, definition, "description") {
        match as_string(value) {
            Some(text) => {
                if chars_of(text).len() > 256 {
                    report_value(
                        file,
                        definition_pointer,
                        "description",
                        value.span,
                        "definition.description exceeds the 256 character limit",
                        diagnostics,
                    );
                }
            },
            None => {
                report_type(
                    file,
                    definition_pointer,
                    "description",
                    value.span,
                    "definition.description must be a string",
                    diagnostics,
                );
            },
        }
    }
}

/// What is wrong with a definition without triggers, or without anything to run.
pub open spec fn presence_findings(
    definition: &Node,
    definition_pointer: Seq<char>,
    file: &Document,
) -> Seq<Finding> {
    if present(file, definition, "triggers"@) is None {
        missing(
            file,
            definition_pointer,
            "triggers"@,
            definition.span,
            "definition must contain triggers"@,
        )
            + (if present(file, definition, "actions"@) is None {
            missing(
                file,
                definition_pointer,
                "actions"@,
                definition.span,
                "definition must contain actions or triggers"@,
            )
        } else {
            Seq::empty()
        })
    } else {
        Seq::empty()
    }
}

/// Validate a definition without triggers, or without anything to run.
fn validate_presence(
    definition: &Node,
    definition_pointer: &str,
    file: &Document,
    diagnostics: &mut Vec<Diagnostic>,
)
    ensures
        findings(final(diagnostics)@) == findings(old(diagnostics)@)
            + presence_findings(definition, definition_pointer@, file),
{
    if get_present(file, definition, "triggers").is_none() {
        report_missing(
            file,
            definition_pointer,
            "triggers",
            definition.span,
            "definition must contain triggers",
            diagnostics,
        );
        if get_present(file, definition, "actions").is_none() {
            report_missing(
                file,
                definition_pointer,
                "actions",
                definition.span,
                "definition must contain actions or triggers",
                diagnostics,
            );
        }
    }
}

/// What is wrong with the `actions` section as a whole.
pub open spec fn actions_section_findings(
    definition: &Node,
    definition_pointer: Seq<char>,
    file: &Document,
    workflow: &Workflow,
) -> Seq<Finding> {
    match present(file, definition, "actions"@) {
        Some(actions) => {
            let pointer = joined(definition_pointer, "actions"@);
            section_findings(&actions, pointer, "definition.actions"@, file)
                + object_count_findings(&actions, pointer, "definition.actions"@, 500, file)
        },
        None => Seq::empty(),
    }
}

/// Validate the `actions` section as a whole.
fn validate_actions_section(
    definition: &Node,
    definition_pointer: &str,
    file: &Document,
    workflow: &Workflow,
    diagnostics: &mut Vec<Diagnostic>,
)
    ensures
        findings(final(diagnostics)@) == findings(old(diagnostics)@)
            + actions_section_findings(definition, definition_pointer@, file, workflow),
{
    if let Some(actions) = get_present(file, definition, "actions") {
        let pointer_text = pointer_join(definition_pointer, "actions");
        let pointer = pointer_text.as_str();
        validate_definition_object_field(actions, pointer, "definition.actions", file, diagnostics);
        validate_root_object_count(actions, pointer, "definition.actions", 500, file, diagnostics);
    }
}

/// What is wrong with the `triggers` section as a whole.
pub open spec fn triggers_section_findings(
    definition: &Node,
    definition_pointer: Seq<char>,
    file: &Document,
    workflow: &Workflow,
) -> Seq<Finding> {
    match present(file, definition, "triggers"@) {
        Some(triggers) => {
            let pointer = joined(definition_pointer, "triggers"@);
            section_findings(&triggers, pointer, "definition.triggers"@, file)
                + (if entry_count(&triggers, file) == Some(0nat) {
                issue(
                    file,
                    "workflow-shape-invalid-value"@,
                    pointer,
                    Some(triggers.span),
                    "definition.triggers must contain at least one trigger"@,
                )
            } else {
                Seq::empty()
            }) + object_count_findings(
                &triggers,
                pointer,
                "definition.triggers"@,
                10,
                file,
            ) + trigger_count_findings(&triggers, pointer, file, workflow)
        },
        None => Seq::empty(),
    }
}

/// Validate the `triggers` section as a whole.
fn validate_triggers_section(
    definition: &Node,
    definition_pointer: &str,
    file: &Document,
    workflow: &Workflow,
    diagnostics: &mut Vec<Diagnostic>,
)
    ensures
        findings(final(diagnostics)@) == findings(old(diagnostics)@)
            + triggers_section_findings(definition, definition_pointer@, file, workflow),
{
    if let Some(triggers) = get_present(file, definition, "triggers") {
        let pointer_text = pointer_join(definition_pointer, "triggers");
        let pointer = pointer_text.as_str();
        validate_definition_object_field(
            triggers,
            pointer,
            "definition.triggers",
            file,
            diagnostics,
        );
        if matches!(effective_object_entry_count(triggers, file), Some(0)) {
            report(
                file,
                "workflow-shape-invalid-value",
                pointer,
                Some(triggers.span),
                "definition.triggers must contain at least one trigger",
                diagnostics,
            );
        }
        validate_root_object_count(triggers, pointer, "definition.triggers", 10, file, diagnostics);
        validate_standard_trigger_count(triggers, pointer, file, workflow, diagnostics);
    }
}

/// What is wrong with the `parameters` section.
pub open spec fn parameters_section_findings(
    definition: &Node,
    definition_pointer: Seq<char>,
    file: &Document,
    known_parameters: Seq<Seq<char>>,
    required: bool,
) -> Seq<Finding> {
    match field(definition, "parameters"@) {
        Some(section) => {
            let pointer = joined(definition_pointer, "parameters"@);
            section_findings(&section, pointer, "definition.parameters"@, file)
                + (if is_written_object(file, &section) {
                parameters_findings(&section, pointer, file, known_parameters, required)
            } else {
                Seq::empty()
            }) + (if is_absent(file, &section) {
                Seq::empty()
            } else {
                object_count_findings(
                    &section,
                    pointer,
                    "definition.parameters"@,
                    500,
                    file,
                )
            })
        },
        None => Seq::empty(),
    }
}

/// Validate the `parameters` section.
fn validate_parameters_section(
    definition: &Node,
    definition_pointer: &str,
    file: &Document,
    known_parameters: &Vec<String>,
    required: bool,
    diagnostics: &mut Vec<Diagnostic>,
)
    ensures
        findings(final(diagnostics)@) == findings(old(diagnostics)@)
            + parameters_section_findings(
                definition,
                definition_pointer@,
                file,
                texts(known_parameters@),
                required,
            ),
{
    if let Some(section) = get(definition, "parameters") {
        let pointer_text = pointer_join(definition_pointer, "parameters");
        let pointer = pointer_text.as_str();
        if validate_definition_object_field(
            section,
            pointer,
            "definition.parameters",
            file,
            diagnostics,
        ) {
            validate_definition_parameters(
                section,
                pointer,
                file,
                known_parameters,
                required,
                diagnostics,
            );
        }
        if !arm_optional_property_absent(file, section) {
            validate_root_object_count(
                section,
                pointer,
                "definition.parameters",
                500,
                file,
                diagnostics,
            );
        }
    }
}

/// What is wrong with the `outputs` section.
pub open spec fn outputs_section_findings(
    definition: &Node,
    definition_pointer: Seq<char>,
    file: &Document,
) -> Seq<Finding> {
    match field(definition, "outputs"@) {
        Some(section) => {
            let pointer = joined(definition_pointer, "outputs"@);
            section_findings(&section, pointer, "definition.outputs"@, file)
                + (if is_written_object(file, &section) {
                outputs_findings(&section, pointer, file)
            } else {
                Seq::empty()
            }) + (if is_absent(file, &section) {
                Seq::empty()
            } else {
                object_count_findings(&section, pointer, "definition.outputs"@, 10, file)
            })
        },
        None => Seq::empty(),
    }
}

/// Validate the `outputs` section.
fn validate_outputs_section(
    definition: &Node,
    definition_pointer: &str,
    file: &Document,
    diagnostics: &mut Vec<Diagnostic>,
)
    ensures
        findings(final(diagnostics)@) == findings(old(diagnostics)@)
            + outputs_section_findings(definition, definition_pointer@, file),
{
    if let Some(section) = get(definition, "outputs") {
        let pointer_text = pointer_join(definition_pointer, "outputs");
        let pointer = pointer_text.as_str();
        if validate_definition_object_field(
            section,
            pointer,
            "definition.outputs",
            file,
            diagnostics,
        ) {
            validate_definition_outputs(section, pointer, file, diagnostics);
        }
        if !arm_optional_property_absent(file, section) {
            validate_root_object_count(
                section,
                pointer,
                "definition.outputs",
                10,
                file,
                diagnostics,
            );
        }
    }
}

/// What is wrong with the actions and triggers of the definition.
pub open spec fn operations_findings(
    definition: &Node,
    definition_pointer: Seq<char>,
    file: &Document,
    workflow: &Workflow,
    scope: &ArmScope,
) -> Seq<Finding> {
    (match present(file, definition, "actions"@) {
        Some(actions) => {
            let pointer = joined(definition_pointer, "actions"@);
            container_findings(&actions, pointer, file, workflow, scope)
        },
        None => Seq::empty(),
    }) + (match present(file, definition, "triggers"@) {
        Some(triggers) => {
            let pointer = joined(definition_pointer, "triggers"@);
            triggers_findings(&triggers, pointer, file, workflow, scope)
        },
        None => Seq::empty(),
    })
}

/// Validate the actions and triggers of the definition.
fn validate_operations(
    definition: &Node,
    definition_pointer: &str,
    file: &Document,
    workflow: &Workflow,
    scope: &ArmScope,
    diagnostics: &mut Vec<Diagnostic>,
)
    ensures
        findings(final(diagnostics)@) == findings(old(diagnostics)@)
            + operations_findings(definition, definition_pointer@, file, workflow, scope),
{
    if let Some(actions) = get_present(file, definition, "actions") {
        let pointer_text = pointer_join(definition_pointer, "actions");
        let pointer = pointer_text.as_str();
        collect_action_container_shape(actions, pointer, file, workflow, scope, diagnostics);
    }
    if let Some(triggers) = get_present(file, definition, "triggers") {
        let pointer_text = pointer_join(definition_pointer, "triggers");
        let pointer = pointer_text.as_str();
        collect_trigger_shape(triggers, pointer, file, workflow, scope, diagnostics);
    }
}

/// What is wrong with a definition that is written out.
pub open spec fn written_definition_findings(
    definition: &Node,
    definition_pointer: Seq<char>,
    file: &Document,
    workflow: &Workflow,
    scope: &ArmScope,
    known_parameters: Seq<Seq<char>>,
    required: bool,
) -> Seq<Finding> {
    if definition_pointer.len() > 0 && !(definition.kind is Object) {
        issue(
            file,
            "workflow-shape-invalid-type"@,
            definition_pointer,
            Some(definition.span),
            "definition must be an object"@,
        )
    } else {
        workflow_kind_findings(definition_pointer, file, workflow)
            + presence_findings(definition, definition_pointer, file)
            + authored_metadata_findings("$schema"@, definition, definition_pointer, file)
            + authored_metadata_findings("contentVersion"@, definition, definition_pointer, file)
            + description_findings(definition, definition_pointer, file)
            + actions_section_findings(definition, definition_pointer, file, workflow)
            + total_limit_findings(definition_pointer, file, workflow)
            + triggers_section_findings(definition, definition_pointer, file, workflow)
            + parameters_section_findings(
                definition,
                definition_pointer,
                file,
                known_parameters,
                required,
            )
            + outputs_section_findings(definition, definition_pointer, file)
            + static_results_findings(definition, definition_pointer, file, workflow)
            + operations_findings(definition, definition_pointer, file, workflow, scope)
            + missing_metadata_findings("$schema"@, definition, definition_pointer, file)
            + missing_metadata_findings("contentVersion"@, definition, definition_pointer, file)
    }
}

/// Validate a definition that is written out.
fn validate_written_definition(
    definition: &Node,
    definition_pointer: &str,
    file: &Document,
    workflow: &Workflow,
    scope: &ArmScope,
    known_parameters: &Vec<String>,
    required: bool,
    diagnostics: &mut Vec<Diagnostic>,
)
    ensures
        findings(final(diagnostics)@) == findings(old(diagnostics)@)
            + written_definition_findings(
                definition,
                definition_pointer@,
                file,
                workflow,
                scope,
                texts(known_parameters@),
                required,
            ),
{
    if chars_of(definition_pointer).len() > 0 && !definition.is_object() {
        report(
            file,
            "workflow-shape-invalid-type",
            definition_pointer,
            Some(definition.span),
            "definition must be an object",
            diagnostics,
        );
    } else {
        validate_workflow_kind(definition_pointer, file, workflow, diagnostics);
        validate_presence(definition, definition_pointer, file, diagnostics);
        validate_authored_metadata("$schema", definition, definition_pointer, file, diagnostics);
        validate_authored_metadata(
            "contentVersion",
            definition,
            definition_pointer,
            file,
            diagnostics,
        );
        validate_description(definition, definition_pointer, file, diagnostics);
        validate_actions_section(definition, definition_pointer, file, workflow, diagnostics);
        validate_total_action_limits(definition_pointer, file, workflow, diagnostics);
        validate_triggers_section(definition, definition_pointer, file, workflow, diagnostics);
        validate_parameters_section(
            definition,
            definition_pointer,
            file,
            known_parameters,
            required,
            diagnostics,
        );
        validate_outputs_section(definition, definition_pointer, file, diagnostics);
        validate_static_results(definition, definition_pointer, file, workflow, diagnostics);
        validate_operations(definition, definition_pointer, file, workflow, scope, diagnostics);
        report_missing_metadata("$schema", definition, definition_pointer, file, diagnostics);
        report_missing_metadata(
            "contentVersion",
            definition,
            definition_pointer,
            file,
            diagnostics,
        );
    }
}

/// The value that a template expression gives a definition.
pub open spec fn resolved_definition(file: &Document, definition: &Node) -> Option<Node> {
    match text_of(definition) {
        Some(text) => match known(file.arm, text) {
            Some(expression) => expression.value,
            None => None,
        },
        None => None,
    }
}

/// Materialize the value that a template expression gives a definition.
pub fn materialized_definition<'a>(file: &Document<'a>, definition: &Node) -> (value: Option<&'a Node>)
    ensures
        node_in(value) == resolved_definition(file, definition),
{
    match as_string(definition) {
        Some(text) => match file.arm.lookup(text) {
            Some(expression) => match &expression.value {
                Some(value) => Some(value),
                None => None,
            },
            None => None,
        },
        None => None,
    }
}

/// What is wrong with a workflow definition. Where template expressions supply
/// it, the value they give is checked, each against its own summary in
/// `resolved_workflows`, and reported where the expression was written.
pub open spec fn shape_findings(
    file: &Document,
    definition: &Node,
    definition_pointer: Seq<char>,
    workflow: &Workflow,
    resolved_workflows: Seq<Workflow>,
    scope: &ArmScope,
    known_parameters: Seq<Seq<char>>,
    required: bool,
) -> Seq<Finding>
    decreases resolved_workflows.len(),
{
    if is_opaque(file, definition) {
        match resolved_definition(file, definition) {
            Some(value) => if resolved_workflows.len() == 0 {
                Seq::empty()
            } else {
                respanned(
                    shape_findings(
                        file,
                        &value,
                        definition_pointer,
                        &resolved_workflows[0],
                        resolved_workflows.skip(1),
                        scope,
                        known_parameters,
                        required,
                    ),
                    Some(definition.span),
                )
            },
            None => Seq::empty(),
        }
    } else {
        written_definition_findings(
            definition,
            definition_pointer,
            file,
            workflow,
            scope,
            known_parameters,
            required,
        )
    }
}

fn shape_from(
    file: &Document,
    definition: &Node,
    definition_pointer: &str,
    workflow: &Workflow,
    resolved_workflows: &Vec<Workflow>,
    scope: &ArmScope,
    known_parameters: &Vec<String>,
    required: bool,
    at: usize,
) -> (found: Vec<Diagnostic>)
    requires
        at <= resolved_workflows@.len(),
    ensures
        findings(found@) == shape_findings(
            file,
            definition,
            definition_pointer@,
            workflow,
            resolved_workflows@.skip(at as int),
            scope,
            texts(known_parameters@),
            required,
        ),
    decreases resolved_workflows@.len() - at,
{
    let mut diagnostics: Vec<Diagnostic> = Vec::new();
    proof {
        lemma_findings_index(diagnostics@);
        assert(findings(diagnostics@) =~= Seq::<Finding>::empty());
    }
    if is_opaque_arm_expression(file, definition) {
        if let Some(value) = materialized_definition(file, definition) {
            if at < resolved_workflows.len() {
                let ghost rest = resolved_workflows@.skip(at as int);
                assert(rest.skip(1) =~= resolved_workflows@.skip(at + 1));
                assert(rest[0] == resolved_workflows@[at as int]);
                let found = shape_from(
                    file,
                    value,
                    definition_pointer,
                    &resolved_workflows[at],
                    resolved_workflows,
                    scope,
                    known_parameters,
                    required,
                    at + 1,
                );
                extend_with_span(&mut diagnostics, &found, Some(definition.span));
            }
        }
        return diagnostics;
    }
    validate_written_definition(
        definition,
        definition_pointer,
        file,
        workflow,
        scope,
        known_parameters,
        required,
        &mut diagnostics,
    );
    diagnostics
}

/// Emit every shape diagnostic for one workflow definition.
///
/// `definition_pointer` is empty for a bare definition file and points at the
/// definition where a template or a workflow file holds it. Where a template
/// expression supplies the definition, `resolved_workflows` holds the summary
/// of the value it gives, and of the values that this one gives in turn.
pub fn shape_diagnostics(
    file: &Document,
    definition: &Node,
    definition_pointer: &str,
    workflow: &Workflow,
    resolved_workflows: &Vec<Workflow>,
    scope: &ArmScope,
    known_parameters: &Vec<String>,
    required: bool,
) -> (found: Vec<Diagnostic>)
    ensures
        findings(found@) == shape_findings(
            file,
            definition,
            definition_pointer@,
            workflow,
            resolved_workflows@,
            scope,
            texts(known_parameters@),
            required,
        ),
{
    assert(resolved_workflows@.skip(0) =~= resolved_workflows@);
    shape_from(
        file,
        definition,
        definition_pointer,
        workflow,
        resolved_workflows,
        scope,
        known_parameters,
        required,
        0,
    )
}
} // verus!
