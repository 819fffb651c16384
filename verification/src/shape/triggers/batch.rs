//! Shape validator for the `Batch` trigger.

use vstd::prelude::*;

use crate::diagnostic::{findings, Diagnostic, Finding};
use crate::json::{field, get, joined, pointer_join, Document, Node};
use crate::shape::actions::integration::{
    batch_inputs_findings, batch_mode_findings, validate_batch_inputs, validate_batch_mode,
};
use crate::shape::arm_boundary::node_in;
use crate::shape::report::{report_context, wrong_context};
use crate::shape::required_fields::{
    inputs_object, required_trigger_inputs_object, trigger_inputs_findings,
};
use crate::workflow::{standard, Workflow};

verus! {

broadcast use crate::diagnostic::group_findings;

/// What is wrong with a `Batch` trigger.
pub open spec fn batch_trigger_findings(
    trigger: &Node,
    given: Option<Node>,
    trigger_pointer: Seq<char>,
    file: &Document,
    workflow: &Workflow,
) -> Seq<Finding> {
    trigger_inputs_findings(trigger, given, trigger_pointer, file)
        + match inputs_object(given, file) {
        Some(inputs) => {
            let inputs_pointer = joined(trigger_pointer, "inputs"@);
            (if standard(workflow) {
                match field(&inputs, "mode"@) {
                    Some(mode) => wrong_context(
                        file,
                        inputs_pointer,
                        "mode"@,
                        mode.span,
                        "Batch trigger inputs.mode is supported only in Consumption workflows"@,
                    ),
                    None => Seq::empty(),
                }
            } else {
                batch_mode_findings(&inputs, inputs_pointer, file)
            }) + batch_inputs_findings(&inputs, inputs_pointer, file)
        },
        None => Seq::empty(),
    }
}

/// Validate a `Batch` trigger, whose mode is for Consumption workflows only.
pub fn validate_batch_trigger(
    trigger: &Node,
    given: Option<&Node>,
    trigger_pointer: &str,
    file: &Document,
    workflow: &Workflow,
    diagnostics: &mut Vec<Diagnostic>,
)
    ensures
        findings(final(diagnostics)@) == findings(old(diagnostics)@)
            + batch_trigger_findings(trigger, node_in(given), trigger_pointer@, file, workflow),
{
    if let Some(inputs) = required_trigger_inputs_object(
        trigger,
        given,
        trigger_pointer,
        file,
        diagnostics,
    ) {
        let inputs_pointer_text = pointer_join(trigger_pointer, "inputs");
        let inputs_pointer = inputs_pointer_text.as_str();
        if workflow.is_standard() {
            if let Some(mode) = get(inputs, "mode") {
                report_context(
                    file,
                    inputs_pointer,
                    "mode",
                    mode.span,
                    "Batch trigger inputs.mode is supported only in Consumption workflows",
                    diagnostics,
                );
            }
        } else {
            validate_batch_mode(inputs, inputs_pointer, file, diagnostics);
        }
        validate_batch_inputs(inputs, inputs_pointer, file, diagnostics);
    }
}
} // verus!
