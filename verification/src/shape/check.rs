//! Checking a definition from the document alone.
//!
//! The rules read a graph summary of the definition. Where template
//! expressions supply the definition, each value that they give has a summary
//! of its own. This module makes them all, and runs the rules.

use vstd::prelude::*;

use crate::arm::ArmScope;
use crate::diagnostic::{findings, Diagnostic, Finding};
use crate::json::{Document, Node};
use crate::shape::arm_boundary::{is_opaque, is_opaque_arm_expression};
use crate::shape::report::respanned;
use crate::shape::root::{
    materialized_definition, resolved_definition, shape_diagnostics, shape_findings,
    written_definition_findings,
};
use crate::text::{owned, texts};
use crate::workflow::extraction::{extract_definition, is_summary};
use crate::workflow::location::kind_value;
use crate::workflow::{Workflow, WorkflowKind};

verus! {

/// The values that template expressions give a definition, one after the
/// other, as long as the last is an expression again; at most `n`.
pub open spec fn resolved_values(file: &Document, definition: &Node, n: nat) -> Seq<Node>
    decreases n,
{
    if n == 0 || !is_opaque(file, definition) {
        Seq::empty()
    } else {
        match resolved_definition(file, definition) {
            Some(value) => seq![value] + resolved_values(file, &value, (n - 1) as nat),
            None => Seq::empty(),
        }
    }
}

/// A summary of a definition of the given kind.
pub open spec fn summarizes(
    workflow: Workflow,
    definition: &Node,
    pointer: Seq<char>,
    kind: Option<Option<Seq<char>>>,
) -> bool {
    is_summary(workflow, definition, pointer) && kind_value(workflow.kind) == kind
}

/// One summary for each of a list of values.
pub open spec fn summarize_all(
    workflows: Seq<Workflow>,
    values: Seq<Node>,
    pointer: Seq<char>,
    kind: Option<Option<Seq<char>>>,
) -> bool {
    &&& workflows.len() == values.len()
    &&& forall|i: int|
        0 <= i < workflows.len() ==> summarizes(
            #[trigger] workflows[i],
            &values[i],
            pointer,
            kind,
        )
}

/// The shape findings of a definition, by its own summary and those of the
/// values that template expressions give it. As many of these are followed as
/// the document has expressions: a longer chain comes back to one it held.
pub open spec fn is_checked(
    found: Seq<Finding>,
    workflow: Workflow,
    resolved_workflows: Seq<Workflow>,
    file: &Document,
    definition: &Node,
    pointer: Seq<char>,
    kind: Option<Option<Seq<char>>>,
    scope: &ArmScope,
    known_parameters: Seq<Seq<char>>,
    required: bool,
) -> bool {
    &&& summarizes(workflow, definition, pointer, kind)
    &&& summarize_all(
        resolved_workflows,
        resolved_values(file, definition, file.arm.expressions@.len()),
        pointer,
        kind,
    )
    &&& found == shape_findings(
        file,
        definition,
        pointer,
        &workflow,
        resolved_workflows,
        scope,
        known_parameters,
        required,
    )
}

fn kind_copied(kind: &Option<WorkflowKind>) -> (copy: Option<WorkflowKind>)
    ensures
        kind_value(copy) == kind_value(*kind),
{
    match kind {
        Some(WorkflowKind::Named(name)) => Some(WorkflowKind::Named(owned(name.as_str()))),
        Some(WorkflowKind::InvalidType) => Some(WorkflowKind::InvalidType),
        None => None,
    }
}

/// Summarize the values that template expressions give a definition.
fn resolved_summaries<'a>(
    file: &Document<'a>,
    definition: &'a Node,
    pointer: &str,
    kind: &Option<WorkflowKind>,
) -> (list: Vec<Workflow<'a>>)
    ensures
        summarize_all(
            list@,
            resolved_values(file, definition, file.arm.expressions@.len()),
            pointer@,
            kind_value(*kind),
        ),
{
    let mut list: Vec<Workflow<'a>> = Vec::new();
    let ghost all = resolved_values(file, definition, file.arm.expressions@.len());
    let ghost mut done: Seq<Node> = Seq::empty();
    let mut current: &'a Node = definition;
    let mut left: usize = file.arm.expressions.len();
    assert(done + all =~= all);
    while left > 0 && is_opaque_arm_expression(file, current)
        invariant
            all == done + resolved_values(file, current, left as nat),
            summarize_all(list@, done, pointer@, kind_value(*kind)),
        ensures
            all == done,
            summarize_all(list@, done, pointer@, kind_value(*kind)),
        decreases left,
    {
        assert(done + Seq::<Node>::empty() =~= done);
        match materialized_definition(file, current) {
            Some(value) => {
                let workflow = extract_definition(value, pointer, kind_copied(kind));
                proof {
                    let rest = resolved_values(file, value, (left - 1) as nat);
                    assert(done + (seq![*value] + rest) =~= done.push(*value) + rest);
                    done = done.push(*value);
                }
                list.push(workflow);
                current = value;
            },
            None => {
                break;
            },
        }
        left -= 1;
        assert(done + Seq::<Node>::empty() =~= done);
    }
    list
}

/// Emit every shape diagnostic for one workflow definition of a document,
/// where no template is in scope for its summary.
pub fn check_definition<'a>(
    file: &Document<'a>,
    definition: &'a Node,
    pointer: &str,
    kind: &Option<WorkflowKind>,
    scope: &ArmScope,
    known_parameters: &Vec<String>,
    required: bool,
) -> (found: Vec<Diagnostic>)
    ensures
        exists|workflow: Workflow, resolved_workflows: Seq<Workflow>| #[trigger]
            is_checked(
                findings(found@),
                workflow,
                resolved_workflows,
                file,
                definition,
                pointer@,
                kind_value(*kind),
                scope,
                texts(known_parameters@),
                required,
            ),
{
    let workflow = extract_definition(definition, pointer, kind_copied(kind));
    let resolved_workflows = resolved_summaries(file, definition, pointer, kind);
    let found = shape_diagnostics(
        file,
        definition,
        pointer,
        &workflow,
        &resolved_workflows,
        scope,
        known_parameters,
        required,
    );
    assert(is_checked(
        findings(found@),
        workflow,
        resolved_workflows@,
        file,
        definition,
        pointer@,
        kind_value(*kind),
        scope,
        texts(known_parameters@),
        required,
    ));
    found
}

/// A definition that a template expression supplies is checked by the value
/// that the expression gives, and reported where the expression was written.
pub proof fn law_resolved_definition_is_checked(
    found: Seq<Finding>,
    workflow: Workflow,
    resolved_workflows: Seq<Workflow>,
    file: &Document,
    definition: &Node,
    value: &Node,
    pointer: Seq<char>,
    kind: Option<Option<Seq<char>>>,
    scope: &ArmScope,
    known_parameters: Seq<Seq<char>>,
    required: bool,
)
    requires
        is_checked(
            found,
            workflow,
            resolved_workflows,
            file,
            definition,
            pointer,
            kind,
            scope,
            known_parameters,
            required,
        ),
        is_opaque(file, definition),
        resolved_definition(file, definition) == Some(*value),
        !is_opaque(file, value),
    ensures
        resolved_workflows.len() == 1,
        summarizes(resolved_workflows[0], value, pointer, kind),
        found == respanned(
            written_definition_findings(
                value,
                pointer,
                file,
                &resolved_workflows[0],
                scope,
                known_parameters,
                required,
            ),
            Some(definition.span),
        ),
{
    let count = file.arm.expressions@.len();
    assert(count > 0);
    let values = resolved_values(file, definition, count);
    assert(resolved_values(file, value, (count - 1) as nat) =~= Seq::empty());
    assert(values =~= seq![*value]);
    assert(summarizes(resolved_workflows[0], &values[0], pointer, kind));
    assert(shape_findings(
        file,
        value,
        pointer,
        &resolved_workflows[0],
        resolved_workflows.skip(1),
        scope,
        known_parameters,
        required,
    ) == written_definition_findings(
        value,
        pointer,
        file,
        &resolved_workflows[0],
        scope,
        known_parameters,
        required,
    ));
}

} // verus!
