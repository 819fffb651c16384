//! Shallow graph summary of a workflow definition.
//!
//! The nested container tree is flattened into a single index of actions,
//! run-after edges, trigger metadata and variable sites. Rules that need
//! shape context re-read the JSON through [`Workflow::node_at`].

use vstd::prelude::*;

use crate::diagnostic::ByteSpan;
use crate::json::{node_at_pointer, node_from, Node};
use crate::text::{
    chars_of, ends_with, eq_ignoring_case, has_prefix, has_suffix, same_ignoring_case, stands_at,
};

pub mod extraction;
pub mod laws;
pub mod location;
pub mod summary_laws;

pub use extraction::extract_definition;
pub use location::locate_definitions;

verus! {

/// Standard workflow wrapper kind, as seen at extraction time.
#[derive(Debug, PartialEq, Eq)]
pub enum WorkflowKind {
    /// The wrapper `kind` field was a string with this value.
    Named(String),
    /// The wrapper `kind` field was present but not a string.
    InvalidType,
}

impl WorkflowKind {
    /// The wrapper `kind` value when it was a plain string, otherwise `None`.
    pub fn as_named(&self) -> (name: Option<&str>)
        ensures
            match name {
                Some(text) => self matches WorkflowKind::Named(found) && found@ == text@,
                None => self is InvalidType,
            },
    {
        match self {
            WorkflowKind::Named(name) => Some(name.as_str()),
            WorkflowKind::InvalidType => None,
        }
    }
}

/// Workflow graph summary used by shape rules.
#[derive(Debug)]
pub struct Workflow<'a> {
    /// Root workflow definition value.
    pub definition: &'a Node,
    /// JSON Pointer to `definition`, empty for standalone definitions.
    pub definition_pointer: String,
    /// Standard workflow wrapper kind, when the definition came from `workflow.json`.
    pub kind: Option<WorkflowKind>,
    /// First action seen for each globally unique action name, by name.
    pub actions: Vec<ActionInfo>,
    /// All actions, including duplicates, in traversal order.
    pub action_list: Vec<ActionInfo>,
    /// Duplicate action declarations that cannot safely be collapsed into `actions`.
    pub duplicate_actions: Vec<DuplicateAction>,
    /// Trigger names declared by the workflow, in order.
    pub triggers: Vec<String>,
    /// Trigger name and type where statically visible, by name.
    pub trigger_types: Vec<(String, String)>,
    /// Triggers whose type is an unresolved template expression.
    pub triggers_with_opaque_type: Vec<String>,
    /// Triggers that statically declare `splitOn`.
    pub triggers_with_split_on: Vec<String>,
    /// Triggers that statically declare `recurrence`.
    pub triggers_with_recurrence: Vec<String>,
    /// Parameters declared inside the workflow definition.
    pub parameters: Vec<String>,
}

/// Action metadata flattened out of nested containers.
#[derive(Debug)]
pub struct ActionInfo {
    /// Action name as declared under its containing `actions` object.
    pub name: String,
    /// JSON Pointer to the action object.
    pub pointer: String,
    /// JSON Pointer to the containing `actions` object.
    pub container_pointer: String,
    /// Nesting depth, with root workflow actions at depth 1.
    pub depth: usize,
    /// Statically visible action type.
    pub action_type: Option<String>,
    /// Action type is an unresolved template expression and must not be treated as absent.
    pub has_opaque_type: bool,
    /// Coarse action class used by reference scoping rules.
    pub kind: ActionKind,
    /// `runAfter` dependencies.
    pub run_after: Vec<RunAfterDependency>,
    /// `runAfter` is an unresolved template expression.
    pub has_opaque_run_after: bool,
    /// Variables initialized by this action.
    pub initialized_variables: Vec<InitializedVariable>,
    /// Variable target name for mutation actions such as `SetVariable`.
    pub variable_target: Option<VariableTarget>,
    /// String values assigned by `SetVariable`, if statically visible.
    pub variable_value: Option<VariableValue>,
}

/// Target variable of a mutation action, located for reference rules.
#[derive(Debug)]
pub struct VariableTarget {
    /// Name from `inputs.name`; may or may not resolve to an initialized variable.
    pub name: String,
    /// JSON Pointer to the `inputs.name` node.
    pub pointer: String,
    /// Source span of the name literal.
    pub span: ByteSpan,
}

/// Variable declared by an `InitializeVariable` action's `inputs`.
#[derive(Debug)]
pub struct InitializedVariable {
    /// Variable name.
    pub name: String,
    /// Declared type; case is preserved from source.
    pub variable_type: String,
}

/// String values assigned by `SetVariable`, flattened from `inputs.value`.
#[derive(Debug)]
pub struct VariableValue {
    /// All string leaves reached under `inputs.value`, in traversal order.
    pub values: Vec<String>,
    /// JSON Pointer to `inputs.value`.
    pub pointer: String,
    /// Source span of the `inputs.value` node.
    pub span: ByteSpan,
}

/// Single edge in an action's `runAfter` map.
#[derive(Debug)]
pub struct RunAfterDependency {
    /// Predecessor action name.
    pub dependency: String,
    /// JSON Pointer to the per-dependency entry.
    pub pointer: String,
    /// Source span for the entry.
    pub span: ByteSpan,
    /// Statuses declared for the edge; empty when the runtime default applies.
    pub statuses: Vec<String>,
}

/// Duplicate action declaration with enough data to report the later entry.
#[derive(Debug)]
pub struct DuplicateAction {
    /// Duplicate action name.
    pub name: String,
    /// JSON Pointer to the duplicate entry.
    pub pointer: String,
    /// JSON Pointer to the first action with the same name.
    pub first_pointer: String,
    /// Source span of the duplicate action object.
    pub span: ByteSpan,
}

/// One string leaf encountered while walking a value tree.
#[derive(Debug)]
pub struct StringSite {
    /// The string content.
    pub value: String,
    /// JSON Pointer to the leaf.
    pub pointer: String,
    /// Source span of the enclosing JSON value.
    pub span: ByteSpan,
    /// Site was produced by evaluating a template expression statically.
    pub arm_static: bool,
    /// Site is only a partial fragment of a larger template expression.
    pub arm_partial: bool,
    /// Fragment could have unseen prefix content.
    pub arm_partial_can_extend_left: bool,
    /// Fragment could have unseen suffix content.
    pub arm_partial_can_extend_right: bool,
}

/// Flat, per-edge view of the run-after graph.
#[derive(Debug)]
pub struct RunAfterRef {
    /// The action holding the `runAfter` clause.
    pub action: String,
    /// The named predecessor.
    pub dependency: String,
    /// Pointer to the enclosing actions container.
    pub container_pointer: String,
    /// Pointer to the individual `runAfter/<dependency>` entry.
    pub pointer: String,
    /// Span for diagnostic anchoring.
    pub span: ByteSpan,
}

/// Coarse action behavior relevant to helper scoping.
#[derive(Debug, Clone, Copy, PartialEq, Eq, Structural)]
pub enum ActionKind {
    /// `Foreach` container; supports `items('name')` and current `item()`.
    Foreach,
    /// `If` container; may execute actions under `actions` and `else.actions`.
    If,
    /// `Scope` container; supports `result('name')`.
    Scope,
    /// `Switch` container; may execute actions under cases and default.
    Switch,
    /// `Until` container; supports `result('name')` and `iterationIndexes('name')`.
    Until,
    /// Agent container; may execute tool actions.
    Agent,
    /// Per-item data operation such as Query, Select, or Table.
    DataOperation,
    /// Any action kind without special reference scoping.
    Other,
}

/// The class of an action type, whatever the case of its letters.
pub open spec fn action_kind(action_type: Option<Seq<char>>) -> ActionKind {
    match action_type {
        None => ActionKind::Other,
        Some(text) => if same_ignoring_case(text, "foreach"@) {
            ActionKind::Foreach
        } else if same_ignoring_case(text, "if"@) {
            ActionKind::If
        } else if same_ignoring_case(text, "scope"@) {
            ActionKind::Scope
        } else if same_ignoring_case(text, "switch"@) {
            ActionKind::Switch
        } else if same_ignoring_case(text, "until"@) {
            ActionKind::Until
        } else if same_ignoring_case(text, "agent"@) {
            ActionKind::Agent
        } else if same_ignoring_case(text, "query"@) || same_ignoring_case(text, "select"@)
            || same_ignoring_case(text, "table"@) {
            ActionKind::DataOperation
        } else {
            ActionKind::Other
        },
    }
}

impl ActionKind {
    /// Classify a raw action type string.
    pub fn from_action_type(action_type: Option<&str>) -> (kind: ActionKind)
        ensures
            kind == action_kind(
                match action_type {
                    Some(text) => Some(text@),
                    None => None,
                },
            ),
    {
        match action_type {
            None => ActionKind::Other,
            Some(text) => if eq_ignoring_case(text, "foreach") {
                ActionKind::Foreach
            } else if eq_ignoring_case(text, "if") {
                ActionKind::If
            } else if eq_ignoring_case(text, "scope") {
                ActionKind::Scope
            } else if eq_ignoring_case(text, "switch") {
                ActionKind::Switch
            } else if eq_ignoring_case(text, "until") {
                ActionKind::Until
            } else if eq_ignoring_case(text, "agent") {
                ActionKind::Agent
            } else if eq_ignoring_case(text, "query") || eq_ignoring_case(text, "select")
                || eq_ignoring_case(text, "table") {
                ActionKind::DataOperation
            } else {
                ActionKind::Other
            },
        }
    }

    /// Whether nested child actions may appear under a plain `actions` field.
    pub fn supports_actions_container(self) -> (holds: bool)
        ensures
            holds == (self is Foreach || self is If || self is Scope || self is Until),
    {
        matches!(self, ActionKind::Foreach | ActionKind::If | ActionKind::Scope | ActionKind::Until)
    }

    /// Whether child actions may appear under `cases.<name>.actions`.
    pub fn supports_cases_container(self) -> (holds: bool)
        ensures
            holds == (self is Switch),
    {
        matches!(self, ActionKind::Switch)
    }

    /// Whether child actions may appear under `default.actions`.
    pub fn supports_default_container(self) -> (holds: bool)
        ensures
            holds == (self is Switch),
    {
        matches!(self, ActionKind::Switch)
    }

    /// Whether child actions may appear under `else.actions`.
    pub fn supports_else_container(self) -> (holds: bool)
        ensures
            holds == (self is If),
    {
        matches!(self, ActionKind::If)
    }

    /// Whether child actions may appear under `tools.<name>.actions`.
    pub fn supports_tools_container(self) -> (holds: bool)
        ensures
            holds == (self is Agent),
    {
        matches!(self, ActionKind::Agent)
    }

    /// Whether `items('<name>')` may target this action.
    pub fn supports_items(self) -> (holds: bool)
        ensures
            holds == (self is Foreach),
    {
        matches!(self, ActionKind::Foreach)
    }

    /// Whether `item()` can be valid somewhere under this action.
    pub fn supports_current_item(self) -> (holds: bool)
        ensures
            holds == (self is Foreach || self is DataOperation),
    {
        matches!(self, ActionKind::Foreach | ActionKind::DataOperation)
    }

    /// Whether `result('<name>')` may target this action.
    pub fn supports_result(self) -> (holds: bool)
        ensures
            holds == (self is Foreach || self is Scope || self is Until),
    {
        matches!(self, ActionKind::Foreach | ActionKind::Scope | ActionKind::Until)
    }
}

/// The wrapper names the workflow stateless, whatever the case.
pub open spec fn stateless(workflow: &Workflow) -> bool {
    workflow.kind matches Some(WorkflowKind::Named(name)) && same_ignoring_case(
        name@,
        "Stateless"@,
    )
}

/// The definition came with a wrapper kind.
pub open spec fn standard(workflow: &Workflow) -> bool {
    workflow.kind is Some
}

/// The part of a pointer below the definition.
pub open spec fn below_definition(workflow: &Workflow, pointer: Seq<char>) -> Seq<char> {
    if has_prefix(pointer, workflow.definition_pointer@) {
        pointer.skip(workflow.definition_pointer@.len() as int)
    } else {
        pointer
    }
}

/// The node of the definition that a pointer of the summary names.
pub open spec fn node_of(workflow: &Workflow, pointer: Seq<char>) -> Option<Node> {
    node_from(workflow.definition, below_definition(workflow, pointer))
}

impl<'a> Workflow<'a> {
    /// Resolve a pointer stored on the summary back into the JSON tree.
    /// Pointers are stored with the `definition_pointer` prefix, which is
    /// stripped before descending.
    pub fn node_at(&self, pointer: &str) -> (found: Option<&'a Node>)
        ensures
            match found {
                Some(node) => node_of(self, pointer@) == Some(*node),
                None => node_of(self, pointer@) is None,
            },
    {
        let chars = chars_of(pointer);
        let prefix = chars_of(self.definition_pointer.as_str());
        if stands_at(chars.as_slice(), prefix.as_slice(), 0) {
            let rest = vstd::slice::slice_subrange(chars.as_slice(), prefix.len(), chars.len());
            assert(rest@ =~= pointer@.skip(prefix@.len() as int));
            node_at_pointer(self.definition, rest)
        } else {
            node_at_pointer(self.definition, chars.as_slice())
        }
    }

    /// True when the wrapper `kind` string was `Stateless`, whatever its case.
    pub fn is_stateless(&self) -> (holds: bool)
        ensures
            holds == stateless(self),
    {
        match &self.kind {
            Some(kind) => match kind.as_named() {
                Some(name) => eq_ignoring_case(name, "Stateless"),
                None => false,
            },
            None => false,
        }
    }

    /// True when the definition came from a Standard `workflow.json`.
    pub fn is_standard(&self) -> (holds: bool)
        ensures
            holds == standard(self),
    {
        self.kind.is_some()
    }

    /// Whether this definition belongs to a Consumption template workflow resource.
    pub fn is_embedded_arm_definition(&self) -> (holds: bool)
        ensures
            holds == has_suffix(self.definition_pointer@, "/properties/definition"@),
    {
        ends_with(self.definition_pointer.as_str(), "/properties/definition")
    }
}

} // verus!
