//! Shallow scanner for the workflow definition language (WDL) expressions
//! embedded in JSON strings.
//!
//! A string is either a root expression (one leading `@`) or plain text with
//! any number of `@{...}` interpolations; `@@` escapes the `@`. Single quotes
//! delimit string literals inside expressions and are escaped by doubling.
//! The scanner extracts calls, references and syntax errors without building
//! a syntax tree.

use vstd::prelude::*;

pub mod arity;
pub mod functions;
pub mod helper_laws;
pub mod laws;
pub mod lex;
pub mod references;
pub mod segments;
pub mod syntax;
pub mod syntax_laws;
pub mod value;
pub mod value_laws;

pub use functions::{
    function_call_suffixes_in_string, function_calls_in_string,
    string_arg_function_call_suffixes_in_string, zero_arg_function_call_in_string,
    zero_arg_function_call_suffixes_in_string,
};
pub use references::references_in_string;
pub use syntax::syntax_issues_in_string;
pub use value::{WdlStringTemplate, WdlStringValue};

verus! {

/// A statically resolvable reference found in an expression string.
///
/// Only calls whose first argument is a literal string are captured.
#[derive(Debug, PartialEq, Eq)]
pub struct Reference {
    /// Reference family; this decides which workflow namespace is checked.
    pub kind: ReferenceKind,
    /// Literal first argument to the reference function.
    pub name: String,
}

/// A syntax issue found by the shallow scanner.
#[derive(Debug, PartialEq, Eq)]
pub struct SyntaxIssue {
    /// Human-readable message suitable for diagnostics.
    pub message: String,
}

/// Function call metadata used by policy checks.
#[derive(Debug, PartialEq, Eq)]
pub struct FunctionCall {
    /// Function identifier as it appears in the expression.
    pub name: String,
    /// Whether the identifier was followed by a parenthesized call.
    pub parenthesized: bool,
}

/// Static reference namespace represented by a helper function.
#[derive(Debug, Clone, Copy, PartialEq, Eq, Structural)]
pub enum ReferenceKind {
    /// Action-output helpers such as `outputs('A')`, `body('A')`, and multipart helpers.
    Action,
    /// Current item helper `item()`, scoped by Foreach or data-operation fields.
    CurrentItem,
    /// Scoped action helper `result('Scope')`.
    ScopedAction,
    /// Until loop helper `iterationIndexes('Loop')`.
    UntilLoop,
    /// Workflow variable helper `variables('name')`.
    Variable,
    /// Workflow parameter helper `parameters('name')`.
    Parameter,
    /// Named loop item helper `items('Foreach')`.
    Item,
}

/// A reference, as a mathematical value.
pub struct ReferenceView {
    pub kind: ReferenceKind,
    pub name: Seq<char>,
}

/// A function call, as a mathematical value.
pub struct FunctionCallView {
    pub name: Seq<char>,
    pub parenthesized: bool,
}

impl View for Reference {
    type V = ReferenceView;

    open spec fn view(&self) -> ReferenceView {
        ReferenceView { kind: self.kind, name: self.name@ }
    }
}

impl View for FunctionCall {
    type V = FunctionCallView;

    open spec fn view(&self) -> FunctionCallView {
        FunctionCallView { name: self.name@, parenthesized: self.parenthesized }
    }
}

impl View for SyntaxIssue {
    type V = Seq<char>;

    open spec fn view(&self) -> Seq<char> {
        self.message@
    }
}

} // verus!
