//! Static checks for Azure Logic Apps workflow definitions.

pub mod arm;
pub mod cli;
pub mod deployment;
pub mod diagnostic;
pub mod human;
pub mod json;
pub mod path_laws;
pub mod path_utils;
pub mod report_laws;
pub mod shape;
pub mod strictness;
pub mod text;
pub mod text_laws;
pub mod wdl;
pub mod workflow;

/// Diagnostic data structures and output helpers.
pub use diagnostic::{sanitize_for_terminal, ByteSpan, Diagnostic, JsonDiagnostic, Severity};
/// How paths are shown.
pub use path_utils::display_path;
/// The strict / lenient policy.
pub use strictness::relax_diagnostics;
