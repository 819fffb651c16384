//! Shape rules: what a workflow definition has to look like, field by field.

pub mod actions;
pub mod arm_boundary;
pub mod caps;
pub mod check;
pub mod code_laws;
pub mod common;
pub mod common_laws;
pub mod conflict_laws;
pub mod connector_laws;
pub mod content_transfer;
pub mod control_laws;
pub mod credential_laws;
pub mod data_laws;
pub mod definition_io;
pub mod duration;
pub mod duration_laws;
pub mod dynamic_wdl;
pub mod field_laws;
pub mod field_validators;
pub mod graph;
pub mod graph_laws;
pub mod holes;
pub mod http;
pub mod http_laws;
pub mod http_uri;
pub mod errors;
pub mod laws;
pub mod limits;
pub mod nested_laws;
pub mod node_type;
pub mod numbers;
pub mod operation_options;
pub mod operations;
pub mod plain_laws;
pub mod recurrence_laws;
pub mod registry;
pub mod report;
pub mod required_fields;
pub mod result_laws;
pub mod root;
pub mod root_laws;
pub mod run_after;
pub mod runtime;
pub mod secure_data;
pub mod static_results;
pub mod supplied;
pub mod template_laws;
pub mod time;
pub mod time_laws;
pub mod trigger_laws;
pub mod triggers;
pub mod type_laws;
pub mod uri_laws;
pub mod variable_laws;
