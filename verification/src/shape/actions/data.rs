//! Shape validators for data actions: `Compose`, `Expression`, `JavaScriptCode`,
//! `Join`, `ParseJson`, `PowershellCode`, `Query`, `Select` and `Table`.

use vstd::prelude::*;

use crate::diagnostic::{findings, Diagnostic, Finding};
use crate::json::{
    as_array, as_object, as_string, field, get, joined, pointer_join, text_of, Document, Json,
    Node,
};
use crate::shape::arm_boundary::{
    authored, get_authored, get_present, is_opaque, is_opaque_arm_expression, present,
};
use crate::shape::dynamic_wdl::wdl_string_is_full_expression;
use crate::shape::field_validators::{
    bool_findings, enum_findings, kind_findings, kind_of, string_findings,
    validate_optional_bool_field, validate_optional_kind, validate_optional_string_enum,
    validate_optional_string_field,
};
use crate::shape::graph::{
    comes_before, find_named, javascript_explicit_dependency_precedes, position_named,
};
use crate::shape::holes::{actions_are_open, are_actions_open, is_order_open, order_is_open};
use crate::shape::report::{
    issue, missing, report, report_missing, report_type, report_value, wrong_type, wrong_value,
};
use crate::shape::required_fields::{
    field_findings, inputs_findings, inputs_of, object_field_findings, require_field,
    require_object_field, require_typed_field, required_inputs_object, typed_field_findings, Shape,
};
use crate::shape::time::{time_unit_names, time_units};
use crate::text::{
    decimal, decimal_of_usize, eq_ignoring_case, has_suffix, in_list_ignoring_case, names,
    one_of_ignoring_case, same_ignoring_case, text3,
};
use crate::wdl::value::{classified, may_have_length, WdlStringValue};
use crate::workflow::{standard, ActionInfo, ActionKind, Workflow};

verus! {

broadcast use crate::diagnostic::group_findings;

pub open spec fn table_format_names() -> Seq<Seq<char>> {
    seq!["CSV"@, "HTML"@]
}

fn table_format_list() -> (list: Vec<&'static str>)
    ensures
        names(list@) == table_format_names(),
{
    let list = vec!["CSV", "HTML"];
    assert(names(list@) =~= table_format_names());
    list
}

pub open spec fn expression_kind_names() -> Seq<Seq<char>> {
    seq![
        "AddToTime"@,
        "ConvertTimeZone"@,
        "CurrentTime"@,
        "GetFutureTime"@,
        "GetPastTime"@,
        "SubtractFromTime"@,
    ]
}

fn expression_kind_list() -> (list: Vec<&'static str>)
    ensures
        names(list@) == expression_kind_names(),
{
    let list = vec![
        "AddToTime",
        "ConvertTimeZone",
        "CurrentTime",
        "GetFutureTime",
        "GetPastTime",
        "SubtractFromTime",
    ];
    assert(names(list@) =~= expression_kind_names());
    list
}

pub open spec fn variable_action_names() -> Seq<Seq<char>> {
    seq![
        "AppendToArrayVariable"@,
        "AppendToStringVariable"@,
        "DecrementVariable"@,
        "IncrementVariable"@,
        "InitializeVariable"@,
        "SetVariable"@,
    ]
}

fn variable_action_list() -> (list: Vec<&'static str>)
    ensures
        names(list@) == variable_action_names(),
{
    let list = vec![
        "AppendToArrayVariable",
        "AppendToStringVariable",
        "DecrementVariable",
        "IncrementVariable",
        "InitializeVariable",
        "SetVariable",
    ];
    assert(names(list@) =~= variable_action_names());
    list
}

/// What is wrong with a `Compose` action.
pub open spec fn compose_action_findings(
    action: &Node,
    action_pointer: Seq<char>,
    file: &Document,
) -> Seq<Finding> {
    field_findings(action, action_pointer, "inputs"@, file)
}

/// Validate a `Compose` action, whose inputs may be anything.
pub fn validate_compose_action(
    action: &Node,
    action_pointer: &str,
    file: &Document,
    diagnostics: &mut Vec<Diagnostic>,
)
    ensures
        findings(final(diagnostics)@) == findings(old(diagnostics)@)
            + compose_action_findings(action, action_pointer@, file),
{
    require_field(action, action_pointer, "inputs", file, diagnostics);
}

/// What is wrong with the inputs of a `Join` action.
pub open spec fn join_action_inputs_findings(
    inputs: &Node,
    inputs_pointer: Seq<char>,
    file: &Document,
) -> Seq<Finding> {
    typed_field_findings(
        inputs,
        inputs_pointer,
        "from"@,
        "Join inputs.from must be a string or array"@,
        Shape::TextOrArray,
        file,
    )
        + typed_field_findings(
            inputs,
            inputs_pointer,
            "joinWith"@,
            "Join inputs.joinWith must be a string"@,
            Shape::Text,
            file,
        )
        + (match authored(file, inputs, "joinWith"@) {
        Some(value) => match text_of(&value) {
            Some(text) => if may_have_length(classified(text), 1) {
                Seq::empty()
            } else {
                wrong_value(
                    file,
                    inputs_pointer,
                    "joinWith"@,
                    value.span,
                    "Join inputs.joinWith must be a single character"@,
                )
            },
            None => Seq::empty(),
        },
        None => Seq::empty(),
    })
}

/// Validate the inputs of a `Join` action.
pub fn validate_join_action_inputs(
    inputs: &Node,
    inputs_pointer: &str,
    file: &Document,
    diagnostics: &mut Vec<Diagnostic>,
)
    ensures
        findings(final(diagnostics)@) == findings(old(diagnostics)@)
            + join_action_inputs_findings(inputs, inputs_pointer@, file),
{
    require_typed_field(
        inputs,
        inputs_pointer,
        "from",
        "Join inputs.from must be a string or array",
        Shape::TextOrArray,
        file,
        diagnostics,
    );
    require_typed_field(
        inputs,
        inputs_pointer,
        "joinWith",
        "Join inputs.joinWith must be a string",
        Shape::Text,
        file,
        diagnostics,
    );
    if let Some(value) = get_authored(file, inputs, "joinWith") {
        if let Some(text) = as_string(value) {
            if !WdlStringValue::classify(text).may_have_char_len(1) {
                report_value(
                    file,
                    inputs_pointer,
                    "joinWith",
                    value.span,
                    "Join inputs.joinWith must be a single character",
                    diagnostics,
                );
            }
        }
    }
}

/// What is wrong with a `Join` action.
pub open spec fn join_action_findings(
    action: &Node,
    action_pointer: Seq<char>,
    file: &Document,
) -> Seq<Finding> {
    inputs_findings(action, action_pointer, file) + match inputs_of(action, file) {
        Some(inputs) => {
            let inputs_pointer = joined(action_pointer, "inputs"@);
            join_action_inputs_findings(&inputs, inputs_pointer, file)
        },
        None => Seq::empty(),
    }
}

/// Validate a `Join` action: `joinWith` is a single character.
pub fn validate_join_action(
    action: &Node,
    action_pointer: &str,
    file: &Document,
    diagnostics: &mut Vec<Diagnostic>,
)
    ensures
        findings(final(diagnostics)@) == findings(old(diagnostics)@)
            + join_action_findings(action, action_pointer@, file),
{
    if let Some(inputs) = required_inputs_object(action, action_pointer, file, diagnostics) {
        let inputs_pointer_text = pointer_join(action_pointer, "inputs");
        let inputs_pointer = inputs_pointer_text.as_str();
        validate_join_action_inputs(inputs, inputs_pointer, file, diagnostics);
    }
}

/// What is wrong with a `ParseJson` action.
pub open spec fn parse_json_action_findings(
    action: &Node,
    action_pointer: Seq<char>,
    file: &Document,
) -> Seq<Finding> {
    inputs_findings(action, action_pointer, file) + match inputs_of(action, file) {
        Some(inputs) => {
            let inputs_pointer = joined(action_pointer, "inputs"@);
            typed_field_findings(
                &inputs,
                inputs_pointer,
                "content"@,
                "ParseJson inputs.content must be present"@,
                Shape::Any,
                file,
            )
                + object_field_findings(&inputs, inputs_pointer, "schema"@, file)
        },
        None => Seq::empty(),
    }
}

/// Validate a `ParseJson` action.
pub fn validate_parse_json_action(
    action: &Node,
    action_pointer: &str,
    file: &Document,
    diagnostics: &mut Vec<Diagnostic>,
)
    ensures
        findings(final(diagnostics)@) == findings(old(diagnostics)@)
            + parse_json_action_findings(action, action_pointer@, file),
{
    if let Some(inputs) = required_inputs_object(action, action_pointer, file, diagnostics) {
        let inputs_pointer_text = pointer_join(action_pointer, "inputs");
        let inputs_pointer = inputs_pointer_text.as_str();
        require_typed_field(
            inputs,
            inputs_pointer,
            "content",
            "ParseJson inputs.content must be present",
            Shape::Any,
            file,
            diagnostics,
        );
        require_object_field(inputs, inputs_pointer, "schema", file, diagnostics);
    }
}

/// An entry that can never be an object.
pub open spec fn is_never_object(entry: &Node, file: &Document) -> bool {
    match text_of(entry) {
        Some(text) => !is_opaque(file, entry) && !(classified(text) is FullExpression),
        None => !(entry.kind is Object),
    }
}

/// Some entry can never be an object.
pub open spec fn has_never_object(items: Seq<Node>, file: &Document) -> bool {
    exists|i: int| 0 <= i < items.len() && #[trigger] is_never_object(&items[i], file)
}

/// The rows of a table include one that can never be an object.
pub open spec fn needs_columns(inputs: &Node, file: &Document) -> bool {
    match field(inputs, "from"@) {
        Some(from) => match from.kind {
            Json::Array(items) => has_never_object(items@, file),
            _ => false,
        },
        None => false,
    }
}

fn table_entry_is_statically_non_object(entry: &Node, file: &Document) -> (holds: bool)
    ensures
        holds == is_never_object(entry, file),
{
    match as_string(entry) {
        Some(text) => !is_opaque_arm_expression(file, entry)
            && !wdl_string_is_full_expression(text),
        None => !entry.is_object(),
    }
}

fn some_entry_is_never_object(items: &Vec<Node>, file: &Document) -> (holds: bool)
    ensures
        holds == has_never_object(items@, file),
{
    let mut i: usize = 0;
    while i < items.len()
        invariant
            i <= items.len(),
            forall|j: int| 0 <= j < i ==> !#[trigger] is_never_object(&items@[j], file),
        decreases items.len() - i,
    {
        if table_entry_is_statically_non_object(&items[i], file) {
            assert(is_never_object(&items@[i as int], file));
            return true;
        }
        i += 1;
    }
    false
}

fn table_from_requires_columns(inputs: &Node, file: &Document) -> (holds: bool)
    ensures
        holds == needs_columns(inputs, file),
{
    match get(inputs, "from") {
        Some(from) => match as_array(from) {
            Some(items) => some_entry_is_never_object(items, file),
            None => false,
        },
        None => false,
    }
}

/// What is wrong with the first `n` of the columns of a table.
pub open spec fn column_findings(
    items: Seq<Node>,
    n: nat,
    base: Seq<char>,
    file: &Document,
) -> Seq<Finding>
    decreases n,
{
    if n == 0 {
        Seq::empty()
    } else {
        let item = items[n - 1];
        let index = decimal(n - 1);
        column_findings(items, (n - 1) as nat, base, file) + (if is_opaque(file, &item) {
            Seq::empty()
        } else {
            if item.kind is Object {
                let column_pointer = joined(base, index);
                typed_field_findings(
                    &item,
                    column_pointer,
                    "header"@,
                    "Table inputs.columns.header must be a string"@,
                    Shape::Text,
                    file,
                )
                    + typed_field_findings(
                        &item,
                        column_pointer,
                        "value"@,
                        "Table inputs.columns.value must be present"@,
                        Shape::Any,
                        file,
                    )
            } else {
                wrong_type(
                    file,
                    base,
                    index,
                    item.span,
                    "Table inputs.columns entries must be objects"@,
                )
            }
        })
    }
}

fn validate_columns(
    items: &Vec<Node>,
    base: &str,
    file: &Document,
    diagnostics: &mut Vec<Diagnostic>,
)
    ensures
        findings(final(diagnostics)@) == findings(old(diagnostics)@)
            + column_findings(items@, items@.len(), base@, file),
{
    let ghost before = findings(diagnostics@);
    let mut i: usize = 0;
    while i < items.len()
        invariant
            i <= items.len(),
            findings(diagnostics@) == before + column_findings(items@, i as nat, base@, file),
        decreases items.len() - i,
    {
        let item = &items[i];
        let index_text = decimal_of_usize(i);
        let index = index_text.as_str();
        if !is_opaque_arm_expression(file, item) {
            if item.is_object() {
                let column_pointer_text = pointer_join(base, index);
                let column_pointer = column_pointer_text.as_str();
                require_typed_field(
                    item,
                    column_pointer,
                    "header",
                    "Table inputs.columns.header must be a string",
                    Shape::Text,
                    file,
                    diagnostics,
                );
                require_typed_field(
                    item,
                    column_pointer,
                    "value",
                    "Table inputs.columns.value must be present",
                    Shape::Any,
                    file,
                    diagnostics,
                );
            } else {
                report_type(
                    file,
                    base,
                    index,
                    item.span,
                    "Table inputs.columns entries must be objects",
                    diagnostics,
                );
            }
        }
        i += 1;
    }
}

/// What is wrong with the columns of a table.
pub open spec fn table_columns_findings(
    inputs: &Node,
    inputs_pointer: Seq<char>,
    file: &Document,
) -> Seq<Finding> {
    match present(file, inputs, "columns"@) {
        Some(columns) => if is_opaque(file, &columns) {
            Seq::empty()
        } else {
            match columns.kind {
                Json::Array(items) => column_findings(
                    items@,
                    items@.len(),
                    joined(inputs_pointer, "columns"@),
                    file,
                ),
                _ => wrong_type(
                    file,
                    inputs_pointer,
                    "columns"@,
                    columns.span,
                    "Table inputs.columns must be an array"@,
                ),
            }
        },
        None => if needs_columns(inputs, file) {
            missing(
                file,
                inputs_pointer,
                "columns"@,
                inputs.span,
                "Table inputs.columns is required when inputs.from contains non-object values"@,
            )
        } else {
            Seq::empty()
        },
    }
}

/// Validate the columns of a table, which are required where a row can never be an object.
pub fn validate_table_columns(
    inputs: &Node,
    inputs_pointer: &str,
    file: &Document,
    diagnostics: &mut Vec<Diagnostic>,
)
    ensures
        findings(final(diagnostics)@) == findings(old(diagnostics)@)
            + table_columns_findings(inputs, inputs_pointer@, file),
{
    match get_present(file, inputs, "columns") {
        Some(columns) => {
            if !is_opaque_arm_expression(file, columns) {
                match as_array(columns) {
                    Some(items) => {
                        let pointer = pointer_join(inputs_pointer, "columns");
                        validate_columns(items, pointer.as_str(), file, diagnostics);
                    },
                    None => {
                        report_type(
                            file,
                            inputs_pointer,
                            "columns",
                            columns.span,
                            "Table inputs.columns must be an array",
                            diagnostics,
                        );
                    },
                }
            }
        },
        None => {
            if table_from_requires_columns(inputs, file) {
                report_missing(
                    file,
                    inputs_pointer,
                    "columns",
                    inputs.span,
                    "Table inputs.columns is required when inputs.from contains non-object values",
                    diagnostics,
                );
            }
        },
    }
}

/// What is wrong with a `Query`, `Select` or `Table` action, by label.
pub open spec fn from_action_findings(
    action: &Node,
    action_pointer: Seq<char>,
    label: Seq<char>,
    file: &Document,
) -> Seq<Finding> {
    inputs_findings(action, action_pointer, file) + match inputs_of(action, file) {
        Some(inputs) => {
            let inputs_pointer = joined(action_pointer, "inputs"@);
            typed_field_findings(
                &inputs,
                inputs_pointer,
                "from"@,
                "inputs.from must be a string or array"@,
                Shape::TextOrArray,
                file,
            )
                + (if same_ignoring_case(label, "query"@) {
                typed_field_findings(
                    &inputs,
                    inputs_pointer,
                    "where"@,
                    "Query inputs.where must be a string"@,
                    Shape::Text,
                    file,
                )
            } else {
                Seq::empty()
            }) + (if same_ignoring_case(label, "table"@) {
                typed_field_findings(
                    &inputs,
                    inputs_pointer,
                    "format"@,
                    "Table inputs.format must be a string"@,
                    Shape::Text,
                    file,
                )
                    + enum_findings(
                        &inputs,
                        inputs_pointer,
                        "format"@,
                        "Table inputs.format"@,
                        table_format_names(),
                        file,
                    )
                    + table_columns_findings(&inputs, inputs_pointer, file)
            } else {
                Seq::empty()
            })
        },
        None => Seq::empty(),
    }
}

/// Validate the `inputs.from` that `Query`, `Select` and `Table` share, and
/// what is particular to the first and the last.
pub fn validate_from_action(
    action: &Node,
    action_pointer: &str,
    label: &str,
    file: &Document,
    diagnostics: &mut Vec<Diagnostic>,
)
    ensures
        findings(final(diagnostics)@) == findings(old(diagnostics)@)
            + from_action_findings(action, action_pointer@, label@, file),
{
    if let Some(inputs) = required_inputs_object(action, action_pointer, file, diagnostics) {
        let inputs_pointer_text = pointer_join(action_pointer, "inputs");
        let inputs_pointer = inputs_pointer_text.as_str();
        require_typed_field(
            inputs,
            inputs_pointer,
            "from",
            "inputs.from must be a string or array",
            Shape::TextOrArray,
            file,
            diagnostics,
        );
        if eq_ignoring_case(label, "query") {
            require_typed_field(
                inputs,
                inputs_pointer,
                "where",
                "Query inputs.where must be a string",
                Shape::Text,
                file,
                diagnostics,
            );
        }
        if eq_ignoring_case(label, "table") {
            require_typed_field(
                inputs,
                inputs_pointer,
                "format",
                "Table inputs.format must be a string",
                Shape::Text,
                file,
                diagnostics,
            );
            validate_optional_string_enum(
                inputs,
                inputs_pointer,
                "format",
                "Table inputs.format",
                table_format_list().as_slice(),
                file,
                diagnostics,
            );
            validate_table_columns(inputs, inputs_pointer, file, diagnostics);
        }
    }
}

/// What is wrong with a `Query` action.
pub open spec fn query_action_findings(
    action: &Node,
    action_pointer: Seq<char>,
    file: &Document,
) -> Seq<Finding> {
    from_action_findings(action, action_pointer, "Query"@, file)
}

/// Validate a `Query` action.
pub fn validate_query_action(
    action: &Node,
    action_pointer: &str,
    file: &Document,
    diagnostics: &mut Vec<Diagnostic>,
)
    ensures
        findings(final(diagnostics)@) == findings(old(diagnostics)@)
            + query_action_findings(action, action_pointer@, file),
{
    validate_from_action(action, action_pointer, "Query", file, diagnostics);
}

/// What is wrong with a `Table` action.
pub open spec fn table_action_findings(
    action: &Node,
    action_pointer: Seq<char>,
    file: &Document,
) -> Seq<Finding> {
    from_action_findings(action, action_pointer, "Table"@, file)
}

/// Validate a `Table` action.
pub fn validate_table_action(
    action: &Node,
    action_pointer: &str,
    file: &Document,
    diagnostics: &mut Vec<Diagnostic>,
)
    ensures
        findings(final(diagnostics)@) == findings(old(diagnostics)@)
            + table_action_findings(action, action_pointer@, file),
{
    validate_from_action(action, action_pointer, "Table", file, diagnostics);
}

/// What is wrong with a `Select` action.
pub open spec fn select_action_findings(
    action: &Node,
    action_pointer: Seq<char>,
    file: &Document,
) -> Seq<Finding> {
    from_action_findings(action, action_pointer, "Select"@, file)
        + (match field(action, "inputs"@) {
        Some(inputs) => if inputs.kind is Object {
            let inputs_pointer = joined(action_pointer, "inputs"@);
            typed_field_findings(
                &inputs,
                inputs_pointer,
                "select"@,
                "Select inputs.select must be an object or string"@,
                Shape::TextOrObject,
                file,
            )
                + (match authored(file, &inputs, "select"@) {
                Some(select) => match select.kind {
                    Json::Object(members) => if members@.len() == 0 {
                        wrong_value(
                            file,
                            inputs_pointer,
                            "select"@,
                            select.span,
                            "Select inputs.select must define at least one mapping"@,
                        )
                    } else {
                        Seq::empty()
                    },
                    _ => Seq::empty(),
                },
                None => Seq::empty(),
            })
        } else {
            Seq::empty()
        },
        None => Seq::empty(),
    })
}

/// Validate a `Select` action, whose projection may not be empty.
pub fn validate_select_action(
    action: &Node,
    action_pointer: &str,
    file: &Document,
    diagnostics: &mut Vec<Diagnostic>,
)
    ensures
        findings(final(diagnostics)@) == findings(old(diagnostics)@)
            + select_action_findings(action, action_pointer@, file),
{
    validate_from_action(action, action_pointer, "Select", file, diagnostics);
    if let Some(inputs) = get(action, "inputs") {
        if inputs.is_object() {
            let inputs_pointer_text = pointer_join(action_pointer, "inputs");
            let inputs_pointer = inputs_pointer_text.as_str();
            require_typed_field(
                inputs,
                inputs_pointer,
                "select",
                "Select inputs.select must be an object or string",
                Shape::TextOrObject,
                file,
                diagnostics,
            );
            if let Some(select) = get_authored(file, inputs, "select") {
                if let Some(members) = as_object(select) {
                    if members.len() == 0 {
                        report_value(
                            file,
                            inputs_pointer,
                            "select",
                            select.span,
                            "Select inputs.select must define at least one mapping",
                            diagnostics,
                        );
                    }
                }
            }
        }
    }
}

/// What is wrong with the interval of an `Expression` action.
pub open spec fn expression_interval_findings(
    inputs: &Node,
    inputs_pointer: Seq<char>,
    file: &Document,
) -> Seq<Finding> {
    typed_field_findings(
        inputs,
        inputs_pointer,
        "interval"@,
        "Expression inputs.interval must be an integer"@,
        Shape::Integer,
        file,
    )
        + typed_field_findings(
            inputs,
            inputs_pointer,
            "timeUnit"@,
            "Expression inputs.timeUnit must be a string"@,
            Shape::Text,
            file,
        )
        + enum_findings(
            inputs,
            inputs_pointer,
            "timeUnit"@,
            "Expression inputs.timeUnit"@,
            time_unit_names(),
            file,
        )
}

/// Validate the interval of an `Expression` action.
pub fn require_expression_interval_fields(
    inputs: &Node,
    inputs_pointer: &str,
    file: &Document,
    diagnostics: &mut Vec<Diagnostic>,
)
    ensures
        findings(final(diagnostics)@) == findings(old(diagnostics)@)
            + expression_interval_findings(inputs, inputs_pointer@, file),
{
    require_typed_field(
        inputs,
        inputs_pointer,
        "interval",
        "Expression inputs.interval must be an integer",
        Shape::Integer,
        file,
        diagnostics,
    );
    require_typed_field(
        inputs,
        inputs_pointer,
        "timeUnit",
        "Expression inputs.timeUnit must be a string",
        Shape::Text,
        file,
        diagnostics,
    );
    validate_optional_string_enum(
        inputs,
        inputs_pointer,
        "timeUnit",
        "Expression inputs.timeUnit",
        time_units().as_slice(),
        file,
        diagnostics,
    );
}

/// What is wrong with the inputs of an `Expression` action of the given kind.
pub open spec fn expression_inputs_findings(
    inputs: &Node,
    inputs_pointer: Seq<char>,
    kind: Seq<char>,
    file: &Document,
) -> Seq<Finding> {
    if same_ignoring_case(kind, "addtotime"@) || same_ignoring_case(kind, "subtractfromtime"@) {
        typed_field_findings(
            inputs,
            inputs_pointer,
            "baseTime"@,
            "Expression inputs.baseTime must be a string"@,
            Shape::Text,
            file,
        )
            + expression_interval_findings(inputs, inputs_pointer, file)
    } else {
        if same_ignoring_case(kind, "converttimezone"@) {
            typed_field_findings(
                inputs,
                inputs_pointer,
                "baseTime"@,
                "Expression time-zone inputs must be strings"@,
                Shape::Text,
                file,
            )
                + typed_field_findings(
                    inputs,
                    inputs_pointer,
                    "sourceTimeZone"@,
                    "Expression time-zone inputs must be strings"@,
                    Shape::Text,
                    file,
                )
                + typed_field_findings(
                    inputs,
                    inputs_pointer,
                    "destinationTimeZone"@,
                    "Expression time-zone inputs must be strings"@,
                    Shape::Text,
                    file,
                )
        } else {
            if same_ignoring_case(kind, "getfuturetime"@)
                || same_ignoring_case(kind, "getpasttime"@) {
                expression_interval_findings(inputs, inputs_pointer, file)
            } else {
                Seq::empty()
            }
        }
    }
}

/// Validate the inputs of an `Expression` action of the given kind.
fn validate_expression_inputs(
    inputs: &Node,
    inputs_pointer: &str,
    kind: &str,
    file: &Document,
    diagnostics: &mut Vec<Diagnostic>,
)
    ensures
        findings(final(diagnostics)@) == findings(old(diagnostics)@)
            + expression_inputs_findings(inputs, inputs_pointer@, kind@, file),
{
    if eq_ignoring_case(kind, "addtotime") || eq_ignoring_case(kind, "subtractfromtime") {
        require_typed_field(
            inputs,
            inputs_pointer,
            "baseTime",
            "Expression inputs.baseTime must be a string",
            Shape::Text,
            file,
            diagnostics,
        );
        require_expression_interval_fields(inputs, inputs_pointer, file, diagnostics);
    } else {
        if eq_ignoring_case(kind, "converttimezone") {
            require_typed_field(
                inputs,
                inputs_pointer,
                "baseTime",
                "Expression time-zone inputs must be strings",
                Shape::Text,
                file,
                diagnostics,
            );
            require_typed_field(
                inputs,
                inputs_pointer,
                "sourceTimeZone",
                "Expression time-zone inputs must be strings",
                Shape::Text,
                file,
                diagnostics,
            );
            require_typed_field(
                inputs,
                inputs_pointer,
                "destinationTimeZone",
                "Expression time-zone inputs must be strings",
                Shape::Text,
                file,
                diagnostics,
            );
        } else {
            if eq_ignoring_case(kind, "getfuturetime") || eq_ignoring_case(kind, "getpasttime") {
                require_expression_interval_fields(inputs, inputs_pointer, file, diagnostics);
            }
        }
    }
}

/// What is wrong with an `Expression` action.
pub open spec fn expression_action_findings(
    action: &Node,
    action_pointer: Seq<char>,
    file: &Document,
) -> Seq<Finding> {
    kind_findings(action, action_pointer, "Expression kind"@, expression_kind_names(), file)
        + inputs_findings(action, action_pointer, file)
        + match (inputs_of(action, file), kind_of(action, expression_kind_names(), file)) {
        (Some(inputs), Some(kind)) => expression_inputs_findings(
            &inputs,
            joined(action_pointer, "inputs"@),
            kind,
            file,
        ),
        _ => Seq::empty(),
    }
}

/// Validate an `Expression` action, whose `kind` decides which fields are required.
pub fn validate_expression_action(
    action: &Node,
    action_pointer: &str,
    file: &Document,
    diagnostics: &mut Vec<Diagnostic>,
)
    ensures
        findings(final(diagnostics)@) == findings(old(diagnostics)@)
            + expression_action_findings(action, action_pointer@, file),
{
    let kind = validate_optional_kind(
        action,
        action_pointer,
        "Expression kind",
        expression_kind_list().as_slice(),
        file,
        diagnostics,
    );
    if let Some(inputs) = required_inputs_object(action, action_pointer, file, diagnostics) {
        if let Some(kind) = kind {
            let pointer = pointer_join(action_pointer, "inputs");
            validate_expression_inputs(inputs, pointer.as_str(), kind, file, diagnostics);
        }
    }
}

/// The output of the action can be read by code: it neither loops nor changes
/// a variable.
pub open spec fn is_readable(action: &ActionInfo) -> bool {
    &&& !(action.kind is Foreach)
    &&& !(action.kind is Until)
    &&& match action.action_type {
        Some(kind) => !one_of_ignoring_case(kind@, variable_action_names()),
        None => true,
    }
}

fn javascript_explicit_dependency_action_supported(action: &ActionInfo) -> (holds: bool)
    ensures
        holds == is_readable(action),
{
    if matches!(action.kind, ActionKind::Foreach | ActionKind::Until) {
        return false;
    }
    match &action.action_type {
        Some(kind) => !in_list_ignoring_case(kind.as_str(), variable_action_list().as_slice()),
        None => true,
    }
}

/// What is wrong with the first `n` of the actions that code depends on.
pub open spec fn dependency_findings(
    items: Seq<Node>,
    n: nat,
    base: Seq<char>,
    action_pointer: Seq<char>,
    file: &Document,
    workflow: &Workflow,
) -> Seq<Finding>
    decreases n,
{
    if n == 0 {
        Seq::empty()
    } else {
        let item = items[n - 1];
        let index = decimal(n - 1);
        dependency_findings(items, (n - 1) as nat, base, action_pointer, file, workflow)
            + (if is_opaque(file, &item) {
            Seq::empty()
        } else {
            match text_of(&item) {
                Some(name) => match position_named(workflow.actions@, name, 0) {
                    Some(at) => if !is_readable(&workflow.actions@[at]) {
                        issue(
                            file,
                            "workflow-shape-invalid-context"@,
                            joined(base, index),
                            Some(item.span),
                            "JavaScriptCode inputs.explicitDependencies.actions cannot reference action '"@
                                + name
                                + "'"@,
                        )
                    } else if !comes_before(workflow.actions@, action_pointer, name)
                        && !is_order_open(workflow, file) {
                        issue(
                            file,
                            "workflow-shape-invalid-context"@,
                            joined(base, index),
                            Some(item.span),
                            "JavaScriptCode inputs.explicitDependencies.actions must reference a preceding action; '"@
                                + name
                                + "' is not a runAfter dependency"@,
                        )
                    } else {
                        Seq::empty()
                    },
                    None => if are_actions_open(workflow, file) {
                        Seq::empty()
                    } else {
                        issue(
                            file,
                            "unknown-action-reference"@,
                            joined(base, index),
                            Some(item.span),
                            "JavaScriptCode inputs.explicitDependencies.actions references missing action '"@
                                + name
                                + "'"@,
                        )
                    },
                },
                None => wrong_type(
                    file,
                    base,
                    index,
                    item.span,
                    "JavaScriptCode inputs.explicitDependencies.actions entries must be strings"@,
                ),
            }
        })
    }
}

fn validate_dependencies(
    items: &Vec<Node>,
    base: &str,
    action_pointer: &str,
    file: &Document,
    workflow: &Workflow,
    diagnostics: &mut Vec<Diagnostic>,
)
    ensures
        findings(final(diagnostics)@) == findings(old(diagnostics)@)
            + dependency_findings(items@, items@.len(), base@, action_pointer@, file, workflow),
{
    let ghost before = findings(diagnostics@);
    let mut i: usize = 0;
    while i < items.len()
        invariant
            i <= items.len(),
            findings(diagnostics@) == before
                + dependency_findings(items@, i as nat, base@, action_pointer@, file, workflow),
        decreases items.len() - i,
    {
        let item = &items[i];
        let index_text = decimal_of_usize(i);
        let index = index_text.as_str();
        if !is_opaque_arm_expression(file, item) {
            match as_string(item) {
                Some(name) => {
                    let pointer = pointer_join(base, index);
                    match find_named(&workflow.actions, name) {
                        Some(at) => {
                            if !javascript_explicit_dependency_action_supported(
                                &workflow.actions[at],
                            ) {
                                let message = text3(
                                    "JavaScriptCode inputs.explicitDependencies.actions cannot reference action '",
                                    name,
                                    "'",
                                );
                                report(
                                    file,
                                    "workflow-shape-invalid-context",
                                    pointer.as_str(),
                                    Some(item.span),
                                    message.as_str(),
                                    diagnostics,
                                );
                            } else if !javascript_explicit_dependency_precedes(
                                &workflow.actions,
                                action_pointer,
                                name,
                            ) && !order_is_open(workflow, file) {
                                let message = text3(
                                    "JavaScriptCode inputs.explicitDependencies.actions must reference a preceding action; '",
                                    name,
                                    "' is not a runAfter dependency",
                                );
                                report(
                                    file,
                                    "workflow-shape-invalid-context",
                                    pointer.as_str(),
                                    Some(item.span),
                                    message.as_str(),
                                    diagnostics,
                                );
                            }
                        },
                        None => {
                            if !actions_are_open(workflow, file) {
                                let message = text3(
                                    "JavaScriptCode inputs.explicitDependencies.actions references missing action '",
                                    name,
                                    "'",
                                );
                                report(
                                    file,
                                    "unknown-action-reference",
                                    pointer.as_str(),
                                    Some(item.span),
                                    message.as_str(),
                                    diagnostics,
                                );
                            }
                        },
                    }
                },
                None => {
                    report_type(
                        file,
                        base,
                        index,
                        item.span,
                        "JavaScriptCode inputs.explicitDependencies.actions entries must be strings",
                        diagnostics,
                    );
                },
            }
        }
        i += 1;
    }
}

/// What is wrong with the actions that code names as its dependencies.
pub open spec fn explicit_dependencies_findings(
    inputs: &Node,
    inputs_pointer: Seq<char>,
    action_pointer: Seq<char>,
    file: &Document,
    workflow: &Workflow,
) -> Seq<Finding> {
    match authored(file, inputs, "explicitDependencies"@) {
        Some(dependencies) => if dependencies.kind is Object {
            let dependencies_pointer = joined(inputs_pointer, "explicitDependencies"@);
            (match authored(file, &dependencies, "actions"@) {
                Some(actions) => match actions.kind {
                    Json::Array(items) => dependency_findings(
                        items@,
                        items@.len(),
                        joined(dependencies_pointer, "actions"@),
                        action_pointer,
                        file,
                        workflow,
                    ),
                    _ => wrong_type(
                        file,
                        dependencies_pointer,
                        "actions"@,
                        actions.span,
                        "JavaScriptCode inputs.explicitDependencies.actions must be an array"@,
                    ),
                },
                None => Seq::empty(),
            }) + bool_findings(
                &dependencies,
                dependencies_pointer,
                "includeTrigger"@,
                "JavaScriptCode inputs.explicitDependencies.includeTrigger"@,
                file,
            )
        } else {
            wrong_type(
                file,
                inputs_pointer,
                "explicitDependencies"@,
                dependencies.span,
                "JavaScriptCode inputs.explicitDependencies must be an object"@,
            )
        },
        None => Seq::empty(),
    }
}

/// Validate the actions that code names as its dependencies.
fn validate_javascript_explicit_dependencies(
    inputs: &Node,
    inputs_pointer: &str,
    action_pointer: &str,
    file: &Document,
    workflow: &Workflow,
    diagnostics: &mut Vec<Diagnostic>,
)
    ensures
        findings(final(diagnostics)@) == findings(old(diagnostics)@)
            + explicit_dependencies_findings(
                inputs,
                inputs_pointer@,
                action_pointer@,
                file,
                workflow,
            ),
{
    if let Some(dependencies) = get_authored(file, inputs, "explicitDependencies") {
        if dependencies.is_object() {
            let dependencies_pointer_text = pointer_join(inputs_pointer, "explicitDependencies");
            let dependencies_pointer = dependencies_pointer_text.as_str();
            if let Some(actions) = get_authored(file, dependencies, "actions") {
                match as_array(actions) {
                    Some(items) => {
                        let pointer = pointer_join(dependencies_pointer, "actions");
                        validate_dependencies(
                            items,
                            pointer.as_str(),
                            action_pointer,
                            file,
                            workflow,
                            diagnostics,
                        );
                    },
                    None => {
                        report_type(
                            file,
                            dependencies_pointer,
                            "actions",
                            actions.span,
                            "JavaScriptCode inputs.explicitDependencies.actions must be an array",
                            diagnostics,
                        );
                    },
                }
            }
            validate_optional_bool_field(
                dependencies,
                dependencies_pointer,
                "includeTrigger",
                "JavaScriptCode inputs.explicitDependencies.includeTrigger",
                file,
                diagnostics,
            );
        } else {
            report_type(
                file,
                inputs_pointer,
                "explicitDependencies",
                dependencies.span,
                "JavaScriptCode inputs.explicitDependencies must be an object",
                diagnostics,
            );
        }
    }
}

/// What is wrong with a `JavaScriptCode` action.
pub open spec fn javascript_action_findings(
    action: &Node,
    action_pointer: Seq<char>,
    file: &Document,
    workflow: &Workflow,
) -> Seq<Finding> {
    inputs_findings(action, action_pointer, file) + match inputs_of(action, file) {
        Some(inputs) => {
            let inputs_pointer = joined(action_pointer, "inputs"@);
            typed_field_findings(
                &inputs,
                inputs_pointer,
                "code"@,
                "JavaScriptCode inputs.code must be a string"@,
                Shape::Text,
                file,
            )
                + explicit_dependencies_findings(
                    &inputs,
                    inputs_pointer,
                    action_pointer,
                    file,
                    workflow,
                )
        },
        None => Seq::empty(),
    }
}

/// Validate a `JavaScriptCode` action.
pub fn validate_javascript_code_action(
    action: &Node,
    action_pointer: &str,
    file: &Document,
    workflow: &Workflow,
    diagnostics: &mut Vec<Diagnostic>,
)
    ensures
        findings(final(diagnostics)@) == findings(old(diagnostics)@)
            + javascript_action_findings(action, action_pointer@, file, workflow),
{
    if let Some(inputs) = required_inputs_object(action, action_pointer, file, diagnostics) {
        let inputs_pointer_text = pointer_join(action_pointer, "inputs");
        let inputs_pointer = inputs_pointer_text.as_str();
        require_typed_field(
            inputs,
            inputs_pointer,
            "code",
            "JavaScriptCode inputs.code must be a string",
            Shape::Text,
            file,
            diagnostics,
        );
        validate_javascript_explicit_dependencies(
            inputs,
            inputs_pointer,
            action_pointer,
            file,
            workflow,
            diagnostics,
        );
    }
}

/// What is wrong with a `PowershellCode` action.
pub open spec fn powershell_action_findings(
    action: &Node,
    action_pointer: Seq<char>,
    file: &Document,
    workflow: &Workflow,
) -> Seq<Finding> {
    (if !standard(workflow) || has_suffix(
        workflow.definition_pointer@,
        "/properties/definition"@,
    ) {
        issue(
            file,
            "workflow-shape-invalid-context"@,
            joined(action_pointer, "type"@),
            match field(action, "type"@) { Some(found) => Some(found.span), None => None },
            "PowershellCode actions are supported only in Standard workflows"@,
        )
    } else {
        Seq::empty()
    }) + inputs_findings(action, action_pointer, file) + match inputs_of(action, file) {
        Some(inputs) => {
            let inputs_pointer = joined(action_pointer, "inputs"@);
            (if field(&inputs, "codeFile"@) is None && field(&inputs, "CodeFile"@) is None {
                missing(
                    file,
                    inputs_pointer,
                    "codeFile"@,
                    inputs.span,
                    "PowershellCode inputs must define codeFile or CodeFile"@,
                )
            } else {
                Seq::empty()
            }) + string_findings(&inputs, inputs_pointer, "codeFile"@, "PowershellCode inputs.codeFile"@, file) + string_findings(
                &inputs,
                inputs_pointer,
                "CodeFile"@,
                "PowershellCode inputs.CodeFile"@,
                file,
            )
        },
        None => Seq::empty(),
    }
}

/// Validate a `PowershellCode` action, for Standard workflows only.
pub fn validate_powershell_code_action(
    action: &Node,
    action_pointer: &str,
    file: &Document,
    workflow: &Workflow,
    diagnostics: &mut Vec<Diagnostic>,
)
    ensures
        findings(final(diagnostics)@) == findings(old(diagnostics)@)
            + powershell_action_findings(action, action_pointer@, file, workflow),
{
    if !workflow.is_standard() || workflow.is_embedded_arm_definition() {
        let pointer = pointer_join(action_pointer, "type");
        let span = match get(action, "type") { Some(found) => Some(found.span), None => None };
        report(
            file,
            "workflow-shape-invalid-context",
            pointer.as_str(),
            span,
            "PowershellCode actions are supported only in Standard workflows",
            diagnostics,
        );
    }
    if let Some(inputs) = required_inputs_object(action, action_pointer, file, diagnostics) {
        let inputs_pointer_text = pointer_join(action_pointer, "inputs");
        let inputs_pointer = inputs_pointer_text.as_str();
        if get(inputs, "codeFile").is_none() && get(inputs, "CodeFile").is_none() {
            report_missing(
                file,
                inputs_pointer,
                "codeFile",
                inputs.span,
                "PowershellCode inputs must define codeFile or CodeFile",
                diagnostics,
            );
        }
        validate_optional_string_field(
            inputs,
            inputs_pointer,
            "codeFile",
            "PowershellCode inputs.codeFile",
            file,
            diagnostics,
        );
        validate_optional_string_field(
            inputs,
            inputs_pointer,
            "CodeFile",
            "PowershellCode inputs.CodeFile",
            file,
            diagnostics,
        );
    }
}
} // verus!
