//! `definition.parameters` and `definition.outputs`.
//!
//! Both are objects keyed by name; each entry names a type, and a default or a
//! value of that type.

use vstd::prelude::*;

use crate::diagnostic::{findings, Diagnostic, Finding};
use crate::json::{
    as_object, as_string, field, get, joined, pointer_join, text_of, Document, Json, Member, Node,
    Number,
};
use crate::shape::arm_boundary::{
    allows_expressions, arm_optional_property_absent, checked, file_allows_arm_expressions,
    get_checked, is_absent, is_opaque, is_opaque_arm_expression, is_skipped, skipped,
};
use crate::shape::dynamic_wdl::wdl_string_is_full_expression;
use crate::shape::field_validators::{string_findings, validate_optional_string_field};
use crate::shape::numbers::{is_integer, is_integer_value};
use crate::shape::report::{
    missing, report_missing, report_type, report_value, wrong_type, wrong_value,
};
use crate::text::{contains, in_list, names, one_of, text3, text_eq, texts};
use crate::wdl::value::classified;
use crate::arm::known;
use crate::shape::common::{description_length_findings, validate_optional_description_length};
use crate::shape::graph::holds_text;

verus! {

broadcast use crate::diagnostic::group_findings;

pub open spec fn parameter_type_names() -> Seq<Seq<char>> {
    seq![
        "Array"@,
        "Bool"@,
        "Float"@,
        "Int"@,
        "Object"@,
        "SecureObject"@,
        "SecureString"@,
        "String"@,
    ]
}

fn parameter_type_list() -> (list: Vec<&'static str>)
    ensures
        names(list@) == parameter_type_names(),
{
    let list = vec![
        "Array",
        "Bool",
        "Float",
        "Int",
        "Object",
        "SecureObject",
        "SecureString",
        "String",
    ];
    assert(names(list@) =~= parameter_type_names());
    list
}

/// The type that a declaration names, where it can be known: the text itself,
/// or what a template expression resolves to.
pub open spec fn type_text(file: &Document, value: &Node) -> Option<Seq<char>> {
    match text_of(value) {
        Some(text) => match known(&file.arm, text) {
            Some(expression) => if allows_expressions(file) {
                match expression.string {
                    Some(result) => Some(result@),
                    None => None,
                }
            } else {
                Some(text)
            },
            None => Some(text),
        },
        None => None,
    }
}

fn definition_entry_type_text<'a>(file: &'a Document, value: &'a Node) -> (found: Option<&'a str>)
    ensures
        match found {
            Some(text) => type_text(file, value) == Some(text@),
            None => type_text(file, value) is None,
        },
{
    match as_string(value) {
        Some(text) => match file.arm.lookup(text) {
            Some(expression) => if file_allows_arm_expressions(file) {
                match &expression.string {
                    Some(result) => Some(result.as_str()),
                    None => None,
                }
            } else {
                Some(text)
            },
            None => Some(text),
        },
        None => None,
    }
}

/// A value whose shape is known only at run time.
pub open spec fn is_runtime_value(file: &Document, value: &Node) -> bool {
    is_opaque(file, value)
        || (text_of(value) is Some && classified(text_of(value)->Some_0) is FullExpression)
}

fn definition_io_value_is_dynamic_json(file: &Document, value: &Node) -> (holds: bool)
    ensures
        holds == is_runtime_value(file, value),
{
    is_opaque_arm_expression(file, value) || match as_string(value) {
        Some(text) => wdl_string_is_full_expression(text),
        None => false,
    }
}

/// A value has the shape that a declared type asks for.
pub open spec fn has_declared_type(value: &Node, kind: Seq<char>) -> bool {
    if kind == "Array"@ {
        value.kind is Array
    } else if kind == "Bool"@ {
        value.kind is Bool
    } else if kind == "Float"@ {
        value.kind is Number
    } else if kind == "Int"@ {
        is_integer(value)
    } else if kind == "Object"@ || kind == "SecureObject"@ {
        value.kind is Object
    } else if kind == "SecureString"@ || kind == "String"@ {
        value.kind is String
    } else {
        true
    }
}

fn definition_io_value_matches_type(value: &Node, kind: &str) -> (holds: bool)
    ensures
        holds == has_declared_type(value, kind@),
{
    if text_eq(kind, "Array") {
        value.is_array()
    } else if text_eq(kind, "Bool") {
        value.is_bool()
    } else if text_eq(kind, "Float") {
        value.is_number()
    } else if text_eq(kind, "Int") {
        is_integer_value(value)
    } else if text_eq(kind, "Object") || text_eq(kind, "SecureObject") {
        value.is_object()
    } else if text_eq(kind, "SecureString") || text_eq(kind, "String") {
        value.is_string()
    } else {
        true
    }
}

/// A parameter has to bring its own default: it is not supplied by the
/// runtime, the template or the enclosing project.
pub open spec fn needs_default(
    file: &Document,
    name: Seq<char>,
    known_parameters: Seq<Seq<char>>,
    required: bool,
) -> bool {
    required
        && name != "$connections"@
        && !allows_expressions(file)
        && !known_parameters.contains(name)
}

fn definition_parameter_default_value_required(
    file: &Document,
    name: &str,
    known_parameters: &Vec<String>,
    required: bool,
) -> (holds: bool)
    ensures
        holds == needs_default(file, name@, texts(known_parameters@), required),
{
    required
        && !text_eq(name, "$connections")
        && !file_allows_arm_expressions(file)
        && !holds_text(known_parameters, name)
}

/// What is wrong with the default value of a parameter.
pub open spec fn default_value_findings(
    parameter: &Node,
    parameter_pointer: Seq<char>,
    kind: Seq<char>,
    required: bool,
    file: &Document,
) -> Seq<Finding> {
    match field(parameter, "defaultValue"@) {
        Some(value) => if is_absent(file, &value) {
            if required {
                missing(
                    file,
                    parameter_pointer,
                    "defaultValue"@,
                    value.span,
                    "definition parameter is missing required field 'defaultValue'"@,
                )
            } else {
                Seq::empty()
            }
        } else {
            if one_of(kind, parameter_type_names())
                && !is_runtime_value(file, &value)
                && !has_declared_type(&value, kind) {
                wrong_type(
                    file,
                    parameter_pointer,
                    "defaultValue"@,
                    value.span,
                    "definition parameter defaultValue must match type '"@ + kind + "'"@,
                )
            } else {
                Seq::empty()
            }
        },
        None => if required {
            missing(
                file,
                parameter_pointer,
                "defaultValue"@,
                parameter.span,
                "definition parameter is missing required field 'defaultValue'"@,
            )
        } else {
            Seq::empty()
        },
    }
}

/// Validate the default value of a parameter.
fn validate_default_value(
    parameter: &Node,
    parameter_pointer: &str,
    kind: &str,
    required: bool,
    file: &Document,
    diagnostics: &mut Vec<Diagnostic>,
)
    ensures
        findings(final(diagnostics)@) == findings(old(diagnostics)@)
            + default_value_findings(parameter, parameter_pointer@, kind@, required, file),
{
    match get(parameter, "defaultValue") {
        Some(value) => {
            if arm_optional_property_absent(file, value) {
                if required {
                    report_missing(
                        file,
                        parameter_pointer,
                        "defaultValue",
                        value.span,
                        "definition parameter is missing required field 'defaultValue'",
                        diagnostics,
                    );
                }
            } else {
                if in_list(kind, parameter_type_list().as_slice())
                    && !definition_io_value_is_dynamic_json(file, value)
                    && !definition_io_value_matches_type(value, kind) {
                    let message = text3(
                        "definition parameter defaultValue must match type '",
                        kind,
                        "'",
                    );
                    report_type(
                        file,
                        parameter_pointer,
                        "defaultValue",
                        value.span,
                        message.as_str(),
                        diagnostics,
                    );
                }
            }
        },
        None => {
            if required {
                report_missing(
                    file,
                    parameter_pointer,
                    "defaultValue",
                    parameter.span,
                    "definition parameter is missing required field 'defaultValue'",
                    diagnostics,
                );
            }
        },
    }
}

/// What is wrong with a parameter of the given type.
pub open spec fn parameter_body_findings(
    parameter: &Node,
    parameter_pointer: Seq<char>,
    kind: Seq<char>,
    required: bool,
    file: &Document,
) -> Seq<Finding> {
    default_value_findings(parameter, parameter_pointer, kind, required, file)
        + (match checked(file, parameter, "allowedValues"@) {
        Some(values) => if values.kind is Array {
            Seq::empty()
        } else {
            wrong_type(
                file,
                parameter_pointer,
                "allowedValues"@,
                values.span,
                "definition parameter allowedValues must be an array"@,
            )
        },
        None => Seq::empty(),
    }) + string_findings(
        parameter,
        parameter_pointer,
        "description"@,
        "definition parameter description"@,
        file,
    ) + description_length_findings(parameter, parameter_pointer, "definition parameter"@, file)
}

/// Validate a parameter of the given type.
fn validate_parameter_body(
    parameter: &Node,
    parameter_pointer: &str,
    kind: &str,
    required: bool,
    file: &Document,
    diagnostics: &mut Vec<Diagnostic>,
)
    ensures
        findings(final(diagnostics)@) == findings(old(diagnostics)@)
            + parameter_body_findings(parameter, parameter_pointer@, kind@, required, file),
{
    validate_default_value(parameter, parameter_pointer, kind, required, file, diagnostics);
    if let Some(values) = get_checked(file, parameter, "allowedValues") {
        if !values.is_array() {
            report_type(
                file,
                parameter_pointer,
                "allowedValues",
                values.span,
                "definition parameter allowedValues must be an array",
                diagnostics,
            );
        }
    }
    validate_optional_string_field(
        parameter,
        parameter_pointer,
        "description",
        "definition parameter description",
        file,
        diagnostics,
    );
    validate_optional_description_length(
        parameter,
        parameter_pointer,
        "definition parameter",
        file,
        diagnostics,
    );
}

/// What is wrong with one parameter declaration.
pub open spec fn parameter_findings(
    parameter: &Node,
    parameter_pointer: Seq<char>,
    required: bool,
    file: &Document,
) -> Seq<Finding> {
    match field(parameter, "type"@) {
        Some(declared) => match type_text(file, &declared) {
            Some(kind) => (if one_of(kind, parameter_type_names()) {
                Seq::empty()
            } else {
                wrong_value(
                    file,
                    parameter_pointer,
                    "type"@,
                    declared.span,
                    "definition parameter type '"@ + kind + "' is not supported"@,
                )
            }) + parameter_body_findings(parameter, parameter_pointer, kind, required, file),
            None => if is_opaque(file, &declared) {
                Seq::empty()
            } else {
                wrong_type(
                    file,
                    parameter_pointer,
                    "type"@,
                    declared.span,
                    "definition parameter type must be a string"@,
                )
            },
        },
        None => missing(
            file,
            parameter_pointer,
            "type"@,
            parameter.span,
            "definition parameter is missing required field 'type'"@,
        ),
    }
}

/// Validate one parameter declaration.
fn validate_parameter(
    parameter: &Node,
    parameter_pointer: &str,
    required: bool,
    file: &Document,
    diagnostics: &mut Vec<Diagnostic>,
)
    ensures
        findings(final(diagnostics)@) == findings(old(diagnostics)@)
            + parameter_findings(parameter, parameter_pointer@, required, file),
{
    match get(parameter, "type") {
        Some(declared) => {
            match definition_entry_type_text(file, declared) {
                Some(kind) => {
                    if !in_list(kind, parameter_type_list().as_slice()) {
                        let message = text3(
                            "definition parameter type '",
                            kind,
                            "' is not supported",
                        );
                        report_value(
                            file,
                            parameter_pointer,
                            "type",
                            declared.span,
                            message.as_str(),
                            diagnostics,
                        );
                    }
                    validate_parameter_body(
                        parameter,
                        parameter_pointer,
                        kind,
                        required,
                        file,
                        diagnostics,
                    );
                },
                None => {
                    if !is_opaque_arm_expression(file, declared) {
                        report_type(
                            file,
                            parameter_pointer,
                            "type",
                            declared.span,
                            "definition parameter type must be a string",
                            diagnostics,
                        );
                    }
                },
            }
        },
        None => {
            report_missing(
                file,
                parameter_pointer,
                "type",
                parameter.span,
                "definition parameter is missing required field 'type'",
                diagnostics,
            );
        },
    }
}

/// What is wrong with the first `n` of the parameters of a definition.
pub open spec fn parameter_list_findings(
    members: Seq<Member>,
    n: nat,
    base: Seq<char>,
    file: &Document,
    known_parameters: Seq<Seq<char>>,
    required: bool,
) -> Seq<Finding>
    decreases n,
{
    if n == 0 {
        Seq::empty()
    } else {
        let item = members[n - 1].value;
        let name = members[n - 1].name@;
        parameter_list_findings(members, (n - 1) as nat, base, file, known_parameters, required)
            + (if is_skipped(file, &item) {
            Seq::empty()
        } else {
            if item.kind is Object {
                parameter_findings(
                    &item,
                    joined(base, name),
                    needs_default(file, name, known_parameters, required),
                    file,
                )
            } else {
                wrong_type(
                    file,
                    base,
                    name,
                    item.span,
                    "definition parameter entries must be objects"@,
                )
            }
        })
    }
}

fn validate_parameter_list(
    members: &Vec<Member>,
    base: &str,
    file: &Document,
    known_parameters: &Vec<String>,
    required: bool,
    diagnostics: &mut Vec<Diagnostic>,
)
    ensures
        findings(final(diagnostics)@) == findings(old(diagnostics)@)
            + parameter_list_findings(
                members@,
                members@.len(),
                base@,
                file,
                texts(known_parameters@),
                required,
            ),
{
    let ghost before = findings(diagnostics@);
    let mut i: usize = 0;
    while i < members.len()
        invariant
            i <= members.len(),
            findings(diagnostics@) == before
                + parameter_list_findings(
                    members@,
                    i as nat,
                    base@,
                    file,
                    texts(known_parameters@),
                    required,
                ),
        decreases members.len() - i,
    {
        let item = &members[i].value;
        let name = members[i].name.as_str();
        if !skipped(file, item) {
            if item.is_object() {
                let pointer = pointer_join(base, name);
                let needed = definition_parameter_default_value_required(
                    file,
                    name,
                    known_parameters,
                    required,
                );
                validate_parameter(item, pointer.as_str(), needed, file, diagnostics);
            } else {
                report_type(
                    file,
                    base,
                    name,
                    item.span,
                    "definition parameter entries must be objects",
                    diagnostics,
                );
            }
        }
        i += 1;
    }
}

/// What is wrong with the `parameters` of a definition.
pub open spec fn parameters_findings(
    parameters: &Node,
    parameters_pointer: Seq<char>,
    file: &Document,
    known_parameters: Seq<Seq<char>>,
    required: bool,
) -> Seq<Finding> {
    match parameters.kind {
        Json::Object(members) => parameter_list_findings(
            members@,
            members@.len(),
            parameters_pointer,
            file,
            known_parameters,
            required,
        ),
        _ => Seq::empty(),
    }
}

/// Validate the `parameters` of a definition. A default is required where
/// nothing else can supply the value.
pub fn validate_definition_parameters(
    parameters: &Node,
    parameters_pointer: &str,
    file: &Document,
    known_parameters: &Vec<String>,
    required: bool,
    diagnostics: &mut Vec<Diagnostic>,
)
    ensures
        findings(final(diagnostics)@) == findings(old(diagnostics)@)
            + parameters_findings(
                parameters,
                parameters_pointer@,
                file,
                texts(known_parameters@),
                required,
            ),
{
    if let Some(members) = as_object(parameters) {
        validate_parameter_list(
            members,
            parameters_pointer,
            file,
            known_parameters,
            required,
            diagnostics,
        );
    }
}

/// What is wrong with the value of an output; its type may be unknown.
pub open spec fn output_value_findings(
    output: &Node,
    output_pointer: Seq<char>,
    kind: Option<Seq<char>>,
    file: &Document,
) -> Seq<Finding> {
    match field(output, "value"@) {
        Some(value) => match kind {
            Some(text) => if one_of(text, parameter_type_names())
                && !is_runtime_value(file, &value)
                && !has_declared_type(&value, text) {
                wrong_type(
                    file,
                    output_pointer,
                    "value"@,
                    value.span,
                    "definition output value must match type '"@ + text + "'"@,
                )
            } else {
                Seq::empty()
            },
            None => Seq::empty(),
        },
        None => missing(
            file,
            output_pointer,
            "value"@,
            output.span,
            "definition output is missing required field 'value'"@,
        ),
    }
}

fn validate_output_value(
    output: &Node,
    output_pointer: &str,
    kind: Option<&str>,
    file: &Document,
    diagnostics: &mut Vec<Diagnostic>,
)
    ensures
        findings(final(diagnostics)@) == findings(old(diagnostics)@)
            + output_value_findings(
                output,
                output_pointer@,
                match kind { Some(text) => Some(text@), None => None },
                file,
            ),
{
    match get(output, "value") {
        Some(value) => {
            if let Some(text) = kind {
                if in_list(text, parameter_type_list().as_slice())
                    && !definition_io_value_is_dynamic_json(file, value)
                    && !definition_io_value_matches_type(value, text) {
                    let message = text3("definition output value must match type '", text, "'");
                    report_type(
                        file,
                        output_pointer,
                        "value",
                        value.span,
                        message.as_str(),
                        diagnostics,
                    );
                }
            }
        },
        None => {
            report_missing(
                file,
                output_pointer,
                "value",
                output.span,
                "definition output is missing required field 'value'",
                diagnostics,
            );
        },
    }
}

/// What is wrong with one output declaration.
pub open spec fn output_findings(
    output: &Node,
    output_pointer: Seq<char>,
    file: &Document,
) -> Seq<Finding> {
    match field(output, "type"@) {
        Some(declared) => match type_text(file, &declared) {
            Some(kind) => (if one_of(kind, parameter_type_names()) {
                Seq::empty()
            } else {
                wrong_value(
                    file,
                    output_pointer,
                    "type"@,
                    declared.span,
                    "definition output type '"@ + kind + "' is not supported"@,
                )
            }) + output_value_findings(output, output_pointer, Some(kind), file) + string_findings(
                output,
                output_pointer,
                "description"@,
                "definition output description"@,
                file,
            ) + description_length_findings(output, output_pointer, "definition output"@, file),
            None => if is_opaque(file, &declared) {
                output_value_findings(output, output_pointer, None, file)
                    + string_findings(
                        output,
                        output_pointer,
                        "description"@,
                        "definition output description"@,
                        file,
                    )
                    + description_length_findings(
                        output,
                        output_pointer,
                        "definition output"@,
                        file,
                    )
            } else {
                wrong_type(
                    file,
                    output_pointer,
                    "type"@,
                    declared.span,
                    "definition output type must be a string"@,
                )
            },
        },
        None => missing(
            file,
            output_pointer,
            "type"@,
            output.span,
            "definition output is missing required field 'type'"@,
        ),
    }
}

/// Validate one output declaration.
fn validate_output(
    output: &Node,
    output_pointer: &str,
    file: &Document,
    diagnostics: &mut Vec<Diagnostic>,
)
    ensures
        findings(final(diagnostics)@) == findings(old(diagnostics)@)
            + output_findings(output, output_pointer@, file),
{
    match get(output, "type") {
        Some(declared) => {
            match definition_entry_type_text(file, declared) {
                Some(kind) => {
                    if !in_list(kind, parameter_type_list().as_slice()) {
                        let message = text3("definition output type '", kind, "' is not supported");
                        report_value(
                            file,
                            output_pointer,
                            "type",
                            declared.span,
                            message.as_str(),
                            diagnostics,
                        );
                    }
                    validate_output_value(output, output_pointer, Some(kind), file, diagnostics);
                    validate_optional_string_field(
                        output,
                        output_pointer,
                        "description",
                        "definition output description",
                        file,
                        diagnostics,
                    );
                    validate_optional_description_length(
                        output,
                        output_pointer,
                        "definition output",
                        file,
                        diagnostics,
                    );
                },
                None => {
                    if is_opaque_arm_expression(file, declared) {
                        validate_output_value(output, output_pointer, None, file, diagnostics);
                        validate_optional_string_field(
                            output,
                            output_pointer,
                            "description",
                            "definition output description",
                            file,
                            diagnostics,
                        );
                        validate_optional_description_length(
                            output,
                            output_pointer,
                            "definition output",
                            file,
                            diagnostics,
                        );
                    } else {
                        report_type(
                            file,
                            output_pointer,
                            "type",
                            declared.span,
                            "definition output type must be a string",
                            diagnostics,
                        );
                    }
                },
            }
        },
        None => {
            report_missing(
                file,
                output_pointer,
                "type",
                output.span,
                "definition output is missing required field 'type'",
                diagnostics,
            );
        },
    }
}

/// What is wrong with the first `n` of the outputs of a definition.
pub open spec fn output_list_findings(
    members: Seq<Member>,
    n: nat,
    base: Seq<char>,
    file: &Document,
) -> Seq<Finding>
    decreases n,
{
    if n == 0 {
        Seq::empty()
    } else {
        let item = members[n - 1].value;
        let name = members[n - 1].name@;
        output_list_findings(members, (n - 1) as nat, base, file) + (if is_skipped(file, &item) {
            Seq::empty()
        } else {
            if item.kind is Object {
                output_findings(&item, joined(base, name), file)
            } else {
                wrong_type(
                    file,
                    base,
                    name,
                    item.span,
                    "definition output entries must be objects"@,
                )
            }
        })
    }
}

fn validate_output_list(
    members: &Vec<Member>,
    base: &str,
    file: &Document,
    diagnostics: &mut Vec<Diagnostic>,
)
    ensures
        findings(final(diagnostics)@) == findings(old(diagnostics)@)
            + output_list_findings(members@, members@.len(), base@, file),
{
    let ghost before = findings(diagnostics@);
    let mut i: usize = 0;
    while i < members.len()
        invariant
            i <= members.len(),
            findings(diagnostics@) == before
                + output_list_findings(members@, i as nat, base@, file),
        decreases members.len() - i,
    {
        let item = &members[i].value;
        let name = members[i].name.as_str();
        if !skipped(file, item) {
            if item.is_object() {
                let pointer = pointer_join(base, name);
                validate_output(item, pointer.as_str(), file, diagnostics);
            } else {
                report_type(
                    file,
                    base,
                    name,
                    item.span,
                    "definition output entries must be objects",
                    diagnostics,
                );
            }
        }
        i += 1;
    }
}

/// What is wrong with the `outputs` of a definition.
pub open spec fn outputs_findings(
    outputs: &Node,
    outputs_pointer: Seq<char>,
    file: &Document,
) -> Seq<Finding> {
    match outputs.kind {
        Json::Object(members) => output_list_findings(
            members@,
            members@.len(),
            outputs_pointer,
            file,
        ),
        _ => Seq::empty(),
    }
}

/// Validate the `outputs` of a definition.
pub fn validate_definition_outputs(
    outputs: &Node,
    outputs_pointer: &str,
    file: &Document,
    diagnostics: &mut Vec<Diagnostic>,
)
    ensures
        findings(final(diagnostics)@) == findings(old(diagnostics)@)
            + outputs_findings(outputs, outputs_pointer@, file),
{
    if let Some(members) = as_object(outputs) {
        validate_output_list(members, outputs_pointer, file, diagnostics);
    }
}
} // verus!
