//! `runtimeConfiguration.secureData`.
//!
//! Masking of inputs and outputs is supported by some operation types only.
//! Property names compare whatever their case.

use vstd::prelude::*;

use crate::arm::ArmScope;
use crate::diagnostic::{findings, Diagnostic, Finding};
use crate::json::{
    as_array, as_string, field, get, get_string, joined, pointer_join, text_field, text_of,
    Document, Json, Node,
};
use crate::shape::arm_boundary::{
    arm_optional_property_absent, checked, get_checked, get_present, is_absent, is_opaque,
    is_opaque_arm_expression, may_yield_array, present,
    arm_array_expression_from_spanned,
};
use crate::shape::node_type::{type_is, type_is_one_of, node_type_is, node_type_is_one_of};
use crate::shape::report::{
    issue, missing, report, report_context, report_missing, report_type, report_value,
    wrong_context, wrong_type, wrong_value,
};
use crate::text::{
    decimal, decimal_of_usize, eq_ignoring_case, in_list_ignoring_case, names,
    one_of_ignoring_case, same_ignoring_case, text2, text4, text5, text_eq,
};

verus! {

broadcast use crate::diagnostic::group_findings;

pub open spec fn insecure_input_type_names() -> Seq<Seq<char>> {
    seq![
        "AppendToArrayVariable"@,
        "AppendToStringVariable"@,
        "DecrementVariable"@,
        "Foreach"@,
        "If"@,
        "IncrementVariable"@,
        "InitializeVariable"@,
        "Scope"@,
        "SetVariable"@,
        "Switch"@,
        "Terminate"@,
        "Until"@,
    ]
}

fn insecure_input_type_list() -> (list: Vec<&'static str>)
    ensures
        names(list@) == insecure_input_type_names(),
{
    let list = vec![
        "AppendToArrayVariable",
        "AppendToStringVariable",
        "DecrementVariable",
        "Foreach",
        "If",
        "IncrementVariable",
        "InitializeVariable",
        "Scope",
        "SetVariable",
        "Switch",
        "Terminate",
        "Until",
    ];
    assert(names(list@) =~= insecure_input_type_names());
    list
}

pub open spec fn insecure_output_type_names() -> Seq<Seq<char>> {
    seq![
        "AppendToArrayVariable"@,
        "AppendToStringVariable"@,
        "Compose"@,
        "DecrementVariable"@,
        "Foreach"@,
        "If"@,
        "IncrementVariable"@,
        "InitializeVariable"@,
        "ParseJson"@,
        "Response"@,
        "Scope"@,
        "SetVariable"@,
        "Switch"@,
        "Terminate"@,
        "Until"@,
        "Wait"@,
    ]
}

fn insecure_output_type_list() -> (list: Vec<&'static str>)
    ensures
        names(list@) == insecure_output_type_names(),
{
    let list = vec![
        "AppendToArrayVariable",
        "AppendToStringVariable",
        "Compose",
        "DecrementVariable",
        "Foreach",
        "If",
        "IncrementVariable",
        "InitializeVariable",
        "ParseJson",
        "Response",
        "Scope",
        "SetVariable",
        "Switch",
        "Terminate",
        "Until",
        "Wait",
    ];
    assert(names(list@) =~= insecure_output_type_names());
    list
}

pub open spec fn secure_property_names() -> Seq<Seq<char>> {
    seq!["inputs"@, "outputs"@]
}

fn secure_property_list() -> (list: Vec<&'static str>)
    ensures
        names(list@) == secure_property_names(),
{
    let list = vec!["inputs", "outputs"];
    assert(names(list@) =~= secure_property_names());
    list
}

/// The type of the operation cannot mask the property.
pub open spec fn cannot_secure(operation: &Node, label: Seq<char>, property: Seq<char>) -> bool {
    &&& label != "trigger"@
    &&& if same_ignoring_case(property, "inputs"@) {
        type_is_one_of(operation, insecure_input_type_names())
    } else {
        same_ignoring_case(property, "outputs"@)
            && type_is_one_of(operation, insecure_output_type_names())
    }
}

fn secure_data_property_unsupported(operation: &Node, label: &str, property: &str) -> (holds: bool)
    ensures
        holds == cannot_secure(operation, label@, property@),
{
    if text_eq(label, "trigger") {
        return false;
    }
    if eq_ignoring_case(property, "inputs") {
        return node_type_is_one_of(operation, insecure_input_type_list().as_slice());
    }
    eq_ignoring_case(property, "outputs")
        && node_type_is_one_of(operation, insecure_output_type_list().as_slice())
}

/// How a message names the operation: by its type, or else by its label.
pub open spec fn operation_name(operation: &Node, label: Seq<char>) -> Seq<char> {
    match text_field(operation, "type"@) {
        Some(kind) => kind,
        None => label,
    }
}

/// What is wrong with the first `n` of the properties to mask.
pub open spec fn secure_property_findings(
    items: Seq<Node>,
    n: nat,
    base: Seq<char>,
    operation: &Node,
    known: bool,
    label: Seq<char>,
    file: &Document,
) -> Seq<Finding>
    decreases n,
{
    if n == 0 {
        Seq::empty()
    } else {
        let item = items[n - 1];
        let index = decimal(n - 1);
        secure_property_findings(items, (n - 1) as nat, base, operation, known, label, file)
            + (if is_opaque(file, &item) {
            Seq::empty()
        } else {
            match text_of(&item) {
                Some(text) => (if one_of_ignoring_case(text, secure_property_names()) {
                    Seq::empty()
                } else {
                    wrong_value(
                        file,
                        base,
                        index,
                        item.span,
                        label
                            + " runtimeConfiguration.secureData property '"@
                            + text
                            + "' is not supported"@,
                    )
                }) + (if known && cannot_secure(operation, label, text) {
                    wrong_context(
                        file,
                        base,
                        index,
                        item.span,
                        operation_name(operation, label)
                            + " "@
                            + label
                            + " runtimeConfiguration.secureData does not support secure "@
                            + text,
                    )
                } else {
                    Seq::empty()
                }),
                None => wrong_type(
                    file,
                    base,
                    index,
                    item.span,
                    label + " runtimeConfiguration.secureData.properties entries must be strings"@,
                ),
            }
        })
    }
}

fn validate_secure_properties(
    items: &Vec<Node>,
    base: &str,
    operation: &Node,
    known: bool,
    label: &str,
    file: &Document,
    diagnostics: &mut Vec<Diagnostic>,
)
    ensures
        findings(final(diagnostics)@) == findings(old(diagnostics)@)
            + secure_property_findings(items@, items@.len(), base@, operation, known, label@, file),
{
    let ghost before = findings(diagnostics@);
    let mut i: usize = 0;
    while i < items.len()
        invariant
            i <= items.len(),
            findings(diagnostics@) == before
                + secure_property_findings(items@, i as nat, base@, operation, known, label@, file),
        decreases items.len() - i,
    {
        let item = &items[i];
        let index_text = decimal_of_usize(i);
        let index = index_text.as_str();
        if !is_opaque_arm_expression(file, item) {
            match as_string(item) {
                Some(text) => {
                    if !in_list_ignoring_case(text, secure_property_list().as_slice()) {
                        let message = text4(
                            label,
                            " runtimeConfiguration.secureData property '",
                            text,
                            "' is not supported",
                        );
                        report_value(file, base, index, item.span, message.as_str(), diagnostics);
                    }
                    if known && secure_data_property_unsupported(operation, label, text) {
                        let message = text5(
                            match get_string(
                                operation,
                                "type",
                            ) { Some(kind) => kind, None => label },
                            " ",
                            label,
                            " runtimeConfiguration.secureData does not support secure ",
                            text,
                        );
                        report_context(file, base, index, item.span, message.as_str(), diagnostics);
                    }
                },
                None => {
                    let message = text2(
                        label,
                        " runtimeConfiguration.secureData.properties entries must be strings",
                    );
                    report_type(file, base, index, item.span, message.as_str(), diagnostics);
                },
            }
        }
        i += 1;
    }
}

/// What is wrong with the required list of properties to mask.
pub open spec fn secure_properties_findings(
    secure: &Node,
    secure_pointer: Seq<char>,
    operation: &Node,
    known: bool,
    label: Seq<char>,
    file: &Document,
    scope: &ArmScope,
) -> Seq<Finding> {
    match field(secure, "properties"@) {
        Some(properties) => if is_absent(file, &properties) {
            missing(
                file,
                secure_pointer,
                "properties"@,
                properties.span,
                label + " runtimeConfiguration.secureData is missing required field 'properties'"@,
            )
        } else {
            if may_yield_array(file, &properties, scope) {
                Seq::empty()
            } else {
                match properties.kind {
                    Json::Array(items) => secure_property_findings(
                        items@,
                        items@.len(),
                        joined(secure_pointer, "properties"@),
                        operation,
                        known,
                        label,
                        file,
                    ),
                    _ => wrong_type(
                        file,
                        secure_pointer,
                        "properties"@,
                        properties.span,
                        label + " runtimeConfiguration.secureData.properties must be an array"@,
                    ),
                }
            }
        },
        None => missing(
            file,
            secure_pointer,
            "properties"@,
            secure.span,
            label + " runtimeConfiguration.secureData is missing required field 'properties'"@,
        ),
    }
}

/// Validate the required list of properties to mask.
fn validate_secure_data_properties(
    secure: &Node,
    secure_pointer: &str,
    operation: &Node,
    known: bool,
    label: &str,
    file: &Document,
    scope: &ArmScope,
    diagnostics: &mut Vec<Diagnostic>,
)
    ensures
        findings(final(diagnostics)@) == findings(old(diagnostics)@)
            + secure_properties_findings(
                secure,
                secure_pointer@,
                operation,
                known,
                label@,
                file,
                scope,
            ),
{
    match get(secure, "properties") {
        Some(properties) => {
            if arm_optional_property_absent(file, properties) {
                let message = text2(
                    label,
                    " runtimeConfiguration.secureData is missing required field 'properties'",
                );
                report_missing(
                    file,
                    secure_pointer,
                    "properties",
                    properties.span,
                    message.as_str(),
                    diagnostics,
                );
            } else {
                if !arm_array_expression_from_spanned(file, properties, scope) {
                    match as_array(properties) {
                        Some(items) => {
                            let pointer = pointer_join(secure_pointer, "properties");
                            validate_secure_properties(
                                items,
                                pointer.as_str(),
                                operation,
                                known,
                                label,
                                file,
                                diagnostics,
                            );
                        },
                        None => {
                            let message = text2(
                                label,
                                " runtimeConfiguration.secureData.properties must be an array",
                            );
                            report_type(
                                file,
                                secure_pointer,
                                "properties",
                                properties.span,
                                message.as_str(),
                                diagnostics,
                            );
                        },
                    }
                }
            }
        },
        None => {
            let message = text2(
                label,
                " runtimeConfiguration.secureData is missing required field 'properties'",
            );
            report_missing(
                file,
                secure_pointer,
                "properties",
                secure.span,
                message.as_str(),
                diagnostics,
            );
        },
    }
}

/// What is wrong with `secureData`.
pub open spec fn secure_data_findings(
    operation: &Node,
    known: bool,
    runtime: &Node,
    pointer: Seq<char>,
    label: Seq<char>,
    file: &Document,
    scope: &ArmScope,
) -> Seq<Finding> {
    match checked(file, runtime, "secureData"@) {
        Some(secure) => {
            let secure_pointer = joined(pointer, "secureData"@);
            (if label == "trigger"@ && known && type_is(operation, "Recurrence"@) {
                issue(
                    file,
                    "workflow-shape-invalid-context"@,
                    secure_pointer,
                    Some(secure.span),
                    "Recurrence trigger runtimeConfiguration.secureData is not supported"@,
                )
            } else {
                Seq::empty()
            }) + (if secure.kind is Object {
                secure_properties_findings(
                    &secure,
                    secure_pointer,
                    operation,
                    known,
                    label,
                    file,
                    scope,
                )
            } else {
                issue(
                    file,
                    "workflow-shape-invalid-type"@,
                    secure_pointer,
                    Some(secure.span),
                    label + " runtimeConfiguration.secureData must be an object"@,
                )
            })
        },
        None => Seq::empty(),
    }
}

/// Validate `secureData`: an object with a list of properties to mask, each
/// supported by the type of the operation.
pub fn validate_runtime_secure_data(
    operation: &Node,
    known: bool,
    runtime: &Node,
    pointer: &str,
    label: &str,
    file: &Document,
    scope: &ArmScope,
    diagnostics: &mut Vec<Diagnostic>,
)
    ensures
        findings(final(diagnostics)@) == findings(old(diagnostics)@)
            + secure_data_findings(operation, known, runtime, pointer@, label@, file, scope),
{
    if let Some(secure) = get_checked(file, runtime, "secureData") {
        let secure_pointer_text = pointer_join(pointer, "secureData");
        let secure_pointer = secure_pointer_text.as_str();
        if text_eq(label, "trigger") && known && node_type_is(operation, "Recurrence") {
            report(
                file,
                "workflow-shape-invalid-context",
                secure_pointer,
                Some(secure.span),
                "Recurrence trigger runtimeConfiguration.secureData is not supported",
                diagnostics,
            );
        }
        if secure.is_object() {
            validate_secure_data_properties(
                secure,
                secure_pointer,
                operation,
                known,
                label,
                file,
                scope,
                diagnostics,
            );
        } else {
            let message = text2(label, " runtimeConfiguration.secureData must be an object");
            report(
                file,
                "workflow-shape-invalid-type",
                secure_pointer,
                Some(secure.span),
                message.as_str(),
                diagnostics,
            );
        }
    }
}

pub open spec fn names_secure_property(value: &Node) -> bool {
    match text_of(value) {
        Some(text) => one_of_ignoring_case(text, secure_property_names()),
        None => false,
    }
}

pub open spec fn some_secure_property(items: Seq<Node>) -> bool {
    exists|i: int| 0 <= i < items.len() && #[trigger] names_secure_property(&items[i])
}

/// The operation asks for its inputs or outputs to be masked.
pub open spec fn has_secure_data(file: &Document, operation: &Node) -> bool {
    match field(operation, "runtimeConfiguration"@) {
        Some(runtime) => match checked(file, &runtime, "secureData"@) {
            Some(secure) => match present(file, &secure, "properties"@) {
                Some(properties) => match properties.kind {
                    Json::Array(items) => some_secure_property(items@),
                    _ => false,
                },
                None => false,
            },
            None => false,
        },
        None => false,
    }
}

fn any_secure_property(items: &Vec<Node>) -> (holds: bool)
    ensures
        holds == some_secure_property(items@),
{
    let mut i: usize = 0;
    while i < items.len()
        invariant
            i <= items.len(),
            forall|j: int| 0 <= j < i ==> !#[trigger] names_secure_property(&items@[j]),
        decreases items.len() - i,
    {
        let named = match as_string(&items[i]) {
            Some(text) => in_list_ignoring_case(text, secure_property_list().as_slice()),
            None => false,
        };
        if named {
            assert(names_secure_property(&items@[i as int]));
            return true;
        }
        i += 1;
    }
    false
}

/// Does this operation ask for any masking?
pub fn operation_has_secure_data(file: &Document, operation: &Node) -> (holds: bool)
    ensures
        holds == has_secure_data(file, operation),
{
    match get(operation, "runtimeConfiguration") {
        Some(runtime) => match get_checked(file, runtime, "secureData") {
            Some(secure) => match get_present(file, secure, "properties") {
                Some(properties) => match as_array(properties) {
                    Some(items) => any_secure_property(items),
                    None => false,
                },
                None => false,
            },
            None => false,
        },
        None => false,
    }
}
} // verus!
