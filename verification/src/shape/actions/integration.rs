//! Shape validators for integration actions: `Batch`, `SendToBatch`, flat files,
//! `Liquid`, `IntegrationAccountArtifactLookup`, `XmlValidation`, `Xslt` and
//! `Workflow`.

use vstd::prelude::*;

use crate::diagnostic::{findings, Diagnostic, Finding};
use crate::json::{
    as_object, field, get, get_string, joined, pointer_join, text_field, Document, Json, Member,
    Node, Number,
};
use crate::shape::arm_boundary::{
    authored, checked, get_authored, get_checked, get_present, is_opaque, is_opaque_arm_expression,
    present,
};
use crate::shape::field_validators::{
    enum_findings, kind_findings, object_findings, positive_integer_findings, string_findings,
    validate_optional_kind, validate_optional_object_field, validate_optional_positive_integer,
    validate_optional_string_enum, validate_optional_string_field,
};
use crate::shape::http::{
    bounds_of, http_inputs_findings, validate_http_inputs, RetryPolicyIntervalBounds,
};
use crate::shape::numbers::{integer_of, integer_value};
use crate::shape::report::{report_type, report_value, wrong_type, wrong_value};
use crate::shape::required_fields::{
    inputs_findings, inputs_of, object_field_findings, require_object_field, require_typed_field,
    required_inputs_object, typed_field_findings, Shape,
};
use crate::shape::triggers::recurrence::{
    optional_recurrence_findings, validate_optional_recurrence,
};
use crate::text::{decimal, decimal_of_i64, names, text3, text_eq};
use crate::workflow::Workflow;

verus! {

broadcast use crate::diagnostic::group_findings;

pub open spec fn empty_node_mode_names() -> Seq<Seq<char>> {
    seq!["ForcedDisabled"@, "ForcedEnabled"@, "HonorSchemaNodeProperty"@]
}

fn empty_node_mode_list() -> (list: Vec<&'static str>)
    ensures
        names(list@) == empty_node_mode_names(),
{
    let list = vec!["ForcedDisabled", "ForcedEnabled", "HonorSchemaNodeProperty"];
    assert(names(list@) =~= empty_node_mode_names());
    list
}

pub open spec fn batch_mode_names() -> Seq<Seq<char>> {
    seq!["Inline"@, "IntegrationAccount"@]
}

fn batch_mode_list() -> (list: Vec<&'static str>)
    ensures
        names(list@) == batch_mode_names(),
{
    let list = vec!["Inline", "IntegrationAccount"];
    assert(names(list@) =~= batch_mode_names());
    list
}

pub open spec fn artifact_type_names() -> Seq<Seq<char>> {
    seq!["Agreement"@, "Map"@, "Partner"@, "Schema"@]
}

fn artifact_type_list() -> (list: Vec<&'static str>)
    ensures
        names(list@) == artifact_type_names(),
{
    let list = vec!["Agreement", "Map", "Partner", "Schema"];
    assert(names(list@) =~= artifact_type_names());
    list
}

pub open spec fn liquid_kind_names() -> Seq<Seq<char>> {
    seq!["JsonToJson"@, "JsonToText"@, "XmlToJson"@, "XmlToText"@]
}

fn liquid_kind_list() -> (list: Vec<&'static str>)
    ensures
        names(list@) == liquid_kind_names(),
{
    let list = vec!["JsonToJson", "JsonToText", "XmlToJson", "XmlToText"];
    assert(names(list@) =~= liquid_kind_names());
    list
}

/// What is wrong with the host that a batch is sent to.
pub open spec fn batch_host_findings(
    inputs: &Node,
    inputs_pointer: Seq<char>,
    file: &Document,
) -> Seq<Finding> {
    match field(inputs, "host"@) {
        Some(host) => if host.kind is Object {
            let host_pointer = joined(inputs_pointer, "host"@);
            typed_field_findings(
                &host,
                host_pointer,
                "triggerName"@,
                "SendToBatch inputs.host.triggerName must be a string"@,
                Shape::Text,
                file,
            )
                + object_field_findings(&host, host_pointer, "workflow"@, file)
                + (match field(&host, "workflow"@) {
                Some(target) => if target.kind is Object {
                    let target_pointer = joined(host_pointer, "workflow"@);
                    typed_field_findings(
                        &target,
                        target_pointer,
                        "id"@,
                        "SendToBatch inputs.host.workflow.id must be a string"@,
                        Shape::Text,
                        file,
                    )
                } else {
                    Seq::empty()
                },
                None => Seq::empty(),
            })
        } else {
            Seq::empty()
        },
        None => Seq::empty(),
    }
}

/// Validate the host that a batch is sent to.
fn validate_batch_host(
    inputs: &Node,
    inputs_pointer: &str,
    file: &Document,
    diagnostics: &mut Vec<Diagnostic>,
)
    ensures
        findings(final(diagnostics)@) == findings(old(diagnostics)@)
            + batch_host_findings(inputs, inputs_pointer@, file),
{
    if let Some(host) = get(inputs, "host") {
        if host.is_object() {
            let host_pointer_text = pointer_join(inputs_pointer, "host");
            let host_pointer = host_pointer_text.as_str();
            require_typed_field(
                host,
                host_pointer,
                "triggerName",
                "SendToBatch inputs.host.triggerName must be a string",
                Shape::Text,
                file,
                diagnostics,
            );
            require_object_field(host, host_pointer, "workflow", file, diagnostics);
            if let Some(target) = get(host, "workflow") {
                if target.is_object() {
                    let target_pointer_text = pointer_join(host_pointer, "workflow");
                    let target_pointer = target_pointer_text.as_str();
                    require_typed_field(
                        target,
                        target_pointer,
                        "id",
                        "SendToBatch inputs.host.workflow.id must be a string",
                        Shape::Text,
                        file,
                        diagnostics,
                    );
                }
            }
        }
    }
}

/// What is wrong with the inputs of a `SendToBatch` action.
pub open spec fn send_to_batch_action_inputs_findings(
    inputs: &Node,
    inputs_pointer: Seq<char>,
    file: &Document,
) -> Seq<Finding> {
    object_field_findings(inputs, inputs_pointer, "host"@, file)
        + batch_host_findings(inputs, inputs_pointer, file)
        + typed_field_findings(
            inputs,
            inputs_pointer,
            "batchName"@,
            "SendToBatch inputs.batchName must be a string"@,
            Shape::Text,
            file,
        )
        + typed_field_findings(
            inputs,
            inputs_pointer,
            "content"@,
            "SendToBatch inputs.content must be present"@,
            Shape::Any,
            file,
        )
        + string_findings(
            inputs,
            inputs_pointer,
            "partitionName"@,
            "SendToBatch inputs.partitionName"@,
            file,
        )
        + string_findings(
            inputs,
            inputs_pointer,
            "messageId"@,
            "SendToBatch inputs.messageId"@,
            file,
        )
}

/// Validate the inputs of a `SendToBatch` action.
pub fn validate_send_to_batch_action_inputs(
    inputs: &Node,
    inputs_pointer: &str,
    file: &Document,
    diagnostics: &mut Vec<Diagnostic>,
)
    ensures
        findings(final(diagnostics)@) == findings(old(diagnostics)@)
            + send_to_batch_action_inputs_findings(inputs, inputs_pointer@, file),
{
    require_object_field(inputs, inputs_pointer, "host", file, diagnostics);
    validate_batch_host(inputs, inputs_pointer, file, diagnostics);
    require_typed_field(
        inputs,
        inputs_pointer,
        "batchName",
        "SendToBatch inputs.batchName must be a string",
        Shape::Text,
        file,
        diagnostics,
    );
    require_typed_field(
        inputs,
        inputs_pointer,
        "content",
        "SendToBatch inputs.content must be present",
        Shape::Any,
        file,
        diagnostics,
    );
    validate_optional_string_field(
        inputs,
        inputs_pointer,
        "partitionName",
        "SendToBatch inputs.partitionName",
        file,
        diagnostics,
    );
    validate_optional_string_field(
        inputs,
        inputs_pointer,
        "messageId",
        "SendToBatch inputs.messageId",
        file,
        diagnostics,
    );
}

/// What is wrong with a `SendToBatch` action.
pub open spec fn send_to_batch_action_findings(
    action: &Node,
    action_pointer: Seq<char>,
    file: &Document,
) -> Seq<Finding> {
    inputs_findings(action, action_pointer, file) + match inputs_of(action, file) {
        Some(inputs) => {
            let inputs_pointer = joined(action_pointer, "inputs"@);
            send_to_batch_action_inputs_findings(&inputs, inputs_pointer, file)
        },
        None => Seq::empty(),
    }
}

/// Validate a `SendToBatch` action, which names a receiving workflow and its trigger.
pub fn validate_send_to_batch_action(
    action: &Node,
    action_pointer: &str,
    file: &Document,
    diagnostics: &mut Vec<Diagnostic>,
)
    ensures
        findings(final(diagnostics)@) == findings(old(diagnostics)@)
            + send_to_batch_action_findings(action, action_pointer@, file),
{
    if let Some(inputs) = required_inputs_object(action, action_pointer, file, diagnostics) {
        let inputs_pointer_text = pointer_join(action_pointer, "inputs");
        let inputs_pointer = inputs_pointer_text.as_str();
        validate_send_to_batch_action_inputs(inputs, inputs_pointer, file, diagnostics);
    }
}

/// What is wrong with the mode of a batch.
pub open spec fn batch_mode_findings(
    inputs: &Node,
    inputs_pointer: Seq<char>,
    file: &Document,
) -> Seq<Finding> {
    enum_findings(inputs, inputs_pointer, "mode"@, "Batch inputs.mode"@, batch_mode_names(), file)
}

/// Validate the mode of a batch.
pub fn validate_batch_mode(
    inputs: &Node,
    inputs_pointer: &str,
    file: &Document,
    diagnostics: &mut Vec<Diagnostic>,
)
    ensures
        findings(final(diagnostics)@) == findings(old(diagnostics)@)
            + batch_mode_findings(inputs, inputs_pointer@, file),
{
    validate_optional_string_enum(
        inputs,
        inputs_pointer,
        "mode",
        "Batch inputs.mode",
        batch_mode_list().as_slice(),
        file,
        diagnostics,
    );
}

fn frequency_is_second(recurrence: &Node) -> (holds: bool)
    ensures
        holds == (text_field(recurrence, "frequency"@) == Some("Second"@)),
{
    match get_string(recurrence, "frequency") {
        Some(text) => text_eq(text, "Second"),
        None => false,
    }
}

/// What is wrong with the limits of release criteria.
pub open spec fn criteria_limit_findings(
    criteria: &Node,
    criteria_pointer: Seq<char>,
    file: &Document,
) -> Seq<Finding> {
    (match authored(file, criteria, "messageCount"@) {
        Some(value) => match integer_of(&value) {
            Some(number) => if number > 8000 {
                wrong_value(
                    file,
                    criteria_pointer,
                    "messageCount"@,
                    value.span,
                    "Batch inputs.releaseCriteria.messageCount value "@
                        + decimal(number)
                        + " exceeds maximum 8000"@,
                )
            } else {
                Seq::empty()
            },
            None => Seq::empty(),
        },
        None => Seq::empty(),
    }) + (match authored(file, criteria, "batchSize"@) {
        Some(value) => match integer_of(&value) {
            Some(number) => if number > 83886080 {
                wrong_value(
                    file,
                    criteria_pointer,
                    "batchSize"@,
                    value.span,
                    "Batch inputs.releaseCriteria.batchSize value "@
                        + decimal(number)
                        + " exceeds maximum 83886080"@,
                )
            } else {
                Seq::empty()
            },
            None => Seq::empty(),
        },
        None => Seq::empty(),
    })
}

/// Validate the limits of release criteria: 8000 messages, 83886080 bytes, and
/// one release a minute.
fn validate_criteria_limits(
    criteria: &Node,
    criteria_pointer: &str,
    file: &Document,
    diagnostics: &mut Vec<Diagnostic>,
)
    ensures
        findings(final(diagnostics)@) == findings(old(diagnostics)@)
            + criteria_limit_findings(criteria, criteria_pointer@, file),
{
    if let Some(value) = get_authored(file, criteria, "messageCount") {
        if let Some(number) = integer_value(value) {
            if number > 8000 {
                let message = text3(
                    "Batch inputs.releaseCriteria.messageCount value ",
                    decimal_of_i64(number).as_str(),
                    " exceeds maximum 8000",
                );
                report_value(
                    file,
                    criteria_pointer,
                    "messageCount",
                    value.span,
                    message.as_str(),
                    diagnostics,
                );
            }
        }
    }
    if let Some(value) = get_authored(file, criteria, "batchSize") {
        if let Some(number) = integer_value(value) {
            if number > 83886080 {
                let message = text3(
                    "Batch inputs.releaseCriteria.batchSize value ",
                    decimal_of_i64(number).as_str(),
                    " exceeds maximum 83886080",
                );
                report_value(
                    file,
                    criteria_pointer,
                    "batchSize",
                    value.span,
                    message.as_str(),
                    diagnostics,
                );
            }
        }
    }
}

/// What is wrong with how often release criteria may fire.
pub open spec fn criteria_pace_findings(
    criteria: &Node,
    criteria_pointer: Seq<char>,
    file: &Document,
) -> Seq<Finding> {
    match authored(file, criteria, "recurrence"@) {
        Some(recurrence) => if recurrence.kind is Object
            && text_field(&recurrence, "frequency"@) == Some("Second"@) {
            match authored(file, &recurrence, "interval"@) {
                Some(interval) => match integer_of(&interval) {
                    Some(number) => if number < 60 {
                        let recurrence_pointer = joined(criteria_pointer, "recurrence"@);
                        wrong_value(
                            file,
                            recurrence_pointer,
                            "interval"@,
                            interval.span,
                            "Batch inputs.releaseCriteria.recurrence interval must be at least 60 seconds"@,
                        )
                    } else {
                        Seq::empty()
                    },
                    None => Seq::empty(),
                },
                None => Seq::empty(),
            }
        } else {
            Seq::empty()
        },
        None => Seq::empty(),
    }
}

/// Validate how often release criteria may fire.
fn validate_criteria_pace(
    criteria: &Node,
    criteria_pointer: &str,
    file: &Document,
    diagnostics: &mut Vec<Diagnostic>,
)
    ensures
        findings(final(diagnostics)@) == findings(old(diagnostics)@)
            + criteria_pace_findings(criteria, criteria_pointer@, file),
{
    if let Some(recurrence) = get_authored(file, criteria, "recurrence") {
        if recurrence.is_object() && frequency_is_second(recurrence) {
            if let Some(interval) = get_authored(file, recurrence, "interval") {
                if let Some(number) = integer_value(interval) {
                    if number < 60 {
                        let recurrence_pointer_text = pointer_join(criteria_pointer, "recurrence");
                        let recurrence_pointer = recurrence_pointer_text.as_str();

                        report_value(
                            file,
                            recurrence_pointer,
                            "interval",
                            interval.span,
                            "Batch inputs.releaseCriteria.recurrence interval must be at least 60 seconds",
                            diagnostics,
                        );
                    }
                }
            }
        }
    }
}

/// What is wrong with release criteria.
pub open spec fn criteria_findings(
    criteria: &Node,
    criteria_pointer: Seq<char>,
    file: &Document,
) -> Seq<Finding> {
    positive_integer_findings(
        criteria,
        criteria_pointer,
        "batchSize"@,
        "Batch inputs.releaseCriteria.batchSize"@,
        file,
    )
        + positive_integer_findings(
            criteria,
            criteria_pointer,
            "messageCount"@,
            "Batch inputs.releaseCriteria.messageCount"@,
            file,
        )
        + criteria_limit_findings(criteria, criteria_pointer, file)
        + optional_recurrence_findings(
            criteria,
            field(criteria, "recurrence"@),
            criteria_pointer,
            file,
        )
        + criteria_pace_findings(criteria, criteria_pointer, file)
}

/// Validate release criteria.
fn validate_criteria(
    criteria: &Node,
    criteria_pointer: &str,
    file: &Document,
    diagnostics: &mut Vec<Diagnostic>,
)
    ensures
        findings(final(diagnostics)@) == findings(old(diagnostics)@)
            + criteria_findings(criteria, criteria_pointer@, file),
{
    validate_optional_positive_integer(
        criteria,
        criteria_pointer,
        "batchSize",
        "Batch inputs.releaseCriteria.batchSize",
        file,
        diagnostics,
    );
    validate_optional_positive_integer(
        criteria,
        criteria_pointer,
        "messageCount",
        "Batch inputs.releaseCriteria.messageCount",
        file,
        diagnostics,
    );
    validate_criteria_limits(criteria, criteria_pointer, file, diagnostics);
    validate_optional_recurrence(
        criteria,
        get(criteria, "recurrence"),
        criteria_pointer,
        file,
        diagnostics,
    );
    validate_criteria_pace(criteria, criteria_pointer, file, diagnostics);
}

/// What is wrong with the release criteria of a batch.
pub open spec fn release_criteria_findings(
    inputs: &Node,
    inputs_pointer: Seq<char>,
    file: &Document,
) -> Seq<Finding> {
    match checked(file, inputs, "releaseCriteria"@) {
        Some(criteria) => if criteria.kind is Object {
            criteria_findings(&criteria, joined(inputs_pointer, "releaseCriteria"@), file)
        } else {
            wrong_type(
                file,
                inputs_pointer,
                "releaseCriteria"@,
                criteria.span,
                "Batch inputs.releaseCriteria must be an object"@,
            )
        },
        None => Seq::empty(),
    }
}

/// Validate the release criteria of a batch.
fn validate_batch_release_criteria(
    inputs: &Node,
    inputs_pointer: &str,
    file: &Document,
    diagnostics: &mut Vec<Diagnostic>,
)
    ensures
        findings(final(diagnostics)@) == findings(old(diagnostics)@)
            + release_criteria_findings(inputs, inputs_pointer@, file),
{
    if let Some(criteria) = get_checked(file, inputs, "releaseCriteria") {
        if criteria.is_object() {
            let pointer = pointer_join(inputs_pointer, "releaseCriteria");
            validate_criteria(criteria, pointer.as_str(), file, diagnostics);
        } else {
            report_type(
                file,
                inputs_pointer,
                "releaseCriteria",
                criteria.span,
                "Batch inputs.releaseCriteria must be an object",
                diagnostics,
            );
        }
    }
}

/// What is wrong with the first `n` of the configurations of a batch.
pub open spec fn configuration_findings(
    members: Seq<Member>,
    n: nat,
    base: Seq<char>,
    file: &Document,
) -> Seq<Finding>
    decreases n,
{
    if n == 0 {
        Seq::empty()
    } else {
        let item = members[n - 1].value;
        let name = members[n - 1].name@;
        configuration_findings(members, (n - 1) as nat, base, file) + (if is_opaque(file, &item) {
            Seq::empty()
        } else {
            if item.kind is Object {
                release_criteria_findings(&item, joined(base, name), file)
            } else {
                wrong_type(
                    file,
                    base,
                    name,
                    item.span,
                    "Batch inputs.configurations entries must be objects"@,
                )
            }
        })
    }
}

fn validate_configurations(
    members: &Vec<Member>,
    base: &str,
    file: &Document,
    diagnostics: &mut Vec<Diagnostic>,
)
    ensures
        findings(final(diagnostics)@) == findings(old(diagnostics)@)
            + configuration_findings(members@, members@.len(), base@, file),
{
    let ghost before = findings(diagnostics@);
    let mut i: usize = 0;
    while i < members.len()
        invariant
            i <= members.len(),
            findings(diagnostics@) == before
                + configuration_findings(members@, i as nat, base@, file),
        decreases members.len() - i,
    {
        let item = &members[i].value;
        let name = members[i].name.as_str();
        if !is_opaque_arm_expression(file, item) {
            if item.is_object() {
                let pointer = pointer_join(base, name);
                validate_batch_release_criteria(item, pointer.as_str(), file, diagnostics);
            } else {
                report_type(
                    file,
                    base,
                    name,
                    item.span,
                    "Batch inputs.configurations entries must be objects",
                    diagnostics,
                );
            }
        }
        i += 1;
    }
}

/// What is wrong with the configurations of a batch.
pub open spec fn batch_configurations_findings(
    inputs: &Node,
    inputs_pointer: Seq<char>,
    file: &Document,
) -> Seq<Finding> {
    match checked(file, inputs, "configurations"@) {
        Some(configurations) => match configurations.kind {
            Json::Object(members) => configuration_findings(
                members@,
                members@.len(),
                joined(inputs_pointer, "configurations"@),
                file,
            ),
            _ => wrong_type(
                file,
                inputs_pointer,
                "configurations"@,
                configurations.span,
                "Batch inputs.configurations must be an object"@,
            ),
        },
        None => Seq::empty(),
    }
}

/// Validate the configurations of a batch.
fn validate_batch_configurations(
    inputs: &Node,
    inputs_pointer: &str,
    file: &Document,
    diagnostics: &mut Vec<Diagnostic>,
)
    ensures
        findings(final(diagnostics)@) == findings(old(diagnostics)@)
            + batch_configurations_findings(inputs, inputs_pointer@, file),
{
    if let Some(configurations) = get_checked(file, inputs, "configurations") {
        match as_object(configurations) {
            Some(members) => {
                let pointer = pointer_join(inputs_pointer, "configurations");
                validate_configurations(members, pointer.as_str(), file, diagnostics);
            },
            None => {
                report_type(
                    file,
                    inputs_pointer,
                    "configurations",
                    configurations.span,
                    "Batch inputs.configurations must be an object",
                    diagnostics,
                );
            },
        }
    }
}

/// What is wrong with the inputs of a batch action or trigger.
pub open spec fn batch_inputs_findings(
    inputs: &Node,
    inputs_pointer: Seq<char>,
    file: &Document,
) -> Seq<Finding> {
    object_findings(inputs, inputs_pointer, "host"@, "Batch inputs.host"@, file)
        + string_findings(inputs, inputs_pointer, "batchName"@, "Batch inputs.batchName"@, file)
        + string_findings(
            inputs,
            inputs_pointer,
            "batchGroupName"@,
            "Batch inputs.batchGroupName"@,
            file,
        )
        + release_criteria_findings(inputs, inputs_pointer, file)
        + batch_configurations_findings(inputs, inputs_pointer, file)
        + (match authored(file, inputs, "content"@) {
        Some(content) => if content.kind is Null {
            wrong_type(
                file,
                inputs_pointer,
                "content"@,
                content.span,
                "Batch inputs.content must not be null"@,
            )
        } else {
            Seq::empty()
        },
        None => Seq::empty(),
    })
}

/// Validate the inputs of a batch action or trigger.
pub fn validate_batch_inputs(
    inputs: &Node,
    inputs_pointer: &str,
    file: &Document,
    diagnostics: &mut Vec<Diagnostic>,
)
    ensures
        findings(final(diagnostics)@) == findings(old(diagnostics)@)
            + batch_inputs_findings(inputs, inputs_pointer@, file),
{
    validate_optional_object_field(
        inputs,
        inputs_pointer,
        "host",
        "Batch inputs.host",
        file,
        diagnostics,
    );
    validate_optional_string_field(
        inputs,
        inputs_pointer,
        "batchName",
        "Batch inputs.batchName",
        file,
        diagnostics,
    );
    validate_optional_string_field(
        inputs,
        inputs_pointer,
        "batchGroupName",
        "Batch inputs.batchGroupName",
        file,
        diagnostics,
    );
    validate_batch_release_criteria(inputs, inputs_pointer, file, diagnostics);
    validate_batch_configurations(inputs, inputs_pointer, file, diagnostics);
    if let Some(content) = get_authored(file, inputs, "content") {
        if content.is_null() {
            report_type(
                file,
                inputs_pointer,
                "content",
                content.span,
                "Batch inputs.content must not be null",
                diagnostics,
            );
        }
    }
}

/// What is wrong with a `Batch` action.
pub open spec fn batch_action_findings(
    action: &Node,
    action_pointer: Seq<char>,
    file: &Document,
) -> Seq<Finding> {
    inputs_findings(action, action_pointer, file) + match inputs_of(action, file) {
        Some(inputs) => {
            let inputs_pointer = joined(action_pointer, "inputs"@);
            batch_mode_findings(&inputs, inputs_pointer, file)
                + batch_inputs_findings(&inputs, inputs_pointer, file)
        },
        None => Seq::empty(),
    }
}

/// Validate a `Batch` action.
pub fn validate_batch_action(
    action: &Node,
    action_pointer: &str,
    file: &Document,
    diagnostics: &mut Vec<Diagnostic>,
)
    ensures
        findings(final(diagnostics)@) == findings(old(diagnostics)@)
            + batch_action_findings(action, action_pointer@, file),
{
    if let Some(inputs) = required_inputs_object(action, action_pointer, file, diagnostics) {
        let inputs_pointer_text = pointer_join(action_pointer, "inputs");
        let inputs_pointer = inputs_pointer_text.as_str();
        validate_batch_mode(inputs, inputs_pointer, file, diagnostics);
        validate_batch_inputs(inputs, inputs_pointer, file, diagnostics);
    }
}

/// What is wrong with the host of a `Workflow` action.
pub open spec fn workflow_host_findings(
    host: &Node,
    host_pointer: Seq<char>,
    file: &Document,
) -> Seq<Finding> {
    typed_field_findings(
        host,
        host_pointer,
        "triggerName"@,
        "Workflow inputs.host.triggerName must be a string"@,
        Shape::Text,
        file,
    )
        + (match authored(file, host, "id"@) {
        Some(id) => if id.kind is String {
            Seq::empty()
        } else {
            wrong_type(
                file,
                host_pointer,
                "id"@,
                id.span,
                "Workflow inputs.host.id must be a string"@,
            )
        },
        None => Seq::empty(),
    }) + (if field(host, "id"@) is None {
        object_field_findings(host, host_pointer, "workflow"@, file)
    } else {
        Seq::empty()
    }) + (match authored(file, host, "workflow"@) {
        Some(target) => if target.kind is Object {
            let target_pointer = joined(host_pointer, "workflow"@);
            typed_field_findings(
                &target,
                target_pointer,
                "id"@,
                "Workflow inputs.host.workflow.id must be a string"@,
                Shape::Text,
                file,
            )
        } else {
            wrong_type(
                file,
                host_pointer,
                "workflow"@,
                target.span,
                "Workflow inputs.host.workflow must be an object"@,
            )
        },
        None => Seq::empty(),
    })
}

/// Validate the host of a `Workflow` action.
fn validate_workflow_host(
    host: &Node,
    host_pointer: &str,
    file: &Document,
    diagnostics: &mut Vec<Diagnostic>,
)
    ensures
        findings(final(diagnostics)@) == findings(old(diagnostics)@)
            + workflow_host_findings(host, host_pointer@, file),
{
    require_typed_field(
        host,
        host_pointer,
        "triggerName",
        "Workflow inputs.host.triggerName must be a string",
        Shape::Text,
        file,
        diagnostics,
    );
    if let Some(id) = get_authored(file, host, "id") {
        if !id.is_string() {
            report_type(
                file,
                host_pointer,
                "id",
                id.span,
                "Workflow inputs.host.id must be a string",
                diagnostics,
            );
        }
    }
    if get(host, "id").is_none() {
        require_object_field(host, host_pointer, "workflow", file, diagnostics);
    }
    if let Some(target) = get_authored(file, host, "workflow") {
        if target.is_object() {
            let target_pointer_text = pointer_join(host_pointer, "workflow");
            let target_pointer = target_pointer_text.as_str();
            require_typed_field(
                target,
                target_pointer,
                "id",
                "Workflow inputs.host.workflow.id must be a string",
                Shape::Text,
                file,
                diagnostics,
            );
        } else {
            report_type(
                file,
                host_pointer,
                "workflow",
                target.span,
                "Workflow inputs.host.workflow must be an object",
                diagnostics,
            );
        }
    }
}

/// The target of a `Workflow` action is written out as something other than an object.
pub open spec fn has_wrong_target(host: &Node, file: &Document) -> bool {
    match authored(file, host, "workflow"@) {
        Some(target) => !(target.kind is Object),
        None => false,
    }
}

fn target_is_wrong(host: &Node, file: &Document) -> (holds: bool)
    ensures
        holds == has_wrong_target(host, file),
{
    match get_authored(file, host, "workflow") {
        Some(target) => !target.is_object(),
        None => false,
    }
}

/// What is wrong with the inputs of a `Workflow` action.
pub open spec fn workflow_action_inputs_findings(
    inputs: &Node,
    inputs_pointer: Seq<char>,
    file: &Document,
    workflow: &Workflow,
) -> Seq<Finding> {
    object_field_findings(inputs, inputs_pointer, "host"@, file) + (match field(inputs, "host"@) {
        Some(host) => if host.kind is Object {
            workflow_host_findings(&host, joined(inputs_pointer, "host"@), file)
                + (if has_wrong_target(&host, file) {
                Seq::empty()
            } else {
                http_inputs_findings(
                    inputs,
                    inputs_pointer,
                    "Workflow inputs"@,
                    bounds_of(workflow),
                    file,
                )
            })
        } else {
            Seq::empty()
        },
        None => Seq::empty(),
    })
}

/// Validate the inputs of a `Workflow` action.
pub fn validate_workflow_action_inputs(
    inputs: &Node,
    inputs_pointer: &str,
    file: &Document,
    workflow: &Workflow,
    diagnostics: &mut Vec<Diagnostic>,
)
    ensures
        findings(final(diagnostics)@) == findings(old(diagnostics)@)
            + workflow_action_inputs_findings(inputs, inputs_pointer@, file, workflow),
{
    require_object_field(inputs, inputs_pointer, "host", file, diagnostics);
    if let Some(host) = get(inputs, "host") {
        if host.is_object() {
            let host_pointer = pointer_join(inputs_pointer, "host");
            validate_workflow_host(host, host_pointer.as_str(), file, diagnostics);
            if !target_is_wrong(host, file) {
                validate_http_inputs(
                    inputs,
                    inputs_pointer,
                    "Workflow inputs",
                    RetryPolicyIntervalBounds::for_workflow(workflow),
                    file,
                    diagnostics,
                );
            }
        }
    }
}

/// What is wrong with a `Workflow` action.
pub open spec fn workflow_action_findings(
    action: &Node,
    action_pointer: Seq<char>,
    file: &Document,
    workflow: &Workflow,
) -> Seq<Finding> {
    inputs_findings(action, action_pointer, file) + match inputs_of(action, file) {
        Some(inputs) => {
            let inputs_pointer = joined(action_pointer, "inputs"@);
            workflow_action_inputs_findings(&inputs, inputs_pointer, file, workflow)
        },
        None => Seq::empty(),
    }
}

/// Validate a `Workflow` action, which names a workflow to call. Its HTTP
/// inputs are checked only where the host is an object with a well-formed
/// target.
pub fn validate_workflow_action(
    action: &Node,
    action_pointer: &str,
    file: &Document,
    workflow: &Workflow,
    diagnostics: &mut Vec<Diagnostic>,
)
    ensures
        findings(final(diagnostics)@) == findings(old(diagnostics)@)
            + workflow_action_findings(action, action_pointer@, file, workflow),
{
    if let Some(inputs) = required_inputs_object(action, action_pointer, file, diagnostics) {
        let inputs_pointer_text = pointer_join(action_pointer, "inputs");
        let inputs_pointer = inputs_pointer_text.as_str();
        validate_workflow_action_inputs(inputs, inputs_pointer, file, workflow, diagnostics);
    }
}

/// What is wrong with an optional integration account.
pub open spec fn account_artifact_findings(
    inputs: &Node,
    inputs_pointer: Seq<char>,
    artifact: Seq<char>,
    file: &Document,
) -> Seq<Finding> {
    match authored(file, inputs, "integrationAccount"@) {
        Some(account) => if account.kind is Object {
            let account_pointer = joined(inputs_pointer, "integrationAccount"@);
            object_field_findings(&account, account_pointer, artifact, file)
                + (match field(&account, artifact) {
                Some(found) => if found.kind is Object {
                    typed_field_findings(
                        &found,
                        joined(account_pointer, artifact),
                        "name"@,
                        "integration account artifact name must be a string"@,
                        Shape::Text,
                        file,
                    )
                } else {
                    Seq::empty()
                },
                None => Seq::empty(),
            })
        } else {
            wrong_type(
                file,
                inputs_pointer,
                "integrationAccount"@,
                account.span,
                "integration account action inputs.integrationAccount must be an object"@,
            )
        },
        None => Seq::empty(),
    }
}

/// Validate an optional integration account.
pub fn validate_optional_integration_account_artifact(
    inputs: &Node,
    inputs_pointer: &str,
    artifact: &str,
    file: &Document,
    diagnostics: &mut Vec<Diagnostic>,
)
    ensures
        findings(final(diagnostics)@) == findings(old(diagnostics)@)
            + account_artifact_findings(inputs, inputs_pointer@, artifact@, file),
{
    if let Some(account) = get_authored(file, inputs, "integrationAccount") {
        if account.is_object() {
            let account_pointer_text = pointer_join(inputs_pointer, "integrationAccount");
            let account_pointer = account_pointer_text.as_str();
            require_object_field(account, account_pointer, artifact, file, diagnostics);
            if let Some(found) = get(account, artifact) {
                if found.is_object() {
                    let artifact_pointer = pointer_join(account_pointer, artifact);
                    require_typed_field(
                        found,
                        artifact_pointer.as_str(),
                        "name",
                        "integration account artifact name must be a string",
                        Shape::Text,
                        file,
                        diagnostics,
                    );
                }
            }
        } else {
            report_type(
                file,
                inputs_pointer,
                "integrationAccount",
                account.span,
                "integration account action inputs.integrationAccount must be an object",
                diagnostics,
            );
        }
    }
}

/// What is wrong with content and the integration account artifact that applies to it.
pub open spec fn account_content_findings(
    inputs: &Node,
    inputs_pointer: Seq<char>,
    artifact: Seq<char>,
    file: &Document,
) -> Seq<Finding> {
    typed_field_findings(
        inputs,
        inputs_pointer,
        "content"@,
        "integration account action inputs.content must be present"@,
        Shape::Any,
        file,
    )
        + typed_field_findings(
            inputs,
            inputs_pointer,
            "integrationAccount"@,
            "integration account action inputs.integrationAccount must be an object"@,
            Shape::Object,
            file,
        )
        + (match field(inputs, "integrationAccount"@) {
        Some(account) => if account.kind is Object {
            let account_pointer = joined(inputs_pointer, "integrationAccount"@);
            object_field_findings(&account, account_pointer, artifact, file)
                + (match field(&account, artifact) {
                Some(found) => if found.kind is Object {
                    let artifact_pointer = joined(account_pointer, artifact);
                    typed_field_findings(
                        &found,
                        artifact_pointer,
                        "name"@,
                        "integration account artifact name must be a string"@,
                        Shape::Text,
                        file,
                    )
                } else {
                    Seq::empty()
                },
                None => Seq::empty(),
            })
        } else {
            Seq::empty()
        },
        None => Seq::empty(),
    })
}

/// Validate content and the integration account artifact that applies to it.
pub fn validate_integration_account_content_inputs(
    inputs: &Node,
    inputs_pointer: &str,
    artifact: &str,
    file: &Document,
    diagnostics: &mut Vec<Diagnostic>,
)
    ensures
        findings(final(diagnostics)@) == findings(old(diagnostics)@)
            + account_content_findings(inputs, inputs_pointer@, artifact@, file),
{
    require_typed_field(
        inputs,
        inputs_pointer,
        "content",
        "integration account action inputs.content must be present",
        Shape::Any,
        file,
        diagnostics,
    );
    require_typed_field(
        inputs,
        inputs_pointer,
        "integrationAccount",
        "integration account action inputs.integrationAccount must be an object",
        Shape::Object,
        file,
        diagnostics,
    );
    if let Some(account) = get(inputs, "integrationAccount") {
        if account.is_object() {
            let account_pointer_text = pointer_join(inputs_pointer, "integrationAccount");
            let account_pointer = account_pointer_text.as_str();
            require_object_field(account, account_pointer, artifact, file, diagnostics);
            if let Some(found) = get(account, artifact) {
                if found.is_object() {
                    let artifact_pointer_text = pointer_join(account_pointer, artifact);
                    let artifact_pointer = artifact_pointer_text.as_str();
                    require_typed_field(
                        found,
                        artifact_pointer,
                        "name",
                        "integration account artifact name must be a string",
                        Shape::Text,
                        file,
                        diagnostics,
                    );
                }
            }
        }
    }
}

/// What is wrong with the first `n` of the parameters of a transformation.
pub open spec fn xslt_parameter_findings(
    members: Seq<Member>,
    n: nat,
    base: Seq<char>,
    file: &Document,
) -> Seq<Finding>
    decreases n,
{
    if n == 0 {
        Seq::empty()
    } else {
        let item = members[n - 1].value;
        let name = members[n - 1].name@;
        xslt_parameter_findings(members, (n - 1) as nat, base, file)
            + (if is_opaque(file, &item) || item.kind is String || item.kind is Number || item.kind is Bool {
            Seq::empty()
        } else {
            wrong_type(
                file,
                base,
                name,
                item.span,
                "Xslt inputs.parameters values must be strings, numbers, or booleans"@,
            )
        })
    }
}

fn validate_xslt_parameters(
    members: &Vec<Member>,
    base: &str,
    file: &Document,
    diagnostics: &mut Vec<Diagnostic>,
)
    ensures
        findings(final(diagnostics)@) == findings(old(diagnostics)@)
            + xslt_parameter_findings(members@, members@.len(), base@, file),
{
    let ghost before = findings(diagnostics@);
    let mut i: usize = 0;
    while i < members.len()
        invariant
            i <= members.len(),
            findings(diagnostics@) == before
                + xslt_parameter_findings(members@, i as nat, base@, file),
        decreases members.len() - i,
    {
        let item = &members[i].value;
        let name = members[i].name.as_str();
        if !(
            is_opaque_arm_expression(file, item)
                || item.is_string()
                || item.is_number()
                || item.is_bool()
        ) {
            report_type(
                file,
                base,
                name,
                item.span,
                "Xslt inputs.parameters values must be strings, numbers, or booleans",
                diagnostics,
            );
        }
        i += 1;
    }
}

/// What is wrong with an `Xslt` action.
pub open spec fn xslt_action_findings(
    action: &Node,
    action_pointer: Seq<char>,
    file: &Document,
) -> Seq<Finding> {
    inputs_findings(action, action_pointer, file) + match inputs_of(action, file) {
        Some(inputs) => {
            let inputs_pointer = joined(action_pointer, "inputs"@);
            typed_field_findings(
                &inputs,
                inputs_pointer,
                "content"@,
                "Xslt inputs.content must be present"@,
                Shape::Any,
                file,
            )
                + account_artifact_findings(&inputs, inputs_pointer, "map"@, file)
                + string_findings(
                    &inputs,
                    inputs_pointer,
                    "transformOptions"@,
                    "Xslt inputs.transformOptions"@,
                    file,
                )
                + (match authored(file, &inputs, "parameters"@) {
                Some(parameters) => match parameters.kind {
                    Json::Object(members) => xslt_parameter_findings(
                        members@,
                        members@.len(),
                        joined(inputs_pointer, "parameters"@),
                        file,
                    ),
                    _ => wrong_type(
                        file,
                        inputs_pointer,
                        "parameters"@,
                        parameters.span,
                        "Xslt inputs.parameters must be an object"@,
                    ),
                },
                None => Seq::empty(),
            })
        },
        None => Seq::empty(),
    }
}

/// Validate an `Xslt` action.
pub fn validate_xslt_action(
    action: &Node,
    action_pointer: &str,
    file: &Document,
    diagnostics: &mut Vec<Diagnostic>,
)
    ensures
        findings(final(diagnostics)@) == findings(old(diagnostics)@)
            + xslt_action_findings(action, action_pointer@, file),
{
    if let Some(inputs) = required_inputs_object(action, action_pointer, file, diagnostics) {
        let inputs_pointer_text = pointer_join(action_pointer, "inputs");
        let inputs_pointer = inputs_pointer_text.as_str();
        require_typed_field(
            inputs,
            inputs_pointer,
            "content",
            "Xslt inputs.content must be present",
            Shape::Any,
            file,
            diagnostics,
        );
        validate_optional_integration_account_artifact(
            inputs,
            inputs_pointer,
            "map",
            file,
            diagnostics,
        );
        validate_optional_string_field(
            inputs,
            inputs_pointer,
            "transformOptions",
            "Xslt inputs.transformOptions",
            file,
            diagnostics,
        );
        if let Some(parameters) = get_authored(file, inputs, "parameters") {
            match as_object(parameters) {
                Some(members) => {
                    let pointer = pointer_join(inputs_pointer, "parameters");
                    validate_xslt_parameters(members, pointer.as_str(), file, diagnostics);
                },
                None => {
                    report_type(
                        file,
                        inputs_pointer,
                        "parameters",
                        parameters.span,
                        "Xslt inputs.parameters must be an object",
                        diagnostics,
                    );
                },
            }
        }
    }
}

/// What is wrong with an `IntegrationAccountArtifactLookup` action.
pub open spec fn artifact_lookup_action_findings(
    action: &Node,
    action_pointer: Seq<char>,
    file: &Document,
) -> Seq<Finding> {
    inputs_findings(action, action_pointer, file) + match inputs_of(action, file) {
        Some(inputs) => {
            let inputs_pointer = joined(action_pointer, "inputs"@);
            typed_field_findings(
                &inputs,
                inputs_pointer,
                "artifactType"@,
                "IntegrationAccountArtifactLookup inputs.artifactType must be a string"@,
                Shape::Text,
                file,
            )
                + enum_findings(
                    &inputs,
                    inputs_pointer,
                    "artifactType"@,
                    "IntegrationAccountArtifactLookup inputs.artifactType"@,
                    artifact_type_names(),
                    file,
                )
                + (if field(&inputs, "artifactName"@) is None && present(
                    file,
                    &inputs,
                    "artifaceName"@,
                ) is Some {
                    Seq::empty()
                } else {
                    typed_field_findings(
                        &inputs,
                        inputs_pointer,
                        "artifactName"@,
                        "IntegrationAccountArtifactLookup inputs.artifactName must be a string"@,
                        Shape::Text,
                        file,
                    )
                })
                + string_findings(
                    &inputs,
                    inputs_pointer,
                    "artifaceName"@,
                    "IntegrationAccountArtifactLookup inputs.artifaceName"@,
                    file,
                )
        },
        None => Seq::empty(),
    }
}

/// Validate an `IntegrationAccountArtifactLookup` action; the misspelling
/// `artifaceName` is accepted in place of `artifactName`.
pub fn validate_integration_account_artifact_lookup_action(
    action: &Node,
    action_pointer: &str,
    file: &Document,
    diagnostics: &mut Vec<Diagnostic>,
)
    ensures
        findings(final(diagnostics)@) == findings(old(diagnostics)@)
            + artifact_lookup_action_findings(action, action_pointer@, file),
{
    if let Some(inputs) = required_inputs_object(action, action_pointer, file, diagnostics) {
        let inputs_pointer_text = pointer_join(action_pointer, "inputs");
        let inputs_pointer = inputs_pointer_text.as_str();
        require_typed_field(
            inputs,
            inputs_pointer,
            "artifactType",
            "IntegrationAccountArtifactLookup inputs.artifactType must be a string",
            Shape::Text,
            file,
            diagnostics,
        );
        validate_optional_string_enum(
            inputs,
            inputs_pointer,
            "artifactType",
            "IntegrationAccountArtifactLookup inputs.artifactType",
            artifact_type_list().as_slice(),
            file,
            diagnostics,
        );
        if get(inputs, "artifactName").is_some() || get_present(
            file,
            inputs,
            "artifaceName",
        ).is_none() {
            require_typed_field(
                inputs,
                inputs_pointer,
                "artifactName",
                "IntegrationAccountArtifactLookup inputs.artifactName must be a string",
                Shape::Text,
                file,
                diagnostics,
            );
        }
        validate_optional_string_field(
            inputs,
            inputs_pointer,
            "artifaceName",
            "IntegrationAccountArtifactLookup inputs.artifaceName",
            file,
            diagnostics,
        );
    }
}

/// What is wrong with an `XmlValidation` action.
pub open spec fn xml_validation_action_findings(
    action: &Node,
    action_pointer: Seq<char>,
    file: &Document,
) -> Seq<Finding> {
    inputs_findings(action, action_pointer, file) + match inputs_of(action, file) {
        Some(inputs) => {
            let inputs_pointer = joined(action_pointer, "inputs"@);
            account_content_findings(&inputs, inputs_pointer, "schema"@, file)
        },
        None => Seq::empty(),
    }
}

/// Validate an `XmlValidation` action.
pub fn validate_xml_validation_action(
    action: &Node,
    action_pointer: &str,
    file: &Document,
    diagnostics: &mut Vec<Diagnostic>,
)
    ensures
        findings(final(diagnostics)@) == findings(old(diagnostics)@)
            + xml_validation_action_findings(action, action_pointer@, file),
{
    if let Some(inputs) = required_inputs_object(action, action_pointer, file, diagnostics) {
        let inputs_pointer_text = pointer_join(action_pointer, "inputs");
        let inputs_pointer = inputs_pointer_text.as_str();
        validate_integration_account_content_inputs(
            inputs,
            inputs_pointer,
            "schema",
            file,
            diagnostics,
        );
    }
}

/// What is wrong with a `Liquid` action.
pub open spec fn liquid_action_findings(
    action: &Node,
    action_pointer: Seq<char>,
    file: &Document,
) -> Seq<Finding> {
    kind_findings(action, action_pointer, "Liquid kind"@, liquid_kind_names(), file)
        + inputs_findings(action, action_pointer, file)
        + match inputs_of(action, file) {
        Some(inputs) => {
            let inputs_pointer = joined(action_pointer, "inputs"@);
            account_content_findings(&inputs, inputs_pointer, "map"@, file)
        },
        None => Seq::empty(),
    }
}

/// Validate a `Liquid` action.
pub fn validate_liquid_action(
    action: &Node,
    action_pointer: &str,
    file: &Document,
    diagnostics: &mut Vec<Diagnostic>,
)
    ensures
        findings(final(diagnostics)@) == findings(old(diagnostics)@)
            + liquid_action_findings(action, action_pointer@, file),
{
    validate_optional_kind(
        action,
        action_pointer,
        "Liquid kind",
        liquid_kind_list().as_slice(),
        file,
        diagnostics,
    );
    if let Some(inputs) = required_inputs_object(action, action_pointer, file, diagnostics) {
        let inputs_pointer_text = pointer_join(action_pointer, "inputs");
        let inputs_pointer = inputs_pointer_text.as_str();
        validate_integration_account_content_inputs(
            inputs,
            inputs_pointer,
            "map",
            file,
            diagnostics,
        );
    }
}

/// What is wrong with a flat-file encoding or decoding action.
pub open spec fn flat_file_action_findings(
    action: &Node,
    action_pointer: Seq<char>,
    file: &Document,
) -> Seq<Finding> {
    inputs_findings(action, action_pointer, file) + match inputs_of(action, file) {
        Some(inputs) => {
            let inputs_pointer = joined(action_pointer, "inputs"@);
            account_content_findings(&inputs, inputs_pointer, "schema"@, file)
                + enum_findings(
                    &inputs,
                    inputs_pointer,
                    "emptyNodeGenerationMode"@,
                    "FlatFileEncoding inputs.emptyNodeGenerationMode"@,
                    empty_node_mode_names(),
                    file,
                )
        },
        None => Seq::empty(),
    }
}

/// Validate a flat-file encoding or decoding action.
pub fn validate_flat_file_action(
    action: &Node,
    action_pointer: &str,
    file: &Document,
    diagnostics: &mut Vec<Diagnostic>,
)
    ensures
        findings(final(diagnostics)@) == findings(old(diagnostics)@)
            + flat_file_action_findings(action, action_pointer@, file),
{
    if let Some(inputs) = required_inputs_object(action, action_pointer, file, diagnostics) {
        let inputs_pointer_text = pointer_join(action_pointer, "inputs");
        let inputs_pointer = inputs_pointer_text.as_str();
        validate_integration_account_content_inputs(
            inputs,
            inputs_pointer,
            "schema",
            file,
            diagnostics,
        );
        validate_optional_string_enum(
            inputs,
            inputs_pointer,
            "emptyNodeGenerationMode",
            "FlatFileEncoding inputs.emptyNodeGenerationMode",
            empty_node_mode_list().as_slice(),
            file,
            diagnostics,
        );
    }
}
} // verus!
