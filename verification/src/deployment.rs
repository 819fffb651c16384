//! Telling deployment parameter files from project parameter files.
//!
//! Both are commonly named alike, but only the latter mark a project.

use vstd::prelude::*;

use crate::json::read::{parse_plain, plain_json};
use crate::json::{as_object, field, get, get_string, text_field, Json, Member, Node};
use crate::text::{contains, has_part, text_eq};

verus! {

/// A key that a deployment parameters file may have at its root.
pub open spec fn is_root_key(key: Seq<char>) -> bool {
    key == "$schema"@ || key == "contentVersion"@ || key == "parameters"@
}

/// A parameter that is given a value, directly or by reference, and no type.
pub open spec fn is_assignment(value: Node) -> bool {
    &&& value.kind is Object
    &&& field(&value, "value"@) is Some || field(&value, "reference"@) is Some
    &&& field(&value, "type"@) is None
}

/// A file that reads as deployment parameters though it names no schema.
pub open spec fn assigns_parameters(value: &Node) -> bool {
    match value.kind {
        Json::Object(root) => {
            &&& forall|i: int| 0 <= i < root@.len() ==> is_root_key((#[trigger] root@[i]).name@)
            &&& match field(value, "parameters"@) {
                Some(parameters) => match parameters.kind {
                    Json::Object(members) => {
                        &&& members@.len() == 0 ==> field(value, "contentVersion"@) is Some
                        &&& forall|i: int|
                            0 <= i < members@.len() ==> is_assignment((#[trigger] members@[i]).value)
                    },
                    _ => false,
                },
                None => false,
            }
        },
        _ => false,
    }
}

/// The content of a deployment parameters file.
pub open spec fn is_deployment(value: &Node) -> bool {
    ||| match text_field(value, "$schema"@) {
        Some(schema) => has_part(schema, "/deploymentParameters.json"@),
        None => false,
    }
    ||| assigns_parameters(value)
}

fn all_root_keys(members: &Vec<Member>) -> (holds: bool)
    ensures
        holds == (forall|i: int|
            0 <= i < members@.len() ==> is_root_key((#[trigger] members@[i]).name@)),
{
    let mut i: usize = 0;
    while i < members.len()
        invariant
            i <= members@.len(),
            forall|j: int| 0 <= j < i ==> is_root_key((#[trigger] members@[j]).name@),
        decreases members@.len() - i,
    {
        let key = members[i].name.as_str();
        if !(text_eq(key, "$schema") || text_eq(key, "contentVersion") || text_eq(
            key,
            "parameters",
        )) {
            return false;
        }
        i += 1;
    }
    true
}

fn all_assignments(members: &Vec<Member>) -> (holds: bool)
    ensures
        holds == (forall|i: int|
            0 <= i < members@.len() ==> is_assignment((#[trigger] members@[i]).value)),
{
    let mut i: usize = 0;
    while i < members.len()
        invariant
            i <= members@.len(),
            forall|j: int| 0 <= j < i ==> is_assignment((#[trigger] members@[j]).value),
        decreases members@.len() - i,
    {
        let value = &members[i].value;
        if !(value.is_object() && (get(value, "value").is_some() || get(
            value,
            "reference",
        ).is_some()) && get(value, "type").is_none()) {
            return false;
        }
        i += 1;
    }
    true
}

/// Whether a value without a schema reads as deployment parameters.
pub fn schema_less_deployment_parameters(value: &Node) -> (holds: bool)
    ensures
        holds == assigns_parameters(value),
{
    match as_object(value) {
        None => false,
        Some(root) => if !all_root_keys(root) {
            false
        } else {
            match get(value, "parameters") {
                None => false,
                Some(parameters) => match as_object(parameters) {
                    None => false,
                    Some(members) => if members.len() == 0 {
                        get(value, "contentVersion").is_some()
                    } else {
                        all_assignments(members)
                    },
                },
            }
        },
    }
}

/// Whether a value is the content of a deployment parameters file.
pub fn is_deployment_parameters(value: &Node) -> (holds: bool)
    ensures
        holds == is_deployment(value),
{
    let named = match get_string(value, "$schema") {
        Some(schema) => contains(schema, "/deploymentParameters.json"),
        None => false,
    };
    named || schema_less_deployment_parameters(value)
}

/// Whether the text of a file is that of a deployment parameters file. A text
/// that is no JSON is not.
pub fn is_arm_deployment_parameters_file(source: &str) -> (holds: bool)
    ensures
        holds == match plain_json(source@) {
            Some(value) => is_deployment(&value),
            None => false,
        },
{
    match parse_plain(source) {
        Some(value) => is_deployment_parameters(&value),
        None => false,
    }
}

} // verus!
