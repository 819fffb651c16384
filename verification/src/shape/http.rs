//! HTTP shape helpers shared by action and trigger validators: the verb sets,
//! the retry policy, authentication, and webhook operations.

use vstd::prelude::*;

use crate::diagnostic::{findings, Diagnostic, Finding};
use crate::json::{
    as_object, as_string, field, get, get_string, joined, pointer_join, text_field, text_of,
    Document, Json, Member, Node,
};
use crate::shape::arm_boundary::{
    arm_optional_property_absent, authored, checked, get_authored, get_checked, get_present,
    is_absent, is_opaque, is_opaque_arm_expression, present,
};
use crate::shape::duration::{duration_seconds, iso8601_duration_seconds, less, whole, Decimal};
use crate::shape::dynamic_wdl::{
    may_be_duration, wdl_string_has_dynamic_value, wdl_string_may_be_iso8601_duration,
    wdl_string_may_match_exact_ignore_case,
};
use crate::shape::field_validators::{
    caseless_enum_findings, enum_findings, object_or_string_findings, range_findings,
    required_enum_findings, scalar_object_findings, string_findings,
    validate_optional_integer_range, validate_optional_object_or_string_field,
    validate_optional_string_enum, validate_optional_string_enum_ignore_case,
    validate_optional_string_field, validate_required_string_enum, validate_scalar_object_values,
};
use crate::shape::http_uri::{endpoint_findings, validate_http_endpoint_uri};
use crate::shape::operation_options::{
    unknown_options_findings, validate_operation_options_literal_values,
};
use crate::shape::report::{
    extend_with_span, missing, report_missing, report_type, report_value, respanned, wrong_type,
    wrong_value,
};
use crate::shape::required_fields::{
    object_field_findings, require_object_field, require_typed_field, typed_field_findings, Shape,
};
use crate::shape::time::{is_duration, is_iso8601_duration};
use crate::text::{
    chars_of, eq_ignoring_case, in_list, names, one_of, same_ignoring_case, text2, text3, text4,
    text_eq,
};
use crate::wdl::value::{
    classified, is_dynamic, may_match_ignoring_case, Classified, WdlStringValue,
};
use crate::workflow::{stateless, Workflow};
use crate::diagnostic::lemma_findings_index;
use crate::wdl::segments::root_expression;
use crate::wdl::value::is_root_expression;

verus! {

broadcast use crate::diagnostic::group_findings;

pub open spec fn request_method_names() -> Seq<Seq<char>> {
    seq!["DELETE"@, "GET"@, "HEAD"@, "OPTIONS"@, "PATCH"@, "POST"@, "PUT"@, "TRACE"@]
}

pub fn request_method_list() -> (list: Vec<&'static str>)
    ensures
        names(list@) == request_method_names(),
{
    let list = vec!["DELETE", "GET", "HEAD", "OPTIONS", "PATCH", "POST", "PUT", "TRACE"];
    assert(names(list@) =~= request_method_names());
    list
}

pub open spec fn endpoint_method_names() -> Seq<Seq<char>> {
    seq!["DELETE"@, "GET"@, "PATCH"@, "POST"@, "PUT"@]
}

pub fn endpoint_method_list() -> (list: Vec<&'static str>)
    ensures
        names(list@) == endpoint_method_names(),
{
    let list = vec!["DELETE", "GET", "PATCH", "POST", "PUT"];
    assert(names(list@) =~= endpoint_method_names());
    list
}

pub open spec fn authentication_type_names() -> Seq<Seq<char>> {
    seq![
        "ActiveDirectoryOAuth"@,
        "Basic"@,
        "ClientCertificate"@,
        "ManagedServiceIdentity"@,
        "None"@,
        "Raw"@,
    ]
}

fn authentication_type_list() -> (list: Vec<&'static str>)
    ensures
        names(list@) == authentication_type_names(),
{
    let list = vec![
        "ActiveDirectoryOAuth",
        "Basic",
        "ClientCertificate",
        "ManagedServiceIdentity",
        "None",
        "Raw",
    ];
    assert(names(list@) =~= authentication_type_names());
    list
}

pub open spec fn retry_policy_type_names() -> Seq<Seq<char>> {
    seq!["Default"@, "Exponential"@, "Fixed"@, "None"@]
}

fn retry_policy_type_list() -> (list: Vec<&'static str>)
    ensures
        names(list@) == retry_policy_type_names(),
{
    let list = vec!["Default", "Exponential", "Fixed", "None"];
    assert(names(list@) =~= retry_policy_type_names());
    list
}

pub open spec fn credential_type_names() -> Seq<Seq<char>> {
    seq!["Certificate"@, "Secret"@]
}

fn credential_type_list() -> (list: Vec<&'static str>)
    ensures
        names(list@) == credential_type_names(),
{
    let list = vec!["Certificate", "Secret"];
    assert(names(list@) =~= credential_type_names());
    list
}

pub open spec fn credential_field_names() -> Seq<Seq<char>> {
    seq![
        "authority"@,
        "audience"@,
        "clientId"@,
        "identity"@,
        "parameter"@,
        "password"@,
        "pfx"@,
        "scheme"@,
        "secret"@,
        "tenant"@,
        "username"@,
        "value"@,
    ]
}

fn credential_field_list() -> (list: Vec<&'static str>)
    ensures
        names(list@) == credential_field_names(),
{
    let list = vec![
        "authority",
        "audience",
        "clientId",
        "identity",
        "parameter",
        "password",
        "pfx",
        "scheme",
        "secret",
        "tenant",
        "username",
        "value",
    ];
    assert(names(list@) =~= credential_field_names());
    list
}

/// Stateful hosts persist retry state and allow long intervals; stateless
/// hosts have to complete within the lifetime of a request.
#[derive(Debug, Clone, Copy, PartialEq, Eq, Structural)]
pub enum RetryPolicyIntervalBounds {
    Stateful,
    Stateless,
}

/// The shortest interval in seconds.
pub open spec fn shortest(bounds: RetryPolicyIntervalBounds) -> nat {
    if bounds is Stateful { 5 } else { 1 }
}

/// The longest interval in seconds.
pub open spec fn longest(bounds: RetryPolicyIntervalBounds) -> nat {
    if bounds is Stateful { 86400 } else { 60 }
}

pub open spec fn bounds_of(workflow: &Workflow) -> RetryPolicyIntervalBounds {
    if stateless(
        workflow,
    ) { RetryPolicyIntervalBounds::Stateless } else { RetryPolicyIntervalBounds::Stateful }
}

impl RetryPolicyIntervalBounds {
    pub fn for_workflow(workflow: &Workflow) -> (bounds: RetryPolicyIntervalBounds)
        ensures
            bounds == bounds_of(workflow),
    {
        if workflow.is_stateless() { RetryPolicyIntervalBounds::Stateless } else { RetryPolicyIntervalBounds::Stateful }
    }

    fn range_seconds(self) -> (range: (u64, u64))
        ensures
            range.0 == shortest(self),
            range.1 == longest(self),
    {
        match self {
            RetryPolicyIntervalBounds::Stateful => (5, 86400),
            RetryPolicyIntervalBounds::Stateless => (1, 60),
        }
    }
}

/// Whether a bare string may stand for a webhook operation.
#[derive(Debug, Clone, Copy, PartialEq, Eq, Structural)]
pub enum WebhookOperationString {
    Allow,
    Disallow,
}

#[derive(Debug, Clone, Copy, PartialEq, Eq, Structural)]
pub struct WebhookOperationOptions {
    pub string_operation: WebhookOperationString,
    pub retry_bounds: RetryPolicyIntervalBounds,
}

fn is_wdl_full_expression_value(value: &Node) -> (holds: bool)
    ensures
        holds == (text_of(value) is Some && is_root_expression(text_of(value)->Some_0)),
{
    match as_string(value) {
        Some(text) => root_expression(chars_of(text).as_slice()),
        None => false,
    }
}

/// What is wrong with an optional object of scalars, which an expression may stand for.
pub open spec fn object_or_expression_findings(
    object: &Node,
    base: Seq<char>,
    key: Seq<char>,
    label: Seq<char>,
    file: &Document,
) -> Seq<Finding> {
    match checked(file, object, key) {
        Some(value) => if text_of(&value) is Some && is_root_expression(text_of(&value)->Some_0) {
            Seq::empty()
        } else {
            if value.kind is Object {
                scalar_object_findings(&value, joined(base, key), label, file)
            } else {
                wrong_type(file, base, key, value.span, label + " must be an object"@)
            }
        },
        None => Seq::empty(),
    }
}

/// Validate an optional object of scalars, which an expression may stand for.
fn validate_optional_object_or_wdl_expression_field(
    object: &Node,
    base: &str,
    key: &str,
    label: &str,
    file: &Document,
    diagnostics: &mut Vec<Diagnostic>,
)
    ensures
        findings(final(diagnostics)@) == findings(old(diagnostics)@)
            + object_or_expression_findings(object, base@, key@, label@, file),
{
    if let Some(value) = get_checked(file, object, key) {
        if !is_wdl_full_expression_value(value) {
            if value.is_object() {
                let pointer = pointer_join(base, key);
                validate_scalar_object_values(value, pointer.as_str(), label, file, diagnostics);
            } else {
                let message = text2(label, " must be an object");
                report_type(file, base, key, value.span, message.as_str(), diagnostics);
            }
        }
    }
}

/// The fields that an authentication object needs besides its `type`.
pub open spec fn required_credentials(
    auth: &Node,
    kind: Seq<char>,
    file: &Document,
) -> Seq<Seq<char>> {
    if same_ignoring_case(kind, "ActiveDirectoryOAuth"@) {
        match field(auth, "credentialType"@) {
            Some(credential) => if is_opaque(file, &credential) {
                seq!["tenant"@, "audience"@, "clientId"@]
            } else if text_of(&credential) is Some && same_ignoring_case(
                text_of(&credential)->Some_0,
                "Certificate"@,
            ) {
                seq!["tenant"@, "audience"@, "clientId"@, "pfx"@, "password"@]
            } else {
                seq!["tenant"@, "audience"@, "clientId"@, "secret"@]
            },
            None => seq!["tenant"@, "audience"@, "clientId"@, "secret"@],
        }
    } else if same_ignoring_case(kind, "Basic"@) {
        seq!["username"@, "password"@]
    } else if same_ignoring_case(kind, "ClientCertificate"@) {
        seq!["pfx"@]
    } else if same_ignoring_case(kind, "Raw"@) {
        seq!["value"@]
    } else {
        Seq::empty()
    }
}

fn required_authentication_fields(
    auth: &Node,
    kind: &str,
    file: &Document,
) -> (list: Vec<&'static str>)
    ensures
        names(list@) == required_credentials(auth, kind@, file),
{
    let list = if eq_ignoring_case(kind, "ActiveDirectoryOAuth") {
        match get(auth, "credentialType") {
            Some(credential) => if is_opaque_arm_expression(file, credential) {
                vec!["tenant", "audience", "clientId"]
            } else if is_certificate(credential) {
                vec!["tenant", "audience", "clientId", "pfx", "password"]
            } else {
                vec!["tenant", "audience", "clientId", "secret"]
            },
            None => vec!["tenant", "audience", "clientId", "secret"],
        }
    } else if eq_ignoring_case(kind, "Basic") {
        vec!["username", "password"]
    } else if eq_ignoring_case(kind, "ClientCertificate") {
        vec!["pfx"]
    } else if eq_ignoring_case(kind, "Raw") {
        vec!["value"]
    } else {
        Vec::new()
    };
    assert(names(list@) =~= required_credentials(auth, kind@, file));
    list
}

fn is_certificate(credential: &Node) -> (holds: bool)
    ensures
        holds == (
            text_of(credential) is Some
                && same_ignoring_case(text_of(credential)->Some_0, "Certificate"@)
        ),
{
    match as_string(credential) {
        Some(text) => eq_ignoring_case(text, "Certificate"),
        None => false,
    }
}

/// What is wrong with one field that an authentication object needs.
pub open spec fn required_credential_findings(
    auth: &Node,
    base: Seq<char>,
    key: Seq<char>,
    label: Seq<char>,
    file: &Document,
) -> Seq<Finding> {
    match field(auth, key) {
        Some(value) => if !is_opaque(file, &value) && !(value.kind is String) {
            wrong_type(
                file,
                base,
                key,
                value.span,
                label + ".authentication."@ + key + " must be a string"@,
            )
        } else {
            Seq::empty()
        },
        None => missing(
            file,
            base,
            key,
            auth.span,
            label + ".authentication is missing required field '"@ + key + "'"@,
        ),
    }
}

/// Validate one field that an authentication object needs.
fn require_authentication_string_field(
    auth: &Node,
    base: &str,
    key: &str,
    label: &str,
    file: &Document,
    diagnostics: &mut Vec<Diagnostic>,
)
    ensures
        findings(final(diagnostics)@) == findings(old(diagnostics)@)
            + required_credential_findings(auth, base@, key@, label@, file),
{
    match get(auth, key) {
        Some(value) => {
            if !is_opaque_arm_expression(file, value) && !value.is_string() {
                let message = text4(label, ".authentication.", key, " must be a string");
                report_type(file, base, key, value.span, message.as_str(), diagnostics);
            }
        },
        None => {
            let message = text4(label, ".authentication is missing required field '", key, "'");
            report_missing(file, base, key, auth.span, message.as_str(), diagnostics);
        },
    }
}

/// What is wrong with the first `n` of the fields that an authentication object needs.
pub open spec fn required_credentials_findings(
    keys: Seq<Seq<char>>,
    n: nat,
    auth: &Node,
    base: Seq<char>,
    label: Seq<char>,
    file: &Document,
) -> Seq<Finding>
    decreases n,
{
    if n == 0 {
        Seq::empty()
    } else {
        let key = keys[n - 1];
        required_credentials_findings(keys, (n - 1) as nat, auth, base, label, file)
            + (required_credential_findings(auth, base, key, label, file))
    }
}

fn require_credentials(
    keys: &Vec<&'static str>,
    auth: &Node,
    base: &str,
    label: &str,
    file: &Document,
    diagnostics: &mut Vec<Diagnostic>,
)
    ensures
        findings(final(diagnostics)@) == findings(old(diagnostics)@)
            + required_credentials_findings(names(keys@), keys@.len(), auth, base@, label@, file),
{
    let ghost before = findings(diagnostics@);
    let mut i: usize = 0;
    while i < keys.len()
        invariant
            i <= keys.len(),
            findings(diagnostics@) == before
                + required_credentials_findings(names(keys@), i as nat, auth, base@, label@, file),
        decreases keys.len() - i,
    {
        let key = keys[i];
        require_authentication_string_field(auth, base, key, label, file, diagnostics);
        i += 1;
    }
}

/// What is wrong with the first `n` of the other credential fields.
pub open spec fn other_credentials_findings(
    keys: Seq<Seq<char>>,
    n: nat,
    required: Seq<Seq<char>>,
    auth: &Node,
    base: Seq<char>,
    label: Seq<char>,
    file: &Document,
) -> Seq<Finding>
    decreases n,
{
    if n == 0 {
        Seq::empty()
    } else {
        let key = keys[n - 1];
        other_credentials_findings(keys, (n - 1) as nat, required, auth, base, label, file)
            + (if one_of(key, required) {
            Seq::empty()
        } else {
            string_findings(auth, base, key, label + ".authentication."@ + key, file)
        })
    }
}

fn validate_other_credentials(
    keys: &Vec<&'static str>,
    required: &Vec<&'static str>,
    auth: &Node,
    base: &str,
    label: &str,
    file: &Document,
    diagnostics: &mut Vec<Diagnostic>,
)
    ensures
        findings(final(diagnostics)@) == findings(old(diagnostics)@)
            + other_credentials_findings(
                names(keys@),
                keys@.len(),
                names(required@),
                auth,
                base@,
                label@,
                file,
            ),
{
    let ghost before = findings(diagnostics@);
    let mut i: usize = 0;
    while i < keys.len()
        invariant
            i <= keys.len(),
            findings(diagnostics@) == before
                + other_credentials_findings(
                    names(keys@),
                    i as nat,
                    names(required@),
                    auth,
                    base@,
                    label@,
                    file,
                ),
        decreases keys.len() - i,
    {
        let key = keys[i];
        if !in_list(key, required.as_slice()) {
            {
                let label = text3(label, ".authentication.", key);
                validate_optional_string_field(auth, base, key, label.as_str(), file, diagnostics);
            }
        }
        i += 1;
    }
}

/// What is wrong with the first `n` of the members of an authentication object
/// that disables authentication.
pub open spec fn unused_credentials_findings(
    members: Seq<Member>,
    n: nat,
    base: Seq<char>,
    label: Seq<char>,
    file: &Document,
) -> Seq<Finding>
    decreases n,
{
    if n == 0 {
        Seq::empty()
    } else {
        let item = members[n - 1].value;
        let name = members[n - 1].name@;
        unused_credentials_findings(members, (n - 1) as nat, base, label, file)
            + (if name == "type"@ || is_absent(file, &item) {
            Seq::empty()
        } else {
            wrong_value(
                file,
                base,
                name,
                item.span,
                label
                    + ".authentication."@
                    + name
                    + " is not supported when authentication.type is None"@,
            )
        })
    }
}

fn reject_unused_credentials(
    members: &Vec<Member>,
    base: &str,
    label: &str,
    file: &Document,
    diagnostics: &mut Vec<Diagnostic>,
)
    ensures
        findings(final(diagnostics)@) == findings(old(diagnostics)@)
            + unused_credentials_findings(members@, members@.len(), base@, label@, file),
{
    let ghost before = findings(diagnostics@);
    let mut i: usize = 0;
    while i < members.len()
        invariant
            i <= members.len(),
            findings(diagnostics@) == before
                + unused_credentials_findings(members@, i as nat, base@, label@, file),
        decreases members.len() - i,
    {
        let item = &members[i].value;
        let name = members[i].name.as_str();
        if !(text_eq(name, "type") || arm_optional_property_absent(file, item)) {
            let message = text4(
                label,
                ".authentication.",
                name,
                " is not supported when authentication.type is None",
            );
            report_value(file, base, name, item.span, message.as_str(), diagnostics);
        }
        i += 1;
    }
}

/// What is wrong with the credentials of an authentication object of the given kind.
pub open spec fn credentials_findings(
    auth: &Node,
    kind: Seq<char>,
    base: Seq<char>,
    label: Seq<char>,
    file: &Document,
) -> Seq<Finding> {
    (if same_ignoring_case(kind, "ActiveDirectoryOAuth"@) {
        caseless_enum_findings(
            auth,
            base,
            "credentialType"@,
            label + ".authentication.credentialType"@,
            credential_type_names(),
            file,
        )
    } else {
        Seq::empty()
    }) + ({
        let required = required_credentials(auth, kind, file);
        required_credentials_findings(required, required.len(), auth, base, label, file)
            + other_credentials_findings(
                credential_field_names(),
                credential_field_names().len(),
                required,
                auth,
                base,
                label,
                file,
            )
    })
}

/// Validate the credentials of an authentication object of the given kind.
fn validate_credentials(
    auth: &Node,
    kind: &str,
    base: &str,
    label: &str,
    file: &Document,
    diagnostics: &mut Vec<Diagnostic>,
)
    ensures
        findings(final(diagnostics)@) == findings(old(diagnostics)@)
            + credentials_findings(auth, kind@, base@, label@, file),
{
    if eq_ignoring_case(kind, "ActiveDirectoryOAuth") {
        {
            let label = text2(label, ".authentication.credentialType");
            validate_optional_string_enum_ignore_case(
                auth,
                base,
                "credentialType",
                label.as_str(),
                credential_type_list().as_slice(),
                file,
                diagnostics,
            );
        }
    }
    let required = required_authentication_fields(auth, kind, file);
    require_credentials(&required, auth, base, label, file, diagnostics);
    validate_other_credentials(
        &credential_field_list(),
        &required,
        auth,
        base,
        label,
        file,
        diagnostics,
    );
}

/// What is wrong with an authentication object.
pub open spec fn authentication_object_findings(
    auth: &Node,
    base: Seq<char>,
    label: Seq<char>,
    file: &Document,
) -> Seq<Finding> {
    enum_findings(
        auth,
        base,
        "type"@,
        label + ".authentication.type"@,
        authentication_type_names(),
        file,
    )
        + (if field(auth, "type"@) is None {
        missing(
            file,
            base,
            "type"@,
            auth.span,
            label + ".authentication is missing required field 'type'"@,
        )
    } else {
        Seq::empty()
    }) + (match text_field(auth, "type"@) {
        Some(kind) => if same_ignoring_case(kind, "None"@) {
            match auth.kind {
                Json::Object(members) => unused_credentials_findings(
                    members@,
                    members@.len(),
                    base,
                    label,
                    file,
                ),
                _ => Seq::empty(),
            }
        } else {
            credentials_findings(auth, kind, base, label, file)
        },
        None => other_credentials_findings(
            credential_field_names(),
            credential_field_names().len(),
            Seq::empty(),
            auth,
            base,
            label,
            file,
        ),
    })
}

/// Validate an authentication object.
fn validate_authentication_object(
    auth: &Node,
    base: &str,
    label: &str,
    file: &Document,
    diagnostics: &mut Vec<Diagnostic>,
)
    ensures
        findings(final(diagnostics)@) == findings(old(diagnostics)@)
            + authentication_object_findings(auth, base@, label@, file),
{
    {
        let label = text2(label, ".authentication.type");
        validate_optional_string_enum(
            auth,
            base,
            "type",
            label.as_str(),
            authentication_type_list().as_slice(),
            file,
            diagnostics,
        );
    }
    if get(auth, "type").is_none() {
        let message = text2(label, ".authentication is missing required field 'type'");
        report_missing(file, base, "type", auth.span, message.as_str(), diagnostics);
    }
    match get_string(auth, "type") {
        Some(kind) => {
            if eq_ignoring_case(kind, "None") {
                if let Some(members) = as_object(auth) {
                    reject_unused_credentials(members, base, label, file, diagnostics);
                }
            } else {
                validate_credentials(auth, kind, base, label, file, diagnostics);
            }
        },
        None => {
            let required: Vec<&'static str> = Vec::new();
            assert(names(required@) =~= Seq::<Seq<char>>::empty());
            validate_other_credentials(
                &credential_field_list(),
                &required,
                auth,
                base,
                label,
                file,
                diagnostics,
            );
        },
    }
}

/// What is wrong with an authentication value.
pub open spec fn authentication_value_findings(
    auth: &Node,
    base: Seq<char>,
    label: Seq<char>,
    file: &Document,
) -> Seq<Finding> {
    if auth.kind is Object {
        authentication_object_findings(auth, joined(base, "authentication"@), label, file)
    } else {
        if auth.kind is String {
            if is_root_expression(text_of(auth)->Some_0) {
                Seq::empty()
            } else {
                wrong_value(
                    file,
                    base,
                    "authentication"@,
                    auth.span,
                    label + ".authentication string value must be a WDL expression"@,
                )
            }
        } else {
            wrong_type(
                file,
                base,
                "authentication"@,
                auth.span,
                label + ".authentication must be a string expression or object"@,
            )
        }
    }
}

/// Validate an authentication value.
fn validate_authentication_value(
    auth: &Node,
    base: &str,
    label: &str,
    file: &Document,
    diagnostics: &mut Vec<Diagnostic>,
)
    ensures
        findings(final(diagnostics)@) == findings(old(diagnostics)@)
            + authentication_value_findings(auth, base@, label@, file),
{
    if auth.is_object() {
        let pointer = pointer_join(base, "authentication");
        validate_authentication_object(auth, pointer.as_str(), label, file, diagnostics);
    } else {
        if auth.is_string() {
            if !is_wdl_full_expression_value(auth) {
                let message = text2(label, ".authentication string value must be a WDL expression");
                report_value(
                    file,
                    base,
                    "authentication",
                    auth.span,
                    message.as_str(),
                    diagnostics,
                );
            }
        } else {
            let message = text2(label, ".authentication must be a string expression or object");
            report_type(file, base, "authentication", auth.span, message.as_str(), diagnostics);
        }
    }
}

/// What is wrong with `authentication`.
pub open spec fn authentication_findings(
    inputs: &Node,
    base: Seq<char>,
    label: Seq<char>,
    file: &Document,
) -> Seq<Finding> {
    match checked(file, inputs, "authentication"@) {
        Some(auth) => respanned(authentication_value_findings(&auth, base, label, file), None),
        None => Seq::empty(),
    }
}

/// Validate `authentication`: an expression, or an object with a `type` and the
/// credentials it needs. No finding carries a span, so that no credential is
/// ever shown inline.
pub fn validate_http_authentication(
    inputs: &Node,
    base: &str,
    label: &str,
    file: &Document,
    diagnostics: &mut Vec<Diagnostic>,
)
    ensures
        findings(final(diagnostics)@) == findings(old(diagnostics)@)
            + authentication_findings(inputs, base@, label@, file),
{
    if let Some(auth) = get_checked(file, inputs, "authentication") {
        let mut found: Vec<Diagnostic> = Vec::new();
        proof {
            lemma_findings_index(found@);
            assert(findings(found@) =~= Seq::<Finding>::empty());
        }
        validate_authentication_value(auth, base, label, file, &mut found);
        extend_with_span(diagnostics, &found, None);
    }
}

/// The literal `type` of a retry policy.
pub open spec fn retry_type(policy: &Node, file: &Document) -> Option<Seq<char>> {
    match checked(file, policy, "type"@) {
        Some(kind) => match text_of(&kind) {
            Some(text) => match classified(text) {
                Classified::Literal(literal) => Some(literal),
                _ => None,
            },
            None => None,
        },
        None => None,
    }
}

/// The policy repeats after an interval, so it needs one.
pub open spec fn needs_interval(policy: &Node, file: &Document) -> bool {
    match retry_type(policy, file) {
        Some(kind) => same_ignoring_case(kind, "Fixed"@)
            || same_ignoring_case(kind, "Exponential"@),
        None => false,
    }
}

fn retry_policy_needs_interval(policy: &Node, file: &Document) -> (holds: bool)
    ensures
        holds == needs_interval(policy, file),
{
    match get_checked(file, policy, "type") {
        Some(kind) => match as_string(kind) {
            Some(text) => {
                let class = WdlStringValue::classify(text);
                match class.literal() {
                    Some(literal) => eq_ignoring_case(literal, "Fixed")
                        || eq_ignoring_case(literal, "Exponential"),
                    None => false,
                }
            },
            None => false,
        },
        None => false,
    }
}

/// A duration within the bounds.
pub open spec fn in_bounds(text: Seq<char>, bounds: RetryPolicyIntervalBounds) -> bool {
    match duration_seconds(text) {
        Some(seconds) => !less(seconds, whole(shortest(bounds)))
            && !less(whole(longest(bounds)), seconds),
        None => false,
    }
}

fn retry_duration_in_range(text: &str, bounds: RetryPolicyIntervalBounds) -> (holds: bool)
    ensures
        holds == in_bounds(text@, bounds),
{
    match iso8601_duration_seconds(text) {
        Some(seconds) => {
            let (low, high) = bounds.range_seconds();
            !seconds.less_than(&Decimal::of(low)) && !Decimal::of(high).less_than(&seconds)
        },
        None => false,
    }
}

/// Both texts are durations of fixed length, and the first is longer.
pub open spec fn is_longer(left: Seq<char>, right: Seq<char>) -> bool {
    match (classified(left), classified(right)) {
        (
            Classified::Literal(l),
            Classified::Literal(r),
        ) => match (duration_seconds(l), duration_seconds(r)) {
            (Some(a), Some(b)) => less(b, a),
            _ => false,
        },
        _ => false,
    }
}

fn duration_is_longer(left: &str, right: &str) -> (holds: bool)
    ensures
        holds == is_longer(left@, right@),
{
    let l = WdlStringValue::classify(left);
    let r = WdlStringValue::classify(right);
    match (l.literal(), r.literal()) {
        (Some(a), Some(b)) => match (iso8601_duration_seconds(a), iso8601_duration_seconds(b)) {
            (Some(x), Some(y)) => y.less_than(&x),
            _ => false,
        },
        _ => false,
    }
}

/// What is wrong with the `type` of a retry policy.
pub open spec fn retry_type_findings(
    policy: &Node,
    base: Seq<char>,
    label: Seq<char>,
    file: &Document,
) -> Seq<Finding> {
    match present(file, policy, "type"@) {
        Some(kind) => if is_opaque(file, &kind) {
            Seq::empty()
        } else {
            match text_of(&kind) {
                Some(text) => if may_match_ignoring_case(
                    classified(text),
                    retry_policy_type_names(),
                ) {
                    Seq::empty()
                } else {
                    wrong_value(
                        file,
                        base,
                        "type"@,
                        kind.span,
                        label + ".retryPolicy.type '"@ + text + "' is not supported"@,
                    )
                },
                None => wrong_type(
                    file,
                    base,
                    "type"@,
                    kind.span,
                    label + ".retryPolicy.type must be a string"@,
                ),
            }
        },
        None => missing(
            file,
            base,
            "type"@,
            policy.span,
            "retryPolicy is missing required field 'type'"@,
        ),
    }
}

/// Validate the `type` of a retry policy.
fn validate_retry_type(
    policy: &Node,
    base: &str,
    label: &str,
    file: &Document,
    diagnostics: &mut Vec<Diagnostic>,
)
    ensures
        findings(final(diagnostics)@) == findings(old(diagnostics)@)
            + retry_type_findings(policy, base@, label@, file),
{
    match get_present(file, policy, "type") {
        Some(kind) => {
            if !is_opaque_arm_expression(file, kind) {
                match as_string(kind) {
                    Some(text) => {
                        if !wdl_string_may_match_exact_ignore_case(
                            text,
                            retry_policy_type_list().as_slice(),
                        ) {
                            let message = text4(
                                label,
                                ".retryPolicy.type '",
                                text,
                                "' is not supported",
                            );
                            report_value(
                                file,
                                base,
                                "type",
                                kind.span,
                                message.as_str(),
                                diagnostics,
                            );
                        }
                    },
                    None => {
                        let message = text2(label, ".retryPolicy.type must be a string");
                        report_type(file, base, "type", kind.span, message.as_str(), diagnostics);
                    },
                }
            }
        },
        None => {
            report_missing(
                file,
                base,
                "type",
                policy.span,
                "retryPolicy is missing required field 'type'",
                diagnostics,
            );
        },
    }
}

/// What is wrong with one interval of a retry policy.
pub open spec fn retry_interval_findings(
    policy: &Node,
    base: Seq<char>,
    key: Seq<char>,
    label: Seq<char>,
    bounds: RetryPolicyIntervalBounds,
    file: &Document,
) -> Seq<Finding> {
    match checked(file, policy, key) {
        Some(value) => match text_of(&value) {
            Some(text) => if !may_be_duration(text) {
                wrong_value(file, base, key, value.span, label + " must be an ISO 8601 duration"@)
            } else {
                if is_dynamic(text) || in_bounds(text, bounds) {
                    Seq::empty()
                } else {
                    if is_duration(text) {
                        wrong_value(
                            file,
                            base,
                            key,
                            value.span,
                            label + " must be within the supported retry interval range"@,
                        )
                    } else {
                        wrong_value(
                            file,
                            base,
                            key,
                            value.span,
                            label + " must be an ISO 8601 duration"@,
                        )
                    }
                }
            },
            None => wrong_type(file, base, key, value.span, label + " must be a string"@),
        },
        None => Seq::empty(),
    }
}

/// Validate one interval of a retry policy.
fn validate_optional_retry_duration_field(
    policy: &Node,
    base: &str,
    key: &str,
    label: &str,
    bounds: RetryPolicyIntervalBounds,
    file: &Document,
    diagnostics: &mut Vec<Diagnostic>,
)
    ensures
        findings(final(diagnostics)@) == findings(old(diagnostics)@)
            + retry_interval_findings(policy, base@, key@, label@, bounds, file),
{
    if let Some(value) = get_checked(file, policy, key) {
        match as_string(value) {
            Some(text) => {
                if !wdl_string_may_be_iso8601_duration(text) {
                    let message = text2(label, " must be an ISO 8601 duration");
                    report_value(file, base, key, value.span, message.as_str(), diagnostics);
                } else {
                    if !(
                        wdl_string_has_dynamic_value(text) || retry_duration_in_range(text, bounds)
                    ) {
                        if is_iso8601_duration(text) {
                            let message = text2(
                                label,
                                " must be within the supported retry interval range",
                            );
                            report_value(
                                file,
                                base,
                                key,
                                value.span,
                                message.as_str(),
                                diagnostics,
                            );
                        } else {
                            let message = text2(label, " must be an ISO 8601 duration");
                            report_value(
                                file,
                                base,
                                key,
                                value.span,
                                message.as_str(),
                                diagnostics,
                            );
                        }
                    }
                }
            },
            None => {
                let message = text2(label, " must be a string");
                report_type(file, base, key, value.span, message.as_str(), diagnostics);
            },
        }
    }
}

/// What is wrong with the order of the intervals of a retry policy.
pub open spec fn retry_order_findings(
    policy: &Node,
    base: Seq<char>,
    label: Seq<char>,
    file: &Document,
) -> Seq<Finding> {
    match authored(file, policy, "minimumInterval"@) {
        Some(minimum) => match authored(file, policy, "maximumInterval"@) {
            Some(maximum) => match text_of(&minimum) {
                Some(low) => match text_of(&maximum) {
                    Some(high) => if is_longer(low, high) {
                        wrong_value(
                            file,
                            base,
                            "minimumInterval"@,
                            minimum.span,
                            label
                                + ".retryPolicy.minimumInterval must be less than or equal to maximumInterval"@,
                        )
                    } else {
                        Seq::empty()
                    },
                    None => Seq::empty(),
                },
                None => Seq::empty(),
            },
            None => Seq::empty(),
        },
        None => Seq::empty(),
    }
}

/// Validate the order of the intervals of a retry policy.
fn validate_retry_minimum_not_greater_than_maximum(
    policy: &Node,
    base: &str,
    label: &str,
    file: &Document,
    diagnostics: &mut Vec<Diagnostic>,
)
    ensures
        findings(final(diagnostics)@) == findings(old(diagnostics)@)
            + retry_order_findings(policy, base@, label@, file),
{
    if let Some(minimum) = get_authored(file, policy, "minimumInterval") {
        if let Some(maximum) = get_authored(file, policy, "maximumInterval") {
            if let Some(low) = as_string(minimum) {
                if let Some(high) = as_string(maximum) {
                    if duration_is_longer(low, high) {
                        let message = text2(
                            label,
                            ".retryPolicy.minimumInterval must be less than or equal to maximumInterval",
                        );
                        report_value(
                            file,
                            base,
                            "minimumInterval",
                            minimum.span,
                            message.as_str(),
                            diagnostics,
                        );
                    }
                }
            }
        }
    }
}

/// What is wrong with the fields that a repeating retry policy needs.
pub open spec fn retry_required_findings(
    policy: &Node,
    base: Seq<char>,
    file: &Document,
) -> Seq<Finding> {
    if needs_interval(policy, file) {
        (if present(file, policy, "count"@) is None {
            missing(
                file,
                base,
                "count"@,
                policy.span,
                "retryPolicy is missing required field 'count'"@,
            )
        } else {
            Seq::empty()
        }) + (if present(file, policy, "interval"@) is None {
            missing(
                file,
                base,
                "interval"@,
                policy.span,
                "retryPolicy is missing required field 'interval'"@,
            )
        } else {
            Seq::empty()
        })
    } else {
        Seq::empty()
    }
}

/// Validate the fields that a repeating retry policy needs.
fn require_retry_fields(
    policy: &Node,
    base: &str,
    file: &Document,
    diagnostics: &mut Vec<Diagnostic>,
)
    ensures
        findings(final(diagnostics)@) == findings(old(diagnostics)@)
            + retry_required_findings(policy, base@, file),
{
    if retry_policy_needs_interval(policy, file) {
        if get_present(file, policy, "count").is_none() {
            report_missing(
                file,
                base,
                "count",
                policy.span,
                "retryPolicy is missing required field 'count'",
                diagnostics,
            );
        }
        if get_present(file, policy, "interval").is_none() {
            report_missing(
                file,
                base,
                "interval",
                policy.span,
                "retryPolicy is missing required field 'interval'",
                diagnostics,
            );
        }
    }
}

/// What is wrong with a retry policy object.
pub open spec fn retry_policy_object_findings(
    policy: &Node,
    base: Seq<char>,
    label: Seq<char>,
    bounds: RetryPolicyIntervalBounds,
    file: &Document,
) -> Seq<Finding> {
    retry_type_findings(policy, base, label, file)
        + range_findings(policy, base, "count"@, label + ".retryPolicy.count"@, 1, 90, file)
        + retry_interval_findings(
            policy,
            base,
            "interval"@,
            label + ".retryPolicy.interval"@,
            bounds,
            file,
        )
        + retry_interval_findings(
            policy,
            base,
            "minimumInterval"@,
            label + ".retryPolicy.minimumInterval"@,
            bounds,
            file,
        )
        + retry_interval_findings(
            policy,
            base,
            "maximumInterval"@,
            label + ".retryPolicy.maximumInterval"@,
            bounds,
            file,
        )
        + retry_order_findings(policy, base, label, file)
        + retry_required_findings(policy, base, file)
}

/// Validate a retry policy object.
fn validate_retry_policy_object(
    policy: &Node,
    base: &str,
    label: &str,
    bounds: RetryPolicyIntervalBounds,
    file: &Document,
    diagnostics: &mut Vec<Diagnostic>,
)
    ensures
        findings(final(diagnostics)@) == findings(old(diagnostics)@)
            + retry_policy_object_findings(policy, base@, label@, bounds, file),
{
    validate_retry_type(policy, base, label, file, diagnostics);
    let count = text2(label, ".retryPolicy.count");
    validate_optional_integer_range(
        policy,
        base,
        "count",
        count.as_str(),
        1,
        90,
        file,
        diagnostics,
    );
    let interval = text2(label, ".retryPolicy.interval");
    validate_optional_retry_duration_field(
        policy,
        base,
        "interval",
        interval.as_str(),
        bounds,
        file,
        diagnostics,
    );
    let minimuminterval = text2(label, ".retryPolicy.minimumInterval");
    validate_optional_retry_duration_field(
        policy,
        base,
        "minimumInterval",
        minimuminterval.as_str(),
        bounds,
        file,
        diagnostics,
    );
    let maximuminterval = text2(label, ".retryPolicy.maximumInterval");
    validate_optional_retry_duration_field(
        policy,
        base,
        "maximumInterval",
        maximuminterval.as_str(),
        bounds,
        file,
        diagnostics,
    );
    validate_retry_minimum_not_greater_than_maximum(policy, base, label, file, diagnostics);
    require_retry_fields(policy, base, file, diagnostics);
}

/// What is wrong with `retryPolicy`.
pub open spec fn retry_policy_findings(
    inputs: &Node,
    base: Seq<char>,
    label: Seq<char>,
    bounds: RetryPolicyIntervalBounds,
    file: &Document,
) -> Seq<Finding> {
    match checked(file, inputs, "retryPolicy"@) {
        Some(policy) => if !(policy.kind is Object) {
            wrong_type(
                file,
                base,
                "retryPolicy"@,
                policy.span,
                label + ".retryPolicy must be an object"@,
            )
        } else {
            retry_policy_object_findings(&policy, joined(base, "retryPolicy"@), label, bounds, file)
        },
        None => Seq::empty(),
    }
}

/// Validate `retryPolicy`: its `type` gates which fields are required, the
/// count is 1 to 90, and intervals are durations within the bounds, the minimum
/// at most the maximum.
pub fn validate_http_retry_policy(
    inputs: &Node,
    base: &str,
    label: &str,
    bounds: RetryPolicyIntervalBounds,
    file: &Document,
    diagnostics: &mut Vec<Diagnostic>,
)
    ensures
        findings(final(diagnostics)@) == findings(old(diagnostics)@)
            + retry_policy_findings(inputs, base@, label@, bounds, file),
{
    if let Some(policy) = get_checked(file, inputs, "retryPolicy") {
        if !policy.is_object() {
            let message = text2(label, ".retryPolicy must be an object");
            report_type(file, base, "retryPolicy", policy.span, message.as_str(), diagnostics);
        } else {
            let pointer = pointer_join(base, "retryPolicy");
            validate_retry_policy_object(
                policy,
                pointer.as_str(),
                label,
                bounds,
                file,
                diagnostics,
            );
        }
    }
}

/// What is wrong with the inputs that every HTTP action and trigger shares.
pub open spec fn http_inputs_findings(
    inputs: &Node,
    inputs_pointer: Seq<char>,
    label: Seq<char>,
    bounds: RetryPolicyIntervalBounds,
    file: &Document,
) -> Seq<Finding> {
    object_or_string_findings(inputs, inputs_pointer, "headers"@, label + ".headers"@, file)
        + object_or_expression_findings(
            inputs,
            inputs_pointer,
            "queries"@,
            label + ".queries"@,
            file,
        )
        + string_findings(inputs, inputs_pointer, "cookie"@, label + ".cookie"@, file)
        + string_findings(
            inputs,
            inputs_pointer,
            "operationOptions"@,
            label + ".operationOptions"@,
            file,
        )
        + unknown_options_findings(inputs, inputs_pointer, "action"@, file)
        + authentication_findings(inputs, inputs_pointer, label, file)
        + retry_policy_findings(inputs, inputs_pointer, label, bounds, file)
}

/// Validate the inputs that every HTTP action and trigger shares.
pub fn validate_http_inputs(
    inputs: &Node,
    inputs_pointer: &str,
    label: &str,
    bounds: RetryPolicyIntervalBounds,
    file: &Document,
    diagnostics: &mut Vec<Diagnostic>,
)
    ensures
        findings(final(diagnostics)@) == findings(old(diagnostics)@)
            + http_inputs_findings(inputs, inputs_pointer@, label@, bounds, file),
{
    {
        let label = text2(label, ".headers");
        validate_optional_object_or_string_field(
            inputs,
            inputs_pointer,
            "headers",
            label.as_str(),
            file,
            diagnostics,
        );
    }
    {
        let label = text2(label, ".queries");
        validate_optional_object_or_wdl_expression_field(
            inputs,
            inputs_pointer,
            "queries",
            label.as_str(),
            file,
            diagnostics,
        );
    }
    {
        let label = text2(label, ".cookie");
        validate_optional_string_field(
            inputs,
            inputs_pointer,
            "cookie",
            label.as_str(),
            file,
            diagnostics,
        );
    }
    {
        let label = text2(label, ".operationOptions");
        validate_optional_string_field(
            inputs,
            inputs_pointer,
            "operationOptions",
            label.as_str(),
            file,
            diagnostics,
        );
    }
    validate_operation_options_literal_values(inputs, inputs_pointer, "action", file, diagnostics);
    validate_http_authentication(inputs, inputs_pointer, label, file, diagnostics);
    validate_http_retry_policy(inputs, inputs_pointer, label, bounds, file, diagnostics);
}

/// What is wrong with the inputs of API management actions and triggers.
pub open spec fn api_management_findings(
    inputs: &Node,
    inputs_pointer: Seq<char>,
    bounds: RetryPolicyIntervalBounds,
    file: &Document,
) -> Seq<Finding> {
    object_field_findings(inputs, inputs_pointer, "api"@, file) + (match field(inputs, "api"@) {
        Some(api) => if api.kind is Object {
            let api_pointer = joined(inputs_pointer, "api"@);
            string_findings(&api, api_pointer, "id"@, "ApiManagement inputs.api.id"@, file)
                + string_findings(
                    &api,
                    api_pointer,
                    "name"@,
                    "ApiManagement inputs.api.name"@,
                    file,
                )
                + string_findings(
                    &api,
                    api_pointer,
                    "type"@,
                    "ApiManagement inputs.api.type"@,
                    file,
                )
        } else {
            Seq::empty()
        },
        None => Seq::empty(),
    }) + typed_field_findings(
        inputs,
        inputs_pointer,
        "pathTemplate"@,
        "ApiManagement inputs.pathTemplate must be present"@,
        Shape::Any,
        file,
    ) + enum_findings(
        inputs,
        inputs_pointer,
        "method"@,
        "ApiManagement inputs.method"@,
        request_method_names(),
        file,
    ) + string_findings(
        inputs,
        inputs_pointer,
        "subscriptionKey"@,
        "ApiManagement inputs.subscriptionKey"@,
        file,
    ) + http_inputs_findings(inputs, inputs_pointer, "ApiManagement inputs"@, bounds, file)
}

/// Validate the inputs of API management actions and triggers.
pub fn validate_api_management_inputs(
    inputs: &Node,
    inputs_pointer: &str,
    bounds: RetryPolicyIntervalBounds,
    file: &Document,
    diagnostics: &mut Vec<Diagnostic>,
)
    ensures
        findings(final(diagnostics)@) == findings(old(diagnostics)@)
            + api_management_findings(inputs, inputs_pointer@, bounds, file),
{
    require_object_field(inputs, inputs_pointer, "api", file, diagnostics);
    if let Some(api) = get(inputs, "api") {
        if api.is_object() {
            let api_pointer_text = pointer_join(inputs_pointer, "api");
            let api_pointer = api_pointer_text.as_str();
            validate_optional_string_field(
                api,
                api_pointer,
                "id",
                "ApiManagement inputs.api.id",
                file,
                diagnostics,
            );
            validate_optional_string_field(
                api,
                api_pointer,
                "name",
                "ApiManagement inputs.api.name",
                file,
                diagnostics,
            );
            validate_optional_string_field(
                api,
                api_pointer,
                "type",
                "ApiManagement inputs.api.type",
                file,
                diagnostics,
            );
        }
    }
    require_typed_field(
        inputs,
        inputs_pointer,
        "pathTemplate",
        "ApiManagement inputs.pathTemplate must be present",
        Shape::Any,
        file,
        diagnostics,
    );
    validate_optional_string_enum(
        inputs,
        inputs_pointer,
        "method",
        "ApiManagement inputs.method",
        request_method_list().as_slice(),
        file,
        diagnostics,
    );
    validate_optional_string_field(
        inputs,
        inputs_pointer,
        "subscriptionKey",
        "ApiManagement inputs.subscriptionKey",
        file,
        diagnostics,
    );
    validate_http_inputs(inputs, inputs_pointer, "ApiManagement inputs", bounds, file, diagnostics);
}

/// What is wrong with the URL of a webhook operation that may have none.
pub open spec fn optional_webhook_url_findings(
    operation: &Node,
    operation_pointer: Seq<char>,
    file: &Document,
) -> Seq<Finding> {
    (if field(operation, "uri"@) is Some {
        typed_field_findings(
            operation,
            operation_pointer,
            "uri"@,
            "webhook operation uri must be a string"@,
            Shape::Text,
            file,
        )
            + endpoint_findings(
                operation,
                operation_pointer,
                "uri"@,
                "webhook operation uri"@,
                file,
            )
    } else {
        Seq::empty()
    }) + (if field(operation, "url"@) is Some {
        typed_field_findings(
            operation,
            operation_pointer,
            "url"@,
            "webhook operation url must be a string"@,
            Shape::Text,
            file,
        )
            + endpoint_findings(
                operation,
                operation_pointer,
                "url"@,
                "webhook operation url"@,
                file,
            )
    } else {
        Seq::empty()
    })
}

/// Validate the URL of a webhook operation that may have none.
fn validate_optional_webhook_operation_url(
    operation: &Node,
    operation_pointer: &str,
    file: &Document,
    diagnostics: &mut Vec<Diagnostic>,
)
    ensures
        findings(final(diagnostics)@) == findings(old(diagnostics)@)
            + optional_webhook_url_findings(operation, operation_pointer@, file),
{
    if get(operation, "uri").is_some() {
        require_typed_field(
            operation,
            operation_pointer,
            "uri",
            "webhook operation uri must be a string",
            Shape::Text,
            file,
            diagnostics,
        );
        validate_http_endpoint_uri(
            operation,
            operation_pointer,
            "uri",
            "webhook operation uri",
            file,
            diagnostics,
        );
    }
    if get(operation, "url").is_some() {
        require_typed_field(
            operation,
            operation_pointer,
            "url",
            "webhook operation url must be a string",
            Shape::Text,
            file,
            diagnostics,
        );
        validate_http_endpoint_uri(
            operation,
            operation_pointer,
            "url",
            "webhook operation url",
            file,
            diagnostics,
        );
    }
}

/// What is wrong with the URL that a webhook operation needs: `uri`, or for
/// `unsubscribe` also `url`.
pub open spec fn webhook_url_findings(
    operation: &Node,
    operation_pointer: Seq<char>,
    key: Seq<char>,
    file: &Document,
) -> Seq<Finding> {
    if field(operation, "uri"@) is Some {
        typed_field_findings(
            operation,
            operation_pointer,
            "uri"@,
            "webhook operation uri must be a string"@,
            Shape::Text,
            file,
        )
            + endpoint_findings(
                operation,
                operation_pointer,
                "uri"@,
                "webhook operation uri"@,
                file,
            )
    } else {
        if same_ignoring_case(key, "unsubscribe"@) {
            if field(operation, "url"@) is Some {
                typed_field_findings(
                    operation,
                    operation_pointer,
                    "url"@,
                    "webhook operation url must be a string"@,
                    Shape::Text,
                    file,
                )
                    + endpoint_findings(
                        operation,
                        operation_pointer,
                        "url"@,
                        "webhook operation url"@,
                        file,
                    )
            } else {
                missing(
                    file,
                    operation_pointer,
                    "uri"@,
                    operation.span,
                    "object is missing required field 'uri' or 'url'"@,
                )
            }
        } else {
            missing(
                file,
                operation_pointer,
                "uri"@,
                operation.span,
                "object is missing required field 'uri'"@,
            )
        }
    }
}

/// Validate the URL that a webhook operation needs: `uri`, or for `unsubscribe` also `url`.
pub fn validate_webhook_operation_url(
    operation: &Node,
    operation_pointer: &str,
    key: &str,
    file: &Document,
    diagnostics: &mut Vec<Diagnostic>,
)
    ensures
        findings(final(diagnostics)@) == findings(old(diagnostics)@)
            + webhook_url_findings(operation, operation_pointer@, key@, file),
{
    if get(operation, "uri").is_some() {
        require_typed_field(
            operation,
            operation_pointer,
            "uri",
            "webhook operation uri must be a string",
            Shape::Text,
            file,
            diagnostics,
        );
        validate_http_endpoint_uri(
            operation,
            operation_pointer,
            "uri",
            "webhook operation uri",
            file,
            diagnostics,
        );
    } else {
        if eq_ignoring_case(key, "unsubscribe") {
            if get(operation, "url").is_some() {
                require_typed_field(
                    operation,
                    operation_pointer,
                    "url",
                    "webhook operation url must be a string",
                    Shape::Text,
                    file,
                    diagnostics,
                );
                validate_http_endpoint_uri(
                    operation,
                    operation_pointer,
                    "url",
                    "webhook operation url",
                    file,
                    diagnostics,
                );
            } else {
                report_missing(
                    file,
                    operation_pointer,
                    "uri",
                    operation.span,
                    "object is missing required field 'uri' or 'url'",
                    diagnostics,
                );
            }
        } else {
            report_missing(
                file,
                operation_pointer,
                "uri",
                operation.span,
                "object is missing required field 'uri'",
                diagnostics,
            );
        }
    }
}

/// What is wrong with a webhook operation object.
pub open spec fn webhook_object_findings(
    operation: &Node,
    operation_pointer: Seq<char>,
    key: Seq<char>,
    required: bool,
    bounds: RetryPolicyIntervalBounds,
    file: &Document,
) -> Seq<Finding> {
    (if required {
        required_enum_findings(
            operation,
            operation_pointer,
            "method"@,
            "webhook operation method"@,
            request_method_names(),
            file,
        )
            + webhook_url_findings(operation, operation_pointer, key, file)
    } else {
        enum_findings(
            operation,
            operation_pointer,
            "method"@,
            "webhook operation method"@,
            request_method_names(),
            file,
        )
            + optional_webhook_url_findings(operation, operation_pointer, file)
    }) + http_inputs_findings(operation, operation_pointer, "webhook "@ + key, bounds, file)
}

/// Validate a webhook operation object.
fn validate_webhook_object(
    operation: &Node,
    operation_pointer: &str,
    key: &str,
    required: bool,
    bounds: RetryPolicyIntervalBounds,
    file: &Document,
    diagnostics: &mut Vec<Diagnostic>,
)
    ensures
        findings(final(diagnostics)@) == findings(old(diagnostics)@)
            + webhook_object_findings(operation, operation_pointer@, key@, required, bounds, file),
{
    if required {
        validate_required_string_enum(
            operation,
            operation_pointer,
            "method",
            "webhook operation method",
            request_method_list().as_slice(),
            file,
            diagnostics,
        );
        validate_webhook_operation_url(operation, operation_pointer, key, file, diagnostics);
    } else {
        validate_optional_string_enum(
            operation,
            operation_pointer,
            "method",
            "webhook operation method",
            request_method_list().as_slice(),
            file,
            diagnostics,
        );
        validate_optional_webhook_operation_url(operation, operation_pointer, file, diagnostics);
    }
    let label = text2("webhook ", key);
    validate_http_inputs(operation, operation_pointer, label.as_str(), bounds, file, diagnostics);
}

/// What is wrong with one webhook operation, `subscribe` or `unsubscribe`.
pub open spec fn webhook_findings(
    inputs: &Node,
    inputs_pointer: Seq<char>,
    key: Seq<char>,
    required: bool,
    options: WebhookOperationOptions,
    file: &Document,
) -> Seq<Finding> {
    match field(inputs, key) {
        Some(operation) => if is_opaque(file, &operation) {
            Seq::empty()
        } else {
            if operation.kind is Object {
                webhook_object_findings(
                    &operation,
                    joined(inputs_pointer, key),
                    key,
                    required,
                    options.retry_bounds,
                    file,
                )
            } else {
                if options.string_operation is Allow {
                    if operation.kind is String {
                        Seq::empty()
                    } else {
                        wrong_type(
                            file,
                            inputs_pointer,
                            key,
                            operation.span,
                            "webhook "@ + key + " must be an object or string"@,
                        )
                    }
                } else {
                    wrong_type(
                        file,
                        inputs_pointer,
                        key,
                        operation.span,
                        "webhook "@ + key + " must be an object"@,
                    )
                }
            }
        },
        None => if required {
            missing(
                file,
                inputs_pointer,
                key,
                inputs.span,
                "object is missing required field '"@ + key + "'"@,
            )
        } else {
            Seq::empty()
        },
    }
}

/// Validate one webhook operation, `subscribe` or `unsubscribe`.
pub fn validate_webhook_operation(
    inputs: &Node,
    inputs_pointer: &str,
    key: &str,
    required: bool,
    options: WebhookOperationOptions,
    file: &Document,
    diagnostics: &mut Vec<Diagnostic>,
)
    ensures
        findings(final(diagnostics)@) == findings(old(diagnostics)@)
            + webhook_findings(inputs, inputs_pointer@, key@, required, options, file),
{
    match get(inputs, key) {
        Some(operation) => {
            if !is_opaque_arm_expression(file, operation) {
                if operation.is_object() {
                    let pointer = pointer_join(inputs_pointer, key);
                    validate_webhook_object(
                        operation,
                        pointer.as_str(),
                        key,
                        required,
                        options.retry_bounds,
                        file,
                        diagnostics,
                    );
                } else {
                    if matches!(options.string_operation, WebhookOperationString::Allow) {
                        if !operation.is_string() {
                            let message = text3("webhook ", key, " must be an object or string");
                            report_type(
                                file,
                                inputs_pointer,
                                key,
                                operation.span,
                                message.as_str(),
                                diagnostics,
                            );
                        }
                    } else {
                        let message = text3("webhook ", key, " must be an object");
                        report_type(
                            file,
                            inputs_pointer,
                            key,
                            operation.span,
                            message.as_str(),
                            diagnostics,
                        );
                    }
                }
            }
        },
        None => {
            if required {
                let message = text3("object is missing required field '", key, "'");
                report_missing(
                    file,
                    inputs_pointer,
                    key,
                    inputs.span,
                    message.as_str(),
                    diagnostics,
                );
            }
        },
    }
}
} // verus!
