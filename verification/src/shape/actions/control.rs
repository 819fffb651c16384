//! Shape validators for control-flow actions: `Foreach`, `Until`, `If`, `Scope`,
//! `Switch`, `Response`, `Terminate` and `Wait`. Besides field shapes they check
//! where an action may stand in the workflow.

use vstd::prelude::*;

use crate::diagnostic::{findings, Diagnostic, Finding};
use crate::json::{
    as_object, as_string, field, get, get_string, joined, pointer_join, text_field, text_of,
    Document, Json, Member, Node, Number,
};
use crate::shape::arm_boundary::{
    authored, checked, get_authored, get_checked, get_present, is_opaque, is_opaque_arm_expression,
    is_unresolved, present, resolved, static_json_value_from_spanned,
    unresolved_arm_expression_from_spanned,
};
use crate::shape::dynamic_wdl::{
    may_be_duration, may_be_positive_integer, wdl_string_has_dynamic_value,
    wdl_string_may_be_iso8601_duration, wdl_string_may_be_positive_integer,
};
use crate::shape::field_validators::{
    enum_findings, object_findings, object_or_string_findings, validate_optional_object_field,
    validate_optional_object_or_string_field, validate_optional_string_enum,
};
use crate::shape::graph::{
    action_is_nested_in_loop, in_loop, parallel_dependency, response_parallel_dependency,
    stateless_response_successor, successor_of,
};
use crate::shape::holes::{
    are_triggers_open, field_is_open, is_open_field, is_order_open_beside, order_is_open_beside,
    triggers_are_open,
};
use crate::shape::limits::{object_count_findings, validate_root_object_count};
use crate::shape::node_type::{type_is, node_type_is};
use crate::shape::numbers::{
    integer_or_integer_string_value, integer_or_spelled, is_expression_text, is_integer,
    is_integer_value, is_wdl_expression_string,
};
use crate::shape::report::{
    issue, missing, report, report_context, report_missing, report_type, report_value,
    wrong_context, wrong_type, wrong_value,
};
use crate::shape::required_fields::{
    field_findings, inputs_findings, inputs_of, object_field_findings, require_field,
    require_object_field, require_typed_field, required_inputs_object, typed_field_findings, Shape,
};
use crate::shape::time::{time_unit_names, time_units};
use crate::text::{
    chars_of, decimal, decimal_of_i64, eq_ignoring_case, names, owned, parse_i64,
    same_ignoring_case, spelled_i64, string_of_range, text3, text_eq,
};
use crate::wdl::value::is_dynamic;
use crate::workflow::{stateless, Workflow, node_of};
use crate::wdl::value::opens_with;

verus! {

broadcast use crate::diagnostic::group_findings;

pub open spec fn run_status_names() -> Seq<Seq<char>> {
    seq!["Cancelled"@, "Failed"@, "Succeeded"@]
}

fn run_status_list() -> (list: Vec<&'static str>)
    ensures
        names(list@) == run_status_names(),
{
    let list = vec!["Cancelled", "Failed", "Succeeded"];
    assert(names(list@) =~= run_status_names());
    list
}

/// What is wrong with what a loop runs over: an expression string or an array.
pub open spec fn foreach_expression_findings(
    action: &Node,
    action_pointer: Seq<char>,
    file: &Document,
) -> Seq<Finding> {
    match field(action, "foreach"@) {
        Some(value) => if value.kind is String || value.kind is Array {
            Seq::empty()
        } else {
            wrong_type(
                file,
                action_pointer,
                "foreach"@,
                value.span,
                "Foreach.foreach must be a string or array"@,
            )
        },
        None => Seq::empty(),
    }
}

/// Validate what a loop runs over: an expression string or an array.
pub fn validate_foreach_expression(
    action: &Node,
    action_pointer: &str,
    file: &Document,
    diagnostics: &mut Vec<Diagnostic>,
)
    ensures
        findings(final(diagnostics)@) == findings(old(diagnostics)@)
            + foreach_expression_findings(action, action_pointer@, file),
{
    if let Some(value) = get(action, "foreach") {
        if !(value.is_string() || value.is_array()) {
            report_type(
                file,
                action_pointer,
                "foreach",
                value.span,
                "Foreach.foreach must be a string or array",
                diagnostics,
            );
        }
    }
}

/// What is wrong with a `Foreach` action.
pub open spec fn foreach_action_findings(
    action: &Node,
    action_pointer: Seq<char>,
    file: &Document,
) -> Seq<Finding> {
    field_findings(action, action_pointer, "foreach"@, file)
        + foreach_expression_findings(action, action_pointer, file)
        + object_field_findings(action, action_pointer, "actions"@, file)
}

/// Validate a `Foreach` action.
pub fn validate_foreach_action(
    action: &Node,
    action_pointer: &str,
    file: &Document,
    diagnostics: &mut Vec<Diagnostic>,
)
    ensures
        findings(final(diagnostics)@) == findings(old(diagnostics)@)
            + foreach_action_findings(action, action_pointer@, file),
{
    require_field(action, action_pointer, "foreach", file, diagnostics);
    validate_foreach_expression(action, action_pointer, file, diagnostics);
    require_object_field(action, action_pointer, "actions", file, diagnostics);
}

/// What is wrong with the condition of an `Until` action.
pub open spec fn until_expression_findings(
    action: &Node,
    action_pointer: Seq<char>,
    file: &Document,
) -> Seq<Finding> {
    match field(action, "expression"@) {
        Some(value) => if value.kind is String {
            Seq::empty()
        } else {
            wrong_type(
                file,
                action_pointer,
                "expression"@,
                value.span,
                "Until expression must be a string"@,
            )
        },
        None => Seq::empty(),
    }
}

/// Validate the condition of an `Until` action.
pub fn validate_until_expression(
    action: &Node,
    action_pointer: &str,
    file: &Document,
    diagnostics: &mut Vec<Diagnostic>,
)
    ensures
        findings(final(diagnostics)@) == findings(old(diagnostics)@)
            + until_expression_findings(action, action_pointer@, file),
{
    if let Some(value) = get(action, "expression") {
        if !value.is_string() {
            report_type(
                file,
                action_pointer,
                "expression",
                value.span,
                "Until expression must be a string",
                diagnostics,
            );
        }
    }
}

/// What is wrong with the `limit` that an `Until` action needs.
pub open spec fn until_limit_required_findings(
    action: &Node,
    action_pointer: Seq<char>,
    file: &Document,
) -> Seq<Finding> {
    if present(file, action, "limit"@) is None {
        missing(
            file,
            action_pointer,
            "limit"@,
            action.span,
            "action is missing required field 'limit'"@,
        )
    } else {
        Seq::empty()
    }
}

/// Validate the `limit` that an `Until` action needs.
fn require_until_limit_field(
    action: &Node,
    action_pointer: &str,
    file: &Document,
    diagnostics: &mut Vec<Diagnostic>,
)
    ensures
        findings(final(diagnostics)@) == findings(old(diagnostics)@)
            + until_limit_required_findings(action, action_pointer@, file),
{
    if get_present(file, action, "limit").is_none() {
        report_missing(
            file,
            action_pointer,
            "limit",
            action.span,
            "action is missing required field 'limit'",
            diagnostics,
        );
    }
}

fn text_may_be_positive(value: &Node) -> (may: bool)
    ensures
        may == (text_of(value) is Some && may_be_positive_integer(text_of(value)->Some_0)),
{
    match as_string(value) {
        Some(text) => wdl_string_may_be_positive_integer(text),
        None => false,
    }
}

/// What is wrong with the iteration count of a limit.
pub open spec fn until_count_findings(
    limit: &Node,
    limit_pointer: Seq<char>,
    stateless: bool,
    file: &Document,
) -> Seq<Finding> {
    match checked(file, limit, "count"@) {
        Some(
            count,
        ) => (if is_integer(&count)
            || integer_or_spelled(&count) is Some
            || (text_of(&count) is Some && may_be_positive_integer(text_of(&count)->Some_0)) {
            Seq::empty()
        } else {
            wrong_type(
                file,
                limit_pointer,
                "count"@,
                count.span,
                "Until limit.count must be an integer"@,
            )
        }) + (match integer_or_spelled(&count) {
            Some(value) => if value < 1 || value > (if stateless { 100int } else { 5000 }) {
                wrong_value(
                    file,
                    limit_pointer,
                    "count"@,
                    count.span,
                    "Until limit.count value "@ + decimal(value) + " is out of range"@,
                )
            } else {
                Seq::empty()
            },
            None => Seq::empty(),
        }),
        None => Seq::empty(),
    }
}

/// Validate the iteration count of a limit.
fn validate_until_count(
    limit: &Node,
    limit_pointer: &str,
    stateless: bool,
    file: &Document,
    diagnostics: &mut Vec<Diagnostic>,
)
    ensures
        findings(final(diagnostics)@) == findings(old(diagnostics)@)
            + until_count_findings(limit, limit_pointer@, stateless, file),
{
    if let Some(count) = get_checked(file, limit, "count") {
        if !(
            is_integer_value(count)
                || integer_or_integer_string_value(count).is_some()
                || text_may_be_positive(count)
        ) {
            report_type(
                file,
                limit_pointer,
                "count",
                count.span,
                "Until limit.count must be an integer",
                diagnostics,
            );
        }
        if let Some(value) = integer_or_integer_string_value(count) {
            if value < 1 || value > (if stateless { 100 } else { 5000 }) {
                let message = text3(
                    "Until limit.count value ",
                    decimal_of_i64(value).as_str(),
                    " is out of range",
                );
                report_value(
                    file,
                    limit_pointer,
                    "count",
                    count.span,
                    message.as_str(),
                    diagnostics,
                );
            }
        }
    }
}

/// What is wrong with the timeout of a limit.
pub open spec fn until_timeout_findings(
    limit: &Node,
    limit_pointer: Seq<char>,
    file: &Document,
) -> Seq<Finding> {
    match checked(file, limit, "timeout"@) {
        Some(timeout) => match text_of(&timeout) {
            Some(text) => if may_be_duration(text) {
                Seq::empty()
            } else {
                wrong_value(
                    file,
                    limit_pointer,
                    "timeout"@,
                    timeout.span,
                    "Until limit.timeout must be an ISO 8601 duration"@,
                )
            },
            None => wrong_type(
                file,
                limit_pointer,
                "timeout"@,
                timeout.span,
                "Until limit.timeout must be a string"@,
            ),
        },
        None => Seq::empty(),
    }
}

/// Validate the timeout of a limit.
fn validate_until_timeout(
    limit: &Node,
    limit_pointer: &str,
    file: &Document,
    diagnostics: &mut Vec<Diagnostic>,
)
    ensures
        findings(final(diagnostics)@) == findings(old(diagnostics)@)
            + until_timeout_findings(limit, limit_pointer@, file),
{
    if let Some(timeout) = get_checked(file, limit, "timeout") {
        match as_string(timeout) {
            Some(text) => {
                if !wdl_string_may_be_iso8601_duration(text) {
                    report_value(
                        file,
                        limit_pointer,
                        "timeout",
                        timeout.span,
                        "Until limit.timeout must be an ISO 8601 duration",
                        diagnostics,
                    );
                }
            },
            None => {
                report_type(
                    file,
                    limit_pointer,
                    "timeout",
                    timeout.span,
                    "Until limit.timeout must be a string",
                    diagnostics,
                );
            },
        }
    }
}

/// What is wrong with the limit of an `Until` action.
pub open spec fn until_limit_findings(
    action: &Node,
    action_pointer: Seq<char>,
    file: &Document,
    stateless: bool,
) -> Seq<Finding> {
    match checked(file, action, "limit"@) {
        Some(limit) => if limit.kind is Object {
            let limit_pointer = joined(action_pointer, "limit"@);
            (if field(&limit, "count"@) is None && field(&limit, "timeout"@) is None {
                issue(
                    file,
                    "workflow-shape-missing-field"@,
                    limit_pointer,
                    Some(limit.span),
                    "Until limit must define 'count' or 'timeout'"@,
                )
            } else {
                Seq::empty()
            }) + until_count_findings(
                &limit,
                limit_pointer,
                stateless,
                file,
            ) + until_timeout_findings(&limit, limit_pointer, file)
        } else {
            Seq::empty()
        },
        None => Seq::empty(),
    }
}

/// Validate the limit of an `Until` action: a count of 1 to 100 in Stateless
/// workflows and 1 to 5000 elsewhere, or an ISO 8601 timeout.
pub fn validate_until_limit(
    action: &Node,
    action_pointer: &str,
    file: &Document,
    stateless: bool,
    diagnostics: &mut Vec<Diagnostic>,
)
    ensures
        findings(final(diagnostics)@) == findings(old(diagnostics)@)
            + until_limit_findings(action, action_pointer@, file, stateless),
{
    if let Some(limit) = get_checked(file, action, "limit") {
        if limit.is_object() {
            let limit_pointer_text = pointer_join(action_pointer, "limit");
            let limit_pointer = limit_pointer_text.as_str();
            if get(limit, "count").is_none() && get(limit, "timeout").is_none() {
                report(
                    file,
                    "workflow-shape-missing-field",
                    limit_pointer,
                    Some(limit.span),
                    "Until limit must define 'count' or 'timeout'",
                    diagnostics,
                );
            }
            validate_until_count(limit, limit_pointer, stateless, file, diagnostics);
            validate_until_timeout(limit, limit_pointer, file, diagnostics);
        }
    }
}

/// What is wrong with an `Until` action.
pub open spec fn until_action_findings(
    action: &Node,
    action_pointer: Seq<char>,
    file: &Document,
    workflow: &Workflow,
) -> Seq<Finding> {
    field_findings(action, action_pointer, "expression"@, file)
        + until_expression_findings(action, action_pointer, file)
        + object_field_findings(action, action_pointer, "actions"@, file)
        + until_limit_required_findings(action, action_pointer, file)
        + until_limit_findings(action, action_pointer, file, stateless(workflow))
}

/// Validate an `Until` action.
pub fn validate_until_action_with_workflow(
    action: &Node,
    action_pointer: &str,
    file: &Document,
    workflow: &Workflow,
    diagnostics: &mut Vec<Diagnostic>,
)
    ensures
        findings(final(diagnostics)@) == findings(old(diagnostics)@)
            + until_action_findings(action, action_pointer@, file, workflow),
{
    require_field(action, action_pointer, "expression", file, diagnostics);
    validate_until_expression(action, action_pointer, file, diagnostics);
    require_object_field(action, action_pointer, "actions", file, diagnostics);
    require_until_limit_field(action, action_pointer, file, diagnostics);
    validate_until_limit(action, action_pointer, file, workflow.is_stateless(), diagnostics);
}

/// What is wrong with the condition of an `If` action.
pub open spec fn if_expression_findings(
    action: &Node,
    action_pointer: Seq<char>,
    file: &Document,
) -> Seq<Finding> {
    match field(action, "expression"@) {
        Some(value) => if value.kind is String || value.kind is Object {
            Seq::empty()
        } else {
            wrong_type(
                file,
                action_pointer,
                "expression"@,
                value.span,
                "If expression must be a string or object"@,
            )
        },
        None => Seq::empty(),
    }
}

/// Validate the condition of an `If` action.
pub fn validate_if_expression(
    action: &Node,
    action_pointer: &str,
    file: &Document,
    diagnostics: &mut Vec<Diagnostic>,
)
    ensures
        findings(final(diagnostics)@) == findings(old(diagnostics)@)
            + if_expression_findings(action, action_pointer@, file),
{
    if let Some(value) = get(action, "expression") {
        if !(value.is_string() || value.is_object()) {
            report_type(
                file,
                action_pointer,
                "expression",
                value.span,
                "If expression must be a string or object",
                diagnostics,
            );
        }
    }
}

/// What is wrong with an `If` action.
pub open spec fn if_action_findings(
    action: &Node,
    action_pointer: Seq<char>,
    file: &Document,
) -> Seq<Finding> {
    field_findings(action, action_pointer, "expression"@, file)
        + if_expression_findings(action, action_pointer, file)
        + object_field_findings(action, action_pointer, "actions"@, file)
        + (match checked(file, action, "else"@) {
        Some(branch) => {
            let else_pointer = joined(action_pointer, "else"@);
            object_field_findings(&branch, else_pointer, "actions"@, file)
        },
        None => Seq::empty(),
    })
}

/// Validate an `If` action, whose `else` branch needs actions too.
pub fn validate_if_action(
    action: &Node,
    action_pointer: &str,
    file: &Document,
    diagnostics: &mut Vec<Diagnostic>,
)
    ensures
        findings(final(diagnostics)@) == findings(old(diagnostics)@)
            + if_action_findings(action, action_pointer@, file),
{
    require_field(action, action_pointer, "expression", file, diagnostics);
    validate_if_expression(action, action_pointer, file, diagnostics);
    require_object_field(action, action_pointer, "actions", file, diagnostics);
    if let Some(branch) = get_checked(file, action, "else") {
        let else_pointer_text = pointer_join(action_pointer, "else");
        let else_pointer = else_pointer_text.as_str();
        require_object_field(branch, else_pointer, "actions", file, diagnostics);
    }
}

/// What is wrong with a `Scope` action.
pub open spec fn scope_action_findings(
    action: &Node,
    action_pointer: Seq<char>,
    file: &Document,
) -> Seq<Finding> {
    object_field_findings(action, action_pointer, "actions"@, file)
}

/// Validate a `Scope` action.
pub fn validate_scope_action(
    action: &Node,
    action_pointer: &str,
    file: &Document,
    diagnostics: &mut Vec<Diagnostic>,
)
    ensures
        findings(final(diagnostics)@) == findings(old(diagnostics)@)
            + scope_action_findings(action, action_pointer@, file),
{
    require_object_field(action, action_pointer, "actions", file, diagnostics);
}

/// What is wrong with what a `Switch` action selects by.
pub open spec fn switch_expression_findings(
    action: &Node,
    action_pointer: Seq<char>,
    file: &Document,
) -> Seq<Finding> {
    match field(action, "expression"@) {
        Some(value) => if value.kind is String || value.kind is Number {
            Seq::empty()
        } else {
            wrong_type(
                file,
                action_pointer,
                "expression"@,
                value.span,
                "Switch expression must be a string or number"@,
            )
        },
        None => Seq::empty(),
    }
}

/// Validate what a `Switch` action selects by.
pub fn validate_switch_expression(
    action: &Node,
    action_pointer: &str,
    file: &Document,
    diagnostics: &mut Vec<Diagnostic>,
)
    ensures
        findings(final(diagnostics)@) == findings(old(diagnostics)@)
            + switch_expression_findings(action, action_pointer@, file),
{
    if let Some(value) = get(action, "expression") {
        if !(value.is_string() || value.is_number()) {
            report_type(
                file,
                action_pointer,
                "expression",
                value.span,
                "Switch expression must be a string or number",
                diagnostics,
            );
        }
    }
}

/// Both texts spell zero.
pub open spec fn are_zeros(left: Seq<char>, right: Seq<char>) -> bool {
    (left == "0.0"@ || left == "-0.0"@) && (right == "0.0"@ || right == "-0.0"@)
}

/// The same JSON content, spans aside.
pub open spec fn same_json(left: &Json, right: &Json) -> bool
    decreases left, 0nat,
{
    match (left, right) {
        (Json::Null, Json::Null) => true,
        (Json::Bool(l), Json::Bool(r)) => l == r,
        (Json::Number(Number::PosInt(l)), Json::Number(Number::PosInt(r))) => l == r,
        (Json::Number(Number::NegInt(l)), Json::Number(Number::NegInt(r))) => l == r,
        (Json::Number(Number::Float(l)), Json::Number(Number::Float(r))) => l@ == r@
            || are_zeros(l@, r@),
        (Json::String(l), Json::String(r)) => l@ == r@,
        (Json::Array(l), Json::Array(r)) => l@.len() == r@.len() && same_items(*l, *r, l@.len()),
        (Json::Object(l), Json::Object(r)) => l@.len() == r@.len()
            && same_members(*l, *r, l@.len()),
        _ => false,
    }
}

pub open spec fn same_items(left: Vec<Node>, right: Vec<Node>, n: nat) -> bool
    decreases left, n,
{
    n == 0
        || (
            n <= left@.len()
                && n <= right@.len()
                && same_items(left, right, (n - 1) as nat)
                && same_json(&left[n - 1].kind, &right[n - 1].kind)
        )
}

/// Each of the first `n` members of `left` has one of its name and content in
/// `right`: the order of members does not count.
pub open spec fn same_members(left: Vec<Member>, right: Vec<Member>, n: nat) -> bool
    decreases left, n,
{
    n == 0
        || (
            n <= left@.len()
                && same_members(left, right, (n - 1) as nat)
                && has_same_member(left[n - 1], right, right@.len())
        )
}

/// One of the first `n` members of `list` has the name and the content of `member`.
pub open spec fn has_same_member(member: Member, list: Vec<Member>, n: nat) -> bool
    decreases member, n,
{
    0 < n <= list@.len()
        && (
            (member.name@ == list[n - 1].name@
                && same_json(&member.value.kind, &list[n - 1].value.kind))
                || has_same_member(member, list, (n - 1) as nat)
        )
}

fn json_eq(left: &Json, right: &Json) -> (same: bool)
    ensures
        same == same_json(left, right),
    decreases left,
{
    match (left, right) {
        (Json::Null, Json::Null) => true,
        (Json::Bool(l), Json::Bool(r)) => *l == *r,
        (Json::Number(Number::PosInt(l)), Json::Number(Number::PosInt(r))) => *l == *r,
        (Json::Number(Number::NegInt(l)), Json::Number(Number::NegInt(r))) => *l == *r,
        (
            Json::Number(Number::Float(l)),
            Json::Number(Number::Float(r)),
        ) => text_eq(l.as_str(), r.as_str())
            || (spells_zero(l.as_str()) && spells_zero(r.as_str())),
        (Json::String(l), Json::String(r)) => text_eq(l.as_str(), r.as_str()),
        (Json::Array(l), Json::Array(r)) => l.len() == r.len() && items_eq(l, r),
        (Json::Object(l), Json::Object(r)) => l.len() == r.len() && members_eq(l, r),
        _ => false,
    }
}

fn spells_zero(text: &str) -> (holds: bool)
    ensures
        holds == (text@ == "0.0"@ || text@ == "-0.0"@),
{
    text_eq(text, "0.0") || text_eq(text, "-0.0")
}

proof fn lemma_items_differ(left: Vec<Node>, right: Vec<Node>, n: nat, m: nat)
    requires
        n <= m,
        !same_items(left, right, n),
    ensures
        !same_items(left, right, m),
    decreases m,
{
    if n < m {
        lemma_items_differ(left, right, n, (m - 1) as nat);
    }
}

proof fn lemma_members_differ(left: Vec<Member>, right: Vec<Member>, n: nat, m: nat)
    requires
        n <= m,
        !same_members(left, right, n),
    ensures
        !same_members(left, right, m),
    decreases m,
{
    if n < m {
        lemma_members_differ(left, right, n, (m - 1) as nat);
    }
}

fn items_eq(left: &Vec<Node>, right: &Vec<Node>) -> (same: bool)
    requires
        left@.len() == right@.len(),
    ensures
        same == same_items(*left, *right, left@.len()),
    decreases left,
{
    let mut i: usize = 0;
    while i < left.len()
        invariant
            i <= left@.len(),
            left@.len() == right@.len(),
            same_items(*left, *right, i as nat),
        decreases left@.len() - i,
    {
        assert(decreases_to!(left => left[i as int]));
        if !json_eq(&left[i].kind, &right[i].kind) {
            proof {
                lemma_items_differ(*left, *right, (i + 1) as nat, left@.len());
            }
            return false;
        }
        i += 1;
    }
    true
}

fn has_member_eq(member: &Member, list: &Vec<Member>) -> (found: bool)
    ensures
        found == has_same_member(*member, *list, list@.len()),
    decreases member,
{
    let mut i: usize = list.len();
    while i > 0
        invariant
            i <= list@.len(),
            has_same_member(*member, *list, list@.len()) == has_same_member(
                *member,
                *list,
                i as nat,
            ),
        decreases i,
    {
        i -= 1;
        if text_eq(member.name.as_str(), list[i].name.as_str()) && json_eq(
            &member.value.kind,
            &list[i].value.kind,
        ) {
            return true;
        }
    }
    false
}

fn members_eq(left: &Vec<Member>, right: &Vec<Member>) -> (same: bool)
    ensures
        same == same_members(*left, *right, left@.len()),
    decreases left,
{
    let mut i: usize = 0;
    while i < left.len()
        invariant
            i <= left@.len(),
            same_members(*left, *right, i as nat),
        decreases left@.len() - i,
    {
        assert(decreases_to!(left => left[i as int]));
        if !has_member_eq(&left[i], right) {
            proof {
                lemma_members_differ(*left, *right, (i + 1) as nat, left@.len());
            }
            return false;
        }
        i += 1;
    }
    true
}

/// The value that a case compares with: what it resolves to, or itself.
pub open spec fn compared(value: &Node, file: &Document) -> Node {
    match resolved(file, value, &file.arm) {
        Some(result) => result,
        None => *value,
    }
}

/// A case value that depends on evaluation at run time.
pub open spec fn is_dynamic_case(value: &Node, file: &Document) -> bool {
    match text_of(&compared(value, file)) {
        Some(text) => is_dynamic(text),
        None => false,
    }
}

/// A text without the escape of a leading `@`.
pub open spec fn unescaped_text(text: Seq<char>) -> Seq<char> {
    if opens_with(text, '@', '@') { text.skip(1) } else { text }
}

/// Two case values select the same branch.
pub open spec fn same_case(left: &Node, right: &Node, file: &Document) -> bool {
    let l = compared(left, file);
    let r = compared(right, file);
    match (text_of(&l), text_of(&r)) {
        (Some(a), Some(b)) => unescaped_text(a) == unescaped_text(b),
        _ => same_json(&l.kind, &r.kind),
    }
}

/// The static value of a case, unless the case is malformed or only a
/// deployment gives the value.
pub open spec fn static_case(case: &Node, file: &Document) -> Option<Node> {
    if case.kind is Object {
        match field(case, "case"@) {
            Some(value) => if is_unresolved(file, &value) || is_dynamic_case(
                &value,
                file,
            ) { None } else { Some(value) },
            None => None,
        }
    } else {
        None
    }
}

/// The first of `seen` whose case has the same value.
pub open spec fn first_same(
    members: Seq<Member>,
    seen: Seq<int>,
    value: &Node,
    file: &Document,
    from: int,
) -> Option<int>
    decreases seen.len() - from,
{
    if from < 0 || from >= seen.len() {
        None
    } else if static_case(&members[seen[from]].value, file) is Some && same_case(
        &static_case(&members[seen[from]].value, file)->Some_0,
        value,
        file,
    ) {
        Some(seen[from])
    } else {
        first_same(members, seen, value, file, from + 1)
    }
}

/// The positions among the first `n` cases that bring a new value.
pub open spec fn distinct_cases(members: Seq<Member>, n: nat, file: &Document) -> Seq<int>
    decreases n,
{
    if n == 0 {
        Seq::empty()
    } else {
        let seen = distinct_cases(members, (n - 1) as nat, file);
        match static_case(&members[n - 1].value, file) {
            Some(value) => if first_same(
                members,
                seen,
                &value,
                file,
                0,
            ) is None { seen.push(n - 1) } else { seen },
            None => seen,
        }
    }
}

/// What is wrong with one case, given the positions of the cases before it
/// that brought new values. What only a deployment gives is not judged.
pub open spec fn case_findings(
    members: Seq<Member>,
    seen: Seq<int>,
    case: &Node,
    base: Seq<char>,
    name: Seq<char>,
    file: &Document,
) -> Seq<Finding> {
    let pointer = joined(base, name);
    if is_opaque(file, case) {
        Seq::empty()
    } else if !(case.kind is Object) {
        wrong_type(file, base, name, case.span, "Switch case entries must be objects"@)
    } else {
        field_findings(case, pointer, "case"@, file) + match field(case, "case"@) {
            Some(value) => if is_unresolved(file, &value) {
                Seq::empty()
            } else if is_dynamic_case(&value, file) {
                wrong_value(
                    file,
                    pointer,
                    "case"@,
                    value.span,
                    "Switch case values must be static"@,
                )
            } else {
                match first_same(members, seen, &value, file, 0) {
                    Some(before) => wrong_value(
                        file,
                        pointer,
                        "case"@,
                        value.span,
                        "Switch case value duplicates case '"@ + members[before].name@ + "'"@,
                    ),
                    None => Seq::empty(),
                }
            },
            None => Seq::empty(),
        }
    }
}

/// What is wrong with the first `n` cases.
pub open spec fn case_list_findings(
    members: Seq<Member>,
    n: nat,
    base: Seq<char>,
    file: &Document,
) -> Seq<Finding>
    decreases n,
{
    if n == 0 {
        Seq::empty()
    } else {
        case_list_findings(members, (n - 1) as nat, base, file)
            + case_findings(
                members,
                distinct_cases(members, (n - 1) as nat, file),
                &members[n - 1].value,
                base,
                members[n - 1].name@,
                file,
            )
    }
}

/// What is wrong with the cases of a `Switch` action.
pub open spec fn switch_cases_findings(
    action: &Node,
    action_pointer: Seq<char>,
    file: &Document,
) -> Seq<Finding> {
    match field(action, "cases"@) {
        Some(cases) => {
            let base = joined(action_pointer, "cases"@);
            object_count_findings(&cases, base, "Switch cases"@, 25, file) + match cases.kind {
                Json::Object(members) => case_list_findings(members@, members@.len(), base, file),
                _ => Seq::empty(),
            }
        },
        None => Seq::empty(),
    }
}

fn compared_value<'a>(value: &'a Node, file: &'a Document) -> (result: &'a Node)
    ensures
        *result == compared(value, file),
{
    match static_json_value_from_spanned(file, value) {
        Some(result) => result,
        None => value,
    }
}

fn switch_case_value_is_dynamic(value: &Node, file: &Document) -> (holds: bool)
    ensures
        holds == is_dynamic_case(value, file),
{
    match as_string(compared_value(value, file)) {
        Some(text) => wdl_string_has_dynamic_value(text),
        None => false,
    }
}

fn unescape_text(text: &str) -> (plain: String)
    ensures
        plain@ == unescaped_text(text@),
{
    let chars = chars_of(text);
    if chars.len() > 1 && chars[0] == '@' && chars[1] == '@' {
        let plain = string_of_range(chars.as_slice(), 1, chars.len());
        assert(plain@ =~= text@.skip(1));
        plain
    } else {
        owned(text)
    }
}

fn switch_cases_equal(left: &Node, right: &Node, file: &Document) -> (same: bool)
    ensures
        same == same_case(left, right, file),
{
    let l = compared_value(left, file);
    let r = compared_value(right, file);
    match (as_string(l), as_string(r)) {
        (Some(a), Some(b)) => text_eq(unescape_text(a).as_str(), unescape_text(b).as_str()),
        _ => json_eq(&l.kind, &r.kind),
    }
}

spec fn positions(seen: Seq<usize>) -> Seq<int> {
    Seq::new(seen.len(), |i: int| seen[i] as int)
}

fn get_static_case<'a>(case: &'a Node, file: &Document) -> (found: Option<&'a Node>)
    ensures
        match found {
            Some(value) => static_case(case, file) == Some(*value),
            None => static_case(case, file) is None,
        },
{
    if !case.is_object() {
        return None;
    }
    match get(case, "case") {
        Some(value) => if unresolved_arm_expression_from_spanned(file, value)
            || switch_case_value_is_dynamic(value, file) { None } else { Some(value) },
        None => None,
    }
}

fn find_same_case(
    members: &Vec<Member>,
    seen: &Vec<usize>,
    value: &Node,
    file: &Document,
) -> (found: Option<usize>)
    requires
        forall|i: int| 0 <= i < seen@.len() ==> #[trigger] seen@[i] < members@.len(),
    ensures
        match found {
            Some(at) => first_same(members@, positions(seen@), value, file, 0) == Some(at as int)
                && at < members@.len(),
            None => first_same(members@, positions(seen@), value, file, 0) is None,
        },
{
    let mut i: usize = 0;
    while i < seen.len()
        invariant
            i <= seen@.len(),
            forall|j: int| 0 <= j < seen@.len() ==> #[trigger] seen@[j] < members@.len(),
            first_same(members@, positions(seen@), value, file, 0) == first_same(
                members@,
                positions(seen@),
                value,
                file,
                i as int,
            ),
        decreases seen@.len() - i,
    {
        assert(seen@[i as int] < members@.len());
        let at = seen[i];
        if let Some(before) = get_static_case(&members[at].value, file) {
            if switch_cases_equal(before, value, file) {
                return Some(at);
            }
        }
        i += 1;
    }
    None
}

fn validate_case(
    members: &Vec<Member>,
    seen: &mut Vec<usize>,
    index: usize,
    base: &str,
    file: &Document,
    diagnostics: &mut Vec<Diagnostic>,
)
    requires
        index < members@.len(),
        forall|i: int| 0 <= i < old(seen)@.len() ==> #[trigger] old(seen)@[i] < members@.len(),
        positions(old(seen)@) == distinct_cases(members@, index as nat, file),
    ensures
        forall|i: int| 0 <= i < final(seen)@.len() ==> #[trigger] final(seen)@[i] < members@.len(),
        positions(final(seen)@) == distinct_cases(members@, (index + 1) as nat, file),
        findings(final(diagnostics)@) == findings(old(diagnostics)@)
            + case_findings(
                members@,
                distinct_cases(members@, index as nat, file),
                &members@[index as int].value,
                base@,
                members@[index as int].name@,
                file,
            ),
{
    let case = &members[index].value;
    let name = members[index].name.as_str();
    if is_opaque_arm_expression(file, case) {
        return;
    }
    if !case.is_object() {
        report_type(
            file,
            base,
            name,
            case.span,
            "Switch case entries must be objects",
            diagnostics,
        );
        return;
    }
    let pointer = pointer_join(base, name);
    require_field(case, pointer.as_str(), "case", file, diagnostics);
    if let Some(value) = get(case, "case") {
        if unresolved_arm_expression_from_spanned(file, value) {
            return;
        }
        if switch_case_value_is_dynamic(value, file) {
            report_value(
                file,
                pointer.as_str(),
                "case",
                value.span,
                "Switch case values must be static",
                diagnostics,
            );
            return;
        }
        match find_same_case(members, seen, value, file) {
            Some(before) => {
                let message = text3(
                    "Switch case value duplicates case '",
                    members[before].name.as_str(),
                    "'",
                );
                report_value(
                    file,
                    pointer.as_str(),
                    "case",
                    value.span,
                    message.as_str(),
                    diagnostics,
                );
            },
            None => {
                let ghost earlier = positions(seen@);
                seen.push(index);
                assert(positions(seen@) =~= earlier.push(index as int));
            },
        }
    }
}

/// Validate the cases of a `Switch` action: at most 25, each value static and
/// unlike those before it.
pub fn validate_switch_cases(
    action: &Node,
    action_pointer: &str,
    file: &Document,
    diagnostics: &mut Vec<Diagnostic>,
)
    ensures
        findings(final(diagnostics)@) == findings(old(diagnostics)@)
            + switch_cases_findings(action, action_pointer@, file),
{
    if let Some(cases) = get(action, "cases") {
        let pointer = pointer_join(action_pointer, "cases");
        let base = pointer.as_str();
        validate_root_object_count(cases, base, "Switch cases", 25, file, diagnostics);
        if let Some(members) = as_object(cases) {
            let ghost before = findings(diagnostics@);
            let mut seen: Vec<usize> = Vec::new();
            assert(positions(seen@) =~= Seq::<int>::empty());
            let mut i: usize = 0;
            while i < members.len()
                invariant
                    i <= members@.len(),
                    forall|j: int| 0 <= j < seen@.len() ==> #[trigger] seen@[j] < members@.len(),
                    positions(seen@) == distinct_cases(members@, i as nat, file),
                    findings(diagnostics@) == before
                        + case_list_findings(members@, i as nat, base@, file),
                decreases members@.len() - i,
            {
                validate_case(members, &mut seen, i, base, file, diagnostics);
                i += 1;
            }
        }
    }
}

/// What is wrong with a `Switch` action.
pub open spec fn switch_action_findings(
    action: &Node,
    action_pointer: Seq<char>,
    file: &Document,
) -> Seq<Finding> {
    field_findings(action, action_pointer, "expression"@, file)
        + object_field_findings(action, action_pointer, "cases"@, file)
        + switch_expression_findings(action, action_pointer, file)
        + switch_cases_findings(action, action_pointer, file)
        + (match field(action, "default"@) {
        Some(branch) => object_findings(action, action_pointer, "default"@, "Switch default"@, file)
            + ({
            let default_pointer = joined(action_pointer, "default"@);
            object_findings(&branch, default_pointer, "actions"@, "Switch default actions"@, file)
        }),
        None => Seq::empty(),
    })
}

/// Validate a `Switch` action.
pub fn validate_switch_action(
    action: &Node,
    action_pointer: &str,
    file: &Document,
    diagnostics: &mut Vec<Diagnostic>,
)
    ensures
        findings(final(diagnostics)@) == findings(old(diagnostics)@)
            + switch_action_findings(action, action_pointer@, file),
{
    require_field(action, action_pointer, "expression", file, diagnostics);
    require_object_field(action, action_pointer, "cases", file, diagnostics);
    validate_switch_expression(action, action_pointer, file, diagnostics);
    validate_switch_cases(action, action_pointer, file, diagnostics);
    if let Some(branch) = get(action, "default") {
        validate_optional_object_field(
            action,
            action_pointer,
            "default",
            "Switch default",
            file,
            diagnostics,
        );
        let default_pointer_text = pointer_join(action_pointer, "default");
        let default_pointer = default_pointer_text.as_str();
        validate_optional_object_field(
            branch,
            default_pointer,
            "actions",
            "Switch default actions",
            file,
            diagnostics,
        );
    }
}

/// The workflow has a `Request` trigger, by its summary or by its definition.
pub open spec fn has_request_trigger(workflow: &Workflow) -> bool {
    ||| exists|i: int| 0 <= i < workflow.trigger_types@.len()
        && is_request(#[trigger] &workflow.trigger_types@[i].1)
    ||| exists|i: int| 0 <= i < workflow.triggers@.len()
        && is_request_node(workflow, #[trigger] &workflow.triggers@[i])
}

pub open spec fn is_request(kind: &String) -> bool {
    same_ignoring_case(kind@, "Request"@)
}

/// The trigger called `name` is a `Request` trigger.
pub open spec fn is_request_node(workflow: &Workflow, name: &String) -> bool {
    match node_of(workflow, joined(joined(workflow.definition_pointer@, "triggers"@), name@)) {
        Some(trigger) => type_is(&trigger, "Request"@),
        None => false,
    }
}

/// True if the workflow has any `Request` trigger.
pub fn workflow_has_request_trigger(workflow: &Workflow) -> (holds: bool)
    ensures
        holds == has_request_trigger(workflow),
{
    let types = &workflow.trigger_types;
    let mut i: usize = 0;
    while i < types.len()
        invariant
            i <= types@.len(),
            types == &workflow.trigger_types,
            forall|j: int| 0 <= j < i ==> !is_request(#[trigger] &types@[j].1),
        decreases types@.len() - i,
    {
        if eq_ignoring_case(types[i].1.as_str(), "Request") {
            assert(is_request(&types@[i as int].1));
            return true;
        }
        i += 1;
    }
    let names = &workflow.triggers;
    let parent = pointer_join(workflow.definition_pointer.as_str(), "triggers");
    let mut k: usize = 0;
    while k < names.len()
        invariant
            k <= names@.len(),
            names == &workflow.triggers,
            parent@ == joined(workflow.definition_pointer@, "triggers"@),
            forall|j: int| 0 <= j < workflow.trigger_types@.len()
                ==> !is_request(#[trigger] &workflow.trigger_types@[j].1),
            forall|j: int| 0 <= j < k ==> !is_request_node(workflow, #[trigger] &names@[j]),
        decreases names@.len() - k,
    {
        let pointer = pointer_join(parent.as_str(), names[k].as_str());
        let request = match workflow.node_at(pointer.as_str()) {
            Some(trigger) => node_type_is(trigger, "Request"),
            None => false,
        };
        if request {
            assert(is_request_node(workflow, &names@[k as int]));
            return true;
        }
        k += 1;
    }
    false
}

/// What is wrong with where a `Response` action stands.
pub open spec fn response_placement_findings(
    action: &Node,
    action_pointer: Seq<char>,
    file: &Document,
    workflow: &Workflow,
) -> Seq<Finding> {
    (if has_request_trigger(workflow) || are_triggers_open(workflow, file) {
        Seq::empty()
    } else {
        issue(
            file,
            "workflow-shape-invalid-context"@,
            action_pointer,
            Some(action.span),
            "Response actions require a Request trigger"@,
        )
    }) + (if in_loop(workflow.action_list@, action_pointer) {
        issue(
            file,
            "workflow-shape-invalid-context"@,
            action_pointer,
            Some(action.span),
            "Response actions cannot be nested inside Foreach or Until actions"@,
        )
    } else {
        Seq::empty()
    }) + (match parallel_dependency(workflow.action_list@, action_pointer) {
        Some(dependency) => if is_order_open_beside(workflow, file, action_pointer) {
            Seq::empty()
        } else {
            issue(
                file,
                "workflow-shape-invalid-context"@,
                joined(action_pointer, "runAfter"@),
                match field(action, "runAfter"@) { Some(found) => Some(found.span), None => None },
                "Response action cannot be placed in a parallel branch after '"@ + dependency
                    + "'"@,
            )
        },
        None => Seq::empty(),
    }) + (if stateless(workflow) {
        match successor_of(workflow.action_list@, action_pointer) {
            Some(successor) => issue(
                file,
                "workflow-shape-invalid-context"@,
                action_pointer,
                Some(action.span),
                "Response action must be the last action in a Stateless workflow before '"@
                    + successor
                    + "'"@,
            ),
            None => Seq::empty(),
        }
    } else {
        Seq::empty()
    })
}

/// Validate where a `Response` action stands: it answers a Request trigger,
/// loops over nothing, races no other branch, and comes last in a Stateless
/// workflow.
pub fn validate_response_placement(
    action: &Node,
    action_pointer: &str,
    file: &Document,
    workflow: &Workflow,
    diagnostics: &mut Vec<Diagnostic>,
)
    ensures
        findings(final(diagnostics)@) == findings(old(diagnostics)@)
            + response_placement_findings(action, action_pointer@, file, workflow),
{
    if !workflow_has_request_trigger(workflow) && !triggers_are_open(workflow, file) {
        report(
            file,
            "workflow-shape-invalid-context",
            action_pointer,
            Some(action.span),
            "Response actions require a Request trigger",
            diagnostics,
        );
    }
    if action_is_nested_in_loop(&workflow.action_list, action_pointer) {
        report(
            file,
            "workflow-shape-invalid-context",
            action_pointer,
            Some(action.span),
            "Response actions cannot be nested inside Foreach or Until actions",
            diagnostics,
        );
    }
    if let Some(dependency) = response_parallel_dependency(action_pointer, &workflow.action_list) {
        if !order_is_open_beside(workflow, file, action_pointer) {
            let pointer = pointer_join(action_pointer, "runAfter");
            let span = match get(action, "runAfter") {
                Some(found) => Some(found.span),
                None => None,
            };
            let message = text3(
                "Response action cannot be placed in a parallel branch after '",
                dependency.as_str(),
                "'",
            );
            report(
                file,
                "workflow-shape-invalid-context",
                pointer.as_str(),
                span,
                message.as_str(),
                diagnostics,
            );
        }
    }
    if workflow.is_stateless() {
        if let Some(successor) = stateless_response_successor(
            action_pointer,
            &workflow.action_list,
        ) {
            let message = text3(
                "Response action must be the last action in a Stateless workflow before '",
                successor.as_str(),
                "'",
            );
            report(
                file,
                "workflow-shape-invalid-context",
                action_pointer,
                Some(action.span),
                message.as_str(),
                diagnostics,
            );
        }
    }
}

/// What is wrong with the status code of a `Response` action.
pub open spec fn status_code_findings(
    inputs: &Node,
    inputs_pointer: Seq<char>,
    file: &Document,
) -> Seq<Finding> {
    match authored(file, inputs, "statusCode"@) {
        Some(status) => (match text_of(&status) {
            Some(text) => if is_expression_text(text) || spelled_i64(text) is Some {
                Seq::empty()
            } else {
                wrong_type(
                    file,
                    inputs_pointer,
                    "statusCode"@,
                    status.span,
                    "Response inputs.statusCode must be an HTTP status code or expression string"@,
                )
            },
            None => Seq::empty(),
        }) + (match integer_or_spelled(&status) {
            Some(code) => if 200 <= code <= 299 || 400 <= code <= 599 {
                Seq::empty()
            } else {
                wrong_value(
                    file,
                    inputs_pointer,
                    "statusCode"@,
                    status.span,
                    "Response inputs.statusCode value "@ + decimal(code) + " is not supported"@,
                )
            },
            None => Seq::empty(),
        }),
        None => Seq::empty(),
    }
}

/// Validate the status code of a `Response` action: a success or an error.
fn validate_status_code(
    inputs: &Node,
    inputs_pointer: &str,
    file: &Document,
    diagnostics: &mut Vec<Diagnostic>,
)
    ensures
        findings(final(diagnostics)@) == findings(old(diagnostics)@)
            + status_code_findings(inputs, inputs_pointer@, file),
{
    if let Some(status) = get_authored(file, inputs, "statusCode") {
        if let Some(text) = as_string(status) {
            if !(is_wdl_expression_string(text) || parse_i64(text).is_some()) {
                report_type(
                    file,
                    inputs_pointer,
                    "statusCode",
                    status.span,
                    "Response inputs.statusCode must be an HTTP status code or expression string",
                    diagnostics,
                );
            }
        }
        if let Some(code) = integer_or_integer_string_value(status) {
            if !((200 <= code && code <= 299) || (400 <= code && code <= 599)) {
                let message = text3(
                    "Response inputs.statusCode value ",
                    decimal_of_i64(code).as_str(),
                    " is not supported",
                );
                report_value(
                    file,
                    inputs_pointer,
                    "statusCode",
                    status.span,
                    message.as_str(),
                    diagnostics,
                );
            }
        }
    }
}

/// What is wrong with the inputs of a `Response` action.
pub open spec fn response_action_inputs_findings(
    inputs: &Node,
    inputs_pointer: Seq<char>,
    file: &Document,
    workflow: &Workflow,
) -> Seq<Finding> {
    typed_field_findings(
        inputs,
        inputs_pointer,
        "statusCode"@,
        "Response inputs.statusCode must be an integer or string"@,
        Shape::TextOrInteger,
        file,
    )
        + status_code_findings(inputs, inputs_pointer, file)
        + object_or_string_findings(
            inputs,
            inputs_pointer,
            "headers"@,
            "Response inputs.headers"@,
            file,
        )
}

/// Validate the inputs of a `Response` action.
pub fn validate_response_action_inputs(
    inputs: &Node,
    inputs_pointer: &str,
    file: &Document,
    workflow: &Workflow,
    diagnostics: &mut Vec<Diagnostic>,
)
    ensures
        findings(final(diagnostics)@) == findings(old(diagnostics)@)
            + response_action_inputs_findings(inputs, inputs_pointer@, file, workflow),
{
    require_typed_field(
        inputs,
        inputs_pointer,
        "statusCode",
        "Response inputs.statusCode must be an integer or string",
        Shape::TextOrInteger,
        file,
        diagnostics,
    );
    validate_status_code(inputs, inputs_pointer, file, diagnostics);
    validate_optional_object_or_string_field(
        inputs,
        inputs_pointer,
        "headers",
        "Response inputs.headers",
        file,
        diagnostics,
    );
}

/// What is wrong with a `Response` action.
pub open spec fn response_action_findings(
    action: &Node,
    action_pointer: Seq<char>,
    file: &Document,
    workflow: &Workflow,
) -> Seq<Finding> {
    response_placement_findings(action, action_pointer, file, workflow)
        + inputs_findings(action, action_pointer, file)
        + match inputs_of(action, file) {
        Some(inputs) => {
            let inputs_pointer = joined(action_pointer, "inputs"@);
            response_action_inputs_findings(&inputs, inputs_pointer, file, workflow)
        },
        None => Seq::empty(),
    }
}

/// Validate a `Response` action.
pub fn validate_response_action(
    action: &Node,
    action_pointer: &str,
    file: &Document,
    workflow: &Workflow,
    diagnostics: &mut Vec<Diagnostic>,
)
    ensures
        findings(final(diagnostics)@) == findings(old(diagnostics)@)
            + response_action_findings(action, action_pointer@, file, workflow),
{
    validate_response_placement(action, action_pointer, file, workflow, diagnostics);
    if let Some(inputs) = required_inputs_object(action, action_pointer, file, diagnostics) {
        let inputs_pointer_text = pointer_join(action_pointer, "inputs");
        let inputs_pointer = inputs_pointer_text.as_str();
        validate_response_action_inputs(inputs, inputs_pointer, file, workflow, diagnostics);
    }
}

/// What is wrong with the error that a `Terminate` action reports.
pub open spec fn run_error_findings(
    inputs: &Node,
    inputs_pointer: Seq<char>,
    file: &Document,
) -> Seq<Finding> {
    match field(inputs, "runError"@) {
        Some(
            error,
        ) => (if !is_open_field(file, inputs, "runStatus"@)
            && text_field(inputs, "runStatus"@) is Some
            && text_field(inputs, "runStatus"@)->Some_0 != "Failed"@ {
            wrong_context(
                file,
                inputs_pointer,
                "runError"@,
                error.span,
                "Terminate inputs.runError can only be used when runStatus is Failed"@,
            )
        } else {
            Seq::empty()
        }) + (if is_opaque(file, &error) {
            Seq::empty()
        } else {
            if error.kind is Object {
                let error_pointer = joined(inputs_pointer, "runError"@);
                typed_field_findings(
                    &error,
                    error_pointer,
                    "code"@,
                    "Terminate inputs.runError.code must be a number or string"@,
                    Shape::TextOrNumber,
                    file,
                )
                    + typed_field_findings(
                        &error,
                        error_pointer,
                        "message"@,
                        "Terminate inputs.runError.message must be a string"@,
                        Shape::Text,
                        file,
                    )
            } else {
                wrong_type(
                    file,
                    inputs_pointer,
                    "runError"@,
                    error.span,
                    "Terminate inputs.runError must be an object"@,
                )
            }
        }),
        None => Seq::empty(),
    }
}

/// Validate the error that a `Terminate` action reports, for failed runs only.
pub fn validate_terminate_run_error(
    inputs: &Node,
    inputs_pointer: &str,
    file: &Document,
    diagnostics: &mut Vec<Diagnostic>,
)
    ensures
        findings(final(diagnostics)@) == findings(old(diagnostics)@)
            + run_error_findings(inputs, inputs_pointer@, file),
{
    if let Some(error) = get(inputs, "runError") {
        if !field_is_open(file, inputs, "runStatus") && status_is_not_failed(inputs) {
            report_context(
                file,
                inputs_pointer,
                "runError",
                error.span,
                "Terminate inputs.runError can only be used when runStatus is Failed",
                diagnostics,
            );
        }
        if !is_opaque_arm_expression(file, error) {
            if error.is_object() {
                let error_pointer_text = pointer_join(inputs_pointer, "runError");
                let error_pointer = error_pointer_text.as_str();
                require_typed_field(
                    error,
                    error_pointer,
                    "code",
                    "Terminate inputs.runError.code must be a number or string",
                    Shape::TextOrNumber,
                    file,
                    diagnostics,
                );
                require_typed_field(
                    error,
                    error_pointer,
                    "message",
                    "Terminate inputs.runError.message must be a string",
                    Shape::Text,
                    file,
                    diagnostics,
                );
            } else {
                report_type(
                    file,
                    inputs_pointer,
                    "runError",
                    error.span,
                    "Terminate inputs.runError must be an object",
                    diagnostics,
                );
            }
        }
    }
}

fn status_is_not_failed(inputs: &Node) -> (holds: bool)
    ensures
        holds == (
            text_field(inputs, "runStatus"@) is Some
                && text_field(inputs, "runStatus"@)->Some_0 != "Failed"@
        ),
{
    match get_string(inputs, "runStatus") {
        Some(status) => !text_eq(status, "Failed"),
        None => false,
    }
}

/// What is wrong with a `Terminate` action.
pub open spec fn terminate_action_findings(
    action: &Node,
    action_pointer: Seq<char>,
    file: &Document,
    workflow: &Workflow,
) -> Seq<Finding> {
    (if in_loop(workflow.action_list@, action_pointer) {
        issue(
            file,
            "workflow-shape-invalid-context"@,
            action_pointer,
            Some(action.span),
            "Terminate actions cannot be nested inside Foreach or Until actions"@,
        )
    } else {
        Seq::empty()
    }) + inputs_findings(action, action_pointer, file) + match inputs_of(action, file) {
        Some(inputs) => {
            let inputs_pointer = joined(action_pointer, "inputs"@);
            typed_field_findings(
                &inputs,
                inputs_pointer,
                "runStatus"@,
                "Terminate inputs.runStatus must be a string"@,
                Shape::Text,
                file,
            )
                + enum_findings(
                    &inputs,
                    inputs_pointer,
                    "runStatus"@,
                    "Terminate inputs.runStatus"@,
                    run_status_names(),
                    file,
                )
                + run_error_findings(&inputs, inputs_pointer, file)
        },
        None => Seq::empty(),
    }
}

/// Validate a `Terminate` action, which may not stand in a loop.
pub fn validate_terminate_action(
    action: &Node,
    action_pointer: &str,
    file: &Document,
    workflow: &Workflow,
    diagnostics: &mut Vec<Diagnostic>,
)
    ensures
        findings(final(diagnostics)@) == findings(old(diagnostics)@)
            + terminate_action_findings(action, action_pointer@, file, workflow),
{
    if action_is_nested_in_loop(&workflow.action_list, action_pointer) {
        report(
            file,
            "workflow-shape-invalid-context",
            action_pointer,
            Some(action.span),
            "Terminate actions cannot be nested inside Foreach or Until actions",
            diagnostics,
        );
    }
    if let Some(inputs) = required_inputs_object(action, action_pointer, file, diagnostics) {
        let inputs_pointer_text = pointer_join(action_pointer, "inputs");
        let inputs_pointer = inputs_pointer_text.as_str();
        require_typed_field(
            inputs,
            inputs_pointer,
            "runStatus",
            "Terminate inputs.runStatus must be a string",
            Shape::Text,
            file,
            diagnostics,
        );
        validate_optional_string_enum(
            inputs,
            inputs_pointer,
            "runStatus",
            "Terminate inputs.runStatus",
            run_status_list().as_slice(),
            file,
            diagnostics,
        );
        validate_terminate_run_error(inputs, inputs_pointer, file, diagnostics);
    }
}

/// The number of members of an object.
pub open spec fn member_count(value: &Node) -> nat {
    match value.kind {
        Json::Object(members) => members@.len(),
        _ => 0,
    }
}

/// What is wrong with the choice of a `Wait` action between an interval and a timestamp.
pub open spec fn wait_choice_findings(
    inputs: &Node,
    inputs_pointer: Seq<char>,
    file: &Document,
) -> Seq<Finding> {
    let interval = field(
        inputs,
        "interval"@,
    ) is Some; let until = field(inputs, "until"@) is Some; let count = member_count(inputs);
    (
        if count > 1
            && !(count == 2 && interval && until) { issue(
                file,
                "workflow-shape-invalid-shape"@,
                inputs_pointer,
                Some(inputs.span),
                "Wait inputs must contain only one property"@,
            ) } else { Seq::empty() }
    )
        + (
            if interval
                && until { issue(
                    file,
                    "workflow-shape-invalid-shape"@,
                    inputs_pointer,
                    Some(inputs.span),
                    "Wait inputs must define only one of 'interval' or 'until'"@,
                ) } else if !interval
                && !until { issue(
                    file,
                    "workflow-shape-missing-field"@,
                    inputs_pointer,
                    Some(inputs.span),
                    "Wait inputs must define 'interval' or 'until'"@,
                ) } else { Seq::empty() }
        )
}

/// Validate the choice of a `Wait` action between an interval and a timestamp.
fn validate_wait_choice(
    inputs: &Node,
    inputs_pointer: &str,
    file: &Document,
    diagnostics: &mut Vec<Diagnostic>,
)
    ensures
        findings(final(diagnostics)@) == findings(old(diagnostics)@)
            + wait_choice_findings(inputs, inputs_pointer@, file),
{
    let interval = get(inputs, "interval").is_some();
    let until = get(inputs, "until").is_some();
    let count: usize = match as_object(inputs) { Some(members) => members.len(), None => 0 };
    if count > 1 && !(count == 2 && interval && until) {
        report(
            file,
            "workflow-shape-invalid-shape",
            inputs_pointer,
            Some(inputs.span),
            "Wait inputs must contain only one property",
            diagnostics,
        );
    }
    if interval && until {
        report(
            file,
            "workflow-shape-invalid-shape",
            inputs_pointer,
            Some(inputs.span),
            "Wait inputs must define only one of 'interval' or 'until'",
            diagnostics,
        );
    } else if !interval && !until {
        report(
            file,
            "workflow-shape-missing-field",
            inputs_pointer,
            Some(inputs.span),
            "Wait inputs must define 'interval' or 'until'",
            diagnostics,
        );
    }
}

/// What is wrong with the interval of a `Wait` action.
pub open spec fn wait_interval_findings(
    interval: &Node,
    inputs_pointer: Seq<char>,
    file: &Document,
) -> Seq<Finding> {
    if interval.kind is Object {
        let interval_pointer = joined(inputs_pointer, "interval"@);
        enum_findings(
            interval,
            interval_pointer,
            "unit"@,
            "Wait inputs.interval.unit"@,
            time_unit_names(),
            file,
        )
            + typed_field_findings(
                interval,
                interval_pointer,
                "unit"@,
                "Wait inputs.interval.unit must be a string"@,
                Shape::Text,
                file,
            )
            + typed_field_findings(
                interval,
                interval_pointer,
                "count"@,
                "Wait inputs.interval.count must be an integer"@,
                Shape::IntegerOrExpression,
                file,
            )
    } else {
        wrong_type(
            file,
            inputs_pointer,
            "interval"@,
            interval.span,
            "Wait inputs.interval must be an object"@,
        )
    }
}

/// Validate the interval of a `Wait` action.
fn validate_wait_interval(
    interval: &Node,
    inputs_pointer: &str,
    file: &Document,
    diagnostics: &mut Vec<Diagnostic>,
)
    ensures
        findings(final(diagnostics)@) == findings(old(diagnostics)@)
            + wait_interval_findings(interval, inputs_pointer@, file),
{
    if interval.is_object() {
        let interval_pointer_text = pointer_join(inputs_pointer, "interval");
        let interval_pointer = interval_pointer_text.as_str();
        validate_optional_string_enum(
            interval,
            interval_pointer,
            "unit",
            "Wait inputs.interval.unit",
            time_units().as_slice(),
            file,
            diagnostics,
        );
        require_typed_field(
            interval,
            interval_pointer,
            "unit",
            "Wait inputs.interval.unit must be a string",
            Shape::Text,
            file,
            diagnostics,
        );
        require_typed_field(
            interval,
            interval_pointer,
            "count",
            "Wait inputs.interval.count must be an integer",
            Shape::IntegerOrExpression,
            file,
            diagnostics,
        );
    } else {
        report_type(
            file,
            inputs_pointer,
            "interval",
            interval.span,
            "Wait inputs.interval must be an object",
            diagnostics,
        );
    }
}

/// What is wrong with the timestamp of a `Wait` action.
pub open spec fn wait_until_findings(
    inputs: &Node,
    inputs_pointer: Seq<char>,
    file: &Document,
) -> Seq<Finding> {
    match authored(file, inputs, "until"@) {
        Some(until) => if until.kind is Object {
            let until_pointer = joined(inputs_pointer, "until"@);
            typed_field_findings(
                &until,
                until_pointer,
                "timestamp"@,
                "Wait inputs.until.timestamp must be a string"@,
                Shape::Text,
                file,
            )
        } else {
            wrong_type(
                file,
                inputs_pointer,
                "until"@,
                until.span,
                "Wait inputs.until must be an object"@,
            )
        },
        None => Seq::empty(),
    }
}

/// Validate the timestamp of a `Wait` action.
fn validate_wait_until(
    inputs: &Node,
    inputs_pointer: &str,
    file: &Document,
    diagnostics: &mut Vec<Diagnostic>,
)
    ensures
        findings(final(diagnostics)@) == findings(old(diagnostics)@)
            + wait_until_findings(inputs, inputs_pointer@, file),
{
    if let Some(until) = get_authored(file, inputs, "until") {
        if until.is_object() {
            let until_pointer_text = pointer_join(inputs_pointer, "until");
            let until_pointer = until_pointer_text.as_str();
            require_typed_field(
                until,
                until_pointer,
                "timestamp",
                "Wait inputs.until.timestamp must be a string",
                Shape::Text,
                file,
                diagnostics,
            );
        } else {
            report_type(
                file,
                inputs_pointer,
                "until",
                until.span,
                "Wait inputs.until must be an object",
                diagnostics,
            );
        }
    }
}

/// What is wrong with a `Wait` action.
pub open spec fn wait_action_findings(
    action: &Node,
    action_pointer: Seq<char>,
    file: &Document,
) -> Seq<Finding> {
    inputs_findings(action, action_pointer, file) + match inputs_of(action, file) {
        Some(inputs) => {
            let inputs_pointer = joined(action_pointer, "inputs"@);
            wait_choice_findings(&inputs, inputs_pointer, file)
                + (match field(&inputs, "interval"@) {
                Some(interval) => if is_opaque(file, &interval) {
                    Seq::empty()
                } else {
                    wait_interval_findings(&interval, inputs_pointer, file)
                        + wait_until_findings(&inputs, inputs_pointer, file)
                },
                None => wait_until_findings(&inputs, inputs_pointer, file),
            })
        },
        None => Seq::empty(),
    }
}

/// Validate a `Wait` action: an interval or an absolute timestamp, and nothing
/// else. An interval that is a template expression ends the check.
pub fn validate_wait_action(
    action: &Node,
    action_pointer: &str,
    file: &Document,
    diagnostics: &mut Vec<Diagnostic>,
)
    ensures
        findings(final(diagnostics)@) == findings(old(diagnostics)@)
            + wait_action_findings(action, action_pointer@, file),
{
    if let Some(inputs) = required_inputs_object(action, action_pointer, file, diagnostics) {
        let inputs_pointer_text = pointer_join(action_pointer, "inputs");
        let inputs_pointer = inputs_pointer_text.as_str();
        validate_wait_choice(inputs, inputs_pointer, file, diagnostics);
        match get(inputs, "interval") {
            Some(interval) => {
                if !is_opaque_arm_expression(file, interval) {
                    validate_wait_interval(interval, inputs_pointer, file, diagnostics);
                    validate_wait_until(inputs, inputs_pointer, file, diagnostics);
                }
            },
            None => {
                validate_wait_until(inputs, inputs_pointer, file, diagnostics);
            },
        }
    }
}
} // verus!
