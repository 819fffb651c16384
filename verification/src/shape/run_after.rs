//! `runAfter`: the actions that an action waits for, each with its statuses.
//!
//! Each status has to be one that the runtime knows, in exactly its case. The
//! same rules hold of dependencies that a template expression supplies.

use vstd::prelude::*;

use crate::arm::ArmScope;
use crate::diagnostic::{findings, ByteSpan, Diagnostic, Finding};
use crate::json::{
    as_array, as_object, as_string, field, get, joined, pointer_join, text_of, Document, Json,
    Member, Node,
};
use crate::shape::arm_boundary::{
    allows_expressions, arm_optional_property_absent, file_allows_arm_expressions, get_present,
    is_absent, is_opaque, is_opaque_arm_expression, is_unresolved, may_yield_array, present,
    resolved, static_json_value_from_spanned, arm_array_expression_from_spanned,
    unresolved_arm_expression_from_spanned,
};
use crate::shape::limits::{
    is_absent_entry, materialized_arm_entry_absent, run_after_status_names,
    run_after_status_supported,
};
use crate::shape::report::{issue, report, report_type, wrong_type, respanned};
use crate::text::{decimal, decimal_of_usize, one_of, text3};
use crate::arm::known;
use crate::shape::report::lemma_respanned_adds;

verus! {

broadcast use crate::diagnostic::group_findings;

/// The span that a finding about `node` carries: that of the expression which
/// supplied the node, or else its own.
pub open spec fn span_from(source: Option<ByteSpan>, node: &Node) -> Option<ByteSpan> {
    match source {
        Some(span) => Some(span),
        None => Some(node.span),
    }
}

/// A dependency counts as absent, authored or supplied by an expression.
pub open spec fn is_absent_from(source: Option<ByteSpan>, file: &Document, node: &Node) -> bool {
    match source {
        Some(_) => is_absent_entry(file, node),
        None => is_absent(file, node),
    }
}

fn finding_span(source: Option<ByteSpan>, node: &Node) -> (span: Option<ByteSpan>)
    ensures
        span == span_from(source, node),
{
    match source {
        Some(span) => Some(span),
        None => Some(node.span),
    }
}

fn dependency_absent(source: Option<ByteSpan>, file: &Document, node: &Node) -> (holds: bool)
    ensures
        holds == is_absent_from(source, file, node),
{
    match source {
        Some(_) => materialized_arm_entry_absent(file, node),
        None => arm_optional_property_absent(file, node),
    }
}

/// What is wrong with the first `n` of the statuses of a dependency. A status
/// that a template expression stands for is not judged.
pub open spec fn status_findings(
    items: Seq<Node>,
    n: nat,
    base: Seq<char>,
    source: Option<ByteSpan>,
    file: &Document,
) -> Seq<Finding>
    decreases n,
{
    if n == 0 {
        Seq::empty()
    } else {
        let item = items[n - 1];
        let index = decimal(n - 1);
        status_findings(items, (n - 1) as nat, base, source, file) + (match text_of(&item) {
            Some(text) => if is_opaque(file, &item) || one_of(text, run_after_status_names()) {
                Seq::empty()
            } else {
                issue(
                    file,
                    "runafter-invalid-status"@,
                    joined(base, index),
                    span_from(source, &item),
                    "runAfter status '"@ + text + "' is not supported"@,
                )
            },
            None => issue(
                file,
                "runafter-invalid-shape"@,
                joined(base, index),
                span_from(source, &item),
                "runAfter status entries must be strings"@,
            ),
        })
    }
}

fn validate_statuses(
    items: &Vec<Node>,
    base: &str,
    source: Option<ByteSpan>,
    file: &Document,
    diagnostics: &mut Vec<Diagnostic>,
)
    ensures
        findings(final(diagnostics)@) == findings(old(diagnostics)@)
            + status_findings(items@, items@.len(), base@, source, file),
{
    let ghost before = findings(diagnostics@);
    let mut i: usize = 0;
    while i < items.len()
        invariant
            i <= items.len(),
            findings(diagnostics@) == before
                + status_findings(items@, i as nat, base@, source, file),
        decreases items.len() - i,
    {
        let item = &items[i];
        let index_text = decimal_of_usize(i);
        let index = index_text.as_str();
        match as_string(item) {
            Some(text) => {
                if !is_opaque_arm_expression(file, item) && !run_after_status_supported(text) {
                    let message = text3("runAfter status '", text, "' is not supported");
                    report(
                        file,
                        "runafter-invalid-status",
                        pointer_join(base, index).as_str(),
                        finding_span(source, item),
                        message.as_str(),
                        diagnostics,
                    );
                }
            },
            None => {
                report(
                    file,
                    "runafter-invalid-shape",
                    pointer_join(base, index).as_str(),
                    finding_span(source, item),
                    "runAfter status entries must be strings",
                    diagnostics,
                );
            },
        }
        i += 1;
    }
}

/// What is wrong with the first `n` of the dependencies of an action, authored
/// or supplied by an expression.
pub open spec fn run_after_statuses_findings(
    members: Seq<Member>,
    n: nat,
    base: Seq<char>,
    source: Option<ByteSpan>,
    file: &Document,
    scope: &ArmScope,
) -> Seq<Finding>
    decreases n,
{
    if n == 0 {
        Seq::empty()
    } else {
        let item = members[n - 1].value;
        let name = members[n - 1].name@;
        run_after_statuses_findings(members, (n - 1) as nat, base, source, file, scope)
            + (if is_absent_from(source, file, &item) || may_yield_array(file, &item, scope) {
            Seq::empty()
        } else {
            match item.kind {
                Json::Array(items) => status_findings(
                    items@,
                    items@.len(),
                    joined(base, name),
                    source,
                    file,
                ),
                _ => issue(
                    file,
                    "runafter-invalid-shape"@,
                    joined(base, name),
                    span_from(source, &item),
                    "runAfter dependency value must be an array of statuses"@,
                ),
            }
        })
    }
}

pub fn validate_run_after_statuses(
    members: &Vec<Member>,
    base: &str,
    source: Option<ByteSpan>,
    file: &Document,
    scope: &ArmScope,
    diagnostics: &mut Vec<Diagnostic>,
)
    ensures
        findings(final(diagnostics)@) == findings(old(diagnostics)@)
            + run_after_statuses_findings(members@, members@.len(), base@, source, file, scope),
{
    let ghost before = findings(diagnostics@);
    let mut i: usize = 0;
    while i < members.len()
        invariant
            i <= members.len(),
            findings(diagnostics@) == before
                + run_after_statuses_findings(members@, i as nat, base@, source, file, scope),
        decreases members.len() - i,
    {
        let item = &members[i].value;
        let name = members[i].name.as_str();
        if !(
            dependency_absent(source, file, item)
                || arm_array_expression_from_spanned(file, item, scope)
        ) {
            match as_array(item) {
                Some(items) => {
                    let pointer = pointer_join(base, name);
                    validate_statuses(items, pointer.as_str(), source, file, diagnostics);
                },
                None => {
                    report(
                        file,
                        "runafter-invalid-shape",
                        pointer_join(base, name).as_str(),
                        finding_span(source, item),
                        "runAfter dependency value must be an array of statuses",
                        diagnostics,
                    );
                },
            }
        }
        i += 1;
    }
}

/// The members that a template expression is known to produce under `scope`.
pub open spec fn known_entries(value: &Node, scope: &ArmScope) -> Option<Vec<Member>> {
    match text_of(value) {
        Some(text) => match known(scope, text) {
            Some(expression) => expression.entries,
            None => None,
        },
        None => None,
    }
}

fn get_known_entries<'a>(value: &Node, scope: &'a ArmScope) -> (found: Option<&'a Vec<Member>>)
    ensures
        match found {
            Some(members) => known_entries(value, scope) == Some(*members),
            None => known_entries(value, scope) is None,
        },
{
    match as_string(value) {
        Some(text) => match scope.lookup(text) {
            Some(expression) => match &expression.entries {
                Some(members) => Some(members),
                None => None,
            },
            None => None,
        },
        None => None,
    }
}

/// The members of an object that a template expression resolves to.
pub open spec fn resolved_members(file: &Document, value: &Node) -> Option<Vec<Member>> {
    match resolved(file, value, file.arm) {
        Some(result) => match result.kind {
            Json::Object(members) => Some(members),
            _ => None,
        },
        None => None,
    }
}

fn get_resolved_members<'a>(file: &'a Document, value: &Node) -> (found: Option<&'a Vec<Member>>)
    ensures
        match found {
            Some(members) => resolved_members(file, value) == Some(*members),
            None => resolved_members(file, value) is None,
        },
{
    match static_json_value_from_spanned(file, value) {
        Some(result) => as_object(result),
        None => None,
    }
}

/// The dependencies of an action that can be checked: written out, resolved,
/// or known in part; with the span to report them at.
pub open spec fn checkable_dependencies(
    value: &Node,
    file: &Document,
    scope: &ArmScope,
) -> Option<(Vec<Member>, Option<ByteSpan>)> {
    match value.kind {
        Json::Object(members) => Some((members, None)),
        _ => if resolved_members(file, value) is Some {
            Some((resolved_members(file, value)->Some_0, Some(value.span)))
        } else if allows_expressions(file) && known_entries(value, scope) is Some {
            Some((known_entries(value, scope)->Some_0, Some(value.span)))
        } else {
            None
        },
    }
}

fn get_checkable_dependencies<'a>(
    value: &'a Node,
    file: &'a Document,
    scope: &'a ArmScope,
) -> (found: Option<(&'a Vec<Member>, Option<ByteSpan>)>)
    ensures
        match found {
            Some((members, source)) => checkable_dependencies(value, file, scope) == Some(
                (*members, source),
            ),
            None => checkable_dependencies(value, file, scope) is None,
        },
{
    match as_object(value) {
        Some(members) => Some((members, None)),
        None => match get_resolved_members(file, value) {
            Some(members) => Some((members, Some(value.span))),
            None => if file_allows_arm_expressions(file) {
                match get_known_entries(value, scope) {
                    Some(members) => Some((members, Some(value.span))),
                    None => None,
                }
            } else {
                None
            },
        },
    }
}

/// What is wrong with the `runAfter` of an action.
pub open spec fn run_after_findings(
    action: &Node,
    action_pointer: Seq<char>,
    file: &Document,
    scope: &ArmScope,
) -> Seq<Finding> {
    match present(file, action, "runAfter"@) {
        Some(after) => match checkable_dependencies(&after, file, scope) {
            Some((members, source)) => run_after_statuses_findings(
                members@,
                members@.len(),
                joined(action_pointer, "runAfter"@),
                source,
                file,
                scope,
            ),
            None => if is_opaque(file, &after) { Seq::empty() } else { wrong_type(
                file,
                action_pointer,
                "runAfter"@,
                after.span,
                "runAfter must be an object"@,
            ) },
        },
        None => Seq::empty(),
    }
}

/// Validate the `runAfter` of an action.
pub fn validate_run_after(
    action: &Node,
    action_pointer: &str,
    file: &Document,
    scope: &ArmScope,
    diagnostics: &mut Vec<Diagnostic>,
)
    ensures
        findings(final(diagnostics)@) == findings(old(diagnostics)@)
            + run_after_findings(action, action_pointer@, file, scope),
{
    if let Some(after) = get_present(file, action, "runAfter") {
        match get_checkable_dependencies(after, file, scope) {
            Some((members, source)) => {
                let pointer = pointer_join(action_pointer, "runAfter");
                validate_run_after_statuses(
                    members,
                    pointer.as_str(),
                    source,
                    file,
                    scope,
                    diagnostics,
                );
            },
            None => {
                if !is_opaque_arm_expression(file, after) {
                    report_type(
                        file,
                        action_pointer,
                        "runAfter",
                        after.span,
                        "runAfter must be an object",
                        diagnostics,
                    );
                }
            },
        }
    }
}

/// What is wrong with the `runAfter` of an action that an expression supplied.
pub open spec fn supplied_run_after_findings(
    action: &Node,
    action_pointer: Seq<char>,
    file: &Document,
    scope: &ArmScope,
    source: ByteSpan,
) -> Seq<Finding> {
    match field(action, "runAfter"@) {
        Some(after) => if is_absent_entry(file, &after) {
            Seq::empty()
        } else {
            match after.kind {
                Json::Object(members) => run_after_statuses_findings(
                    members@,
                    members@.len(),
                    joined(action_pointer, "runAfter"@),
                    Some(source),
                    file,
                    scope,
                ),
                _ => match known_entries(&after, scope) {
                    Some(members) => run_after_statuses_findings(
                        members@,
                        members@.len(),
                        joined(action_pointer, "runAfter"@),
                        Some(source),
                        file,
                        scope,
                    ),
                    None => if is_unresolved(file, &after) { Seq::empty() } else {
                        issue(
                            file,
                            "workflow-shape-invalid-type"@,
                            joined(action_pointer, "runAfter"@),
                            Some(source),
                            "runAfter must be an object"@,
                        )
                    },
                },
            }
        },
        None => Seq::empty(),
    }
}

/// Validate the `runAfter` of an action that an expression supplied.
pub fn validate_supplied_run_after(
    action: &Node,
    action_pointer: &str,
    file: &Document,
    scope: &ArmScope,
    source: ByteSpan,
    diagnostics: &mut Vec<Diagnostic>,
)
    ensures
        findings(final(diagnostics)@) == findings(old(diagnostics)@)
            + supplied_run_after_findings(action, action_pointer@, file, scope, source),
{
    if let Some(after) = get(action, "runAfter") {
        if !materialized_arm_entry_absent(file, after) {
            let pointer_text = pointer_join(action_pointer, "runAfter");
            let pointer = pointer_text.as_str();
            match as_object(after) {
                Some(members) => {
                    validate_run_after_statuses(
                        members,
                        pointer,
                        Some(source),
                        file,
                        scope,
                        diagnostics,
                    );
                },
                None => match get_known_entries(after, scope) {
                    Some(members) => {
                        validate_run_after_statuses(
                            members,
                            pointer,
                            Some(source),
                            file,
                            scope,
                            diagnostics,
                        );
                    },
                    None => {
                        if !unresolved_arm_expression_from_spanned(file, after) {
                            report(
                                file,
                                "workflow-shape-invalid-type",
                                pointer,
                                Some(source),
                                "runAfter must be an object",
                                diagnostics,
                            );
                        }
                    },
                },
            }
        }
    }
}

/// Authored dependencies and dependencies that an expression supplies are
/// judged alike: where no dependency is an expression that resolves to null,
/// the findings differ in their spans only.
pub proof fn law_run_after_paths_agree(
    members: Seq<Member>,
    n: nat,
    base: Seq<char>,
    span: ByteSpan,
    file: &Document,
    scope: &ArmScope,
)
    requires
        n <= members.len(),
        forall|i: int| 0 <= i < n
            ==> is_absent(
                file,
                #[trigger] &members[i].value,
            ) == is_absent_entry(file, &members[i].value),
    ensures
        run_after_statuses_findings(members, n, base, Some(span), file, scope) == respanned(
            run_after_statuses_findings(members, n, base, None, file, scope),
            Some(span),
        ),
    decreases n,
{
    if n == 0 {
        assert(respanned(Seq::empty(), Some(span)) =~= Seq::<Finding>::empty());
    } else {
        law_run_after_paths_agree(members, (n - 1) as nat, base, span, file, scope);
        let item = members[n - 1].value;
        let pointer = joined(base, members[n - 1].name@);
        let before = run_after_statuses_findings(members, (n - 1) as nat, base, None, file, scope);
        assert(
            is_absent(file, &members[n - 1].value) == is_absent_entry(file, &members[n - 1].value)
        );
        match item.kind {
            Json::Array(items) => {
                lemma_statuses_agree(items@, items@.len(), pointer, span, file);
                lemma_respanned_adds(
                    before,
                    status_findings(items@, items@.len(), pointer, None, file),
                    Some(span),
                );
            },
            _ => {
                let own = issue(
                    file,
                    "runafter-invalid-shape"@,
                    pointer,
                    Some(item.span),
                    "runAfter dependency value must be an array of statuses"@,
                );
                assert(
                    respanned(own, Some(span)) =~= issue(
                        file,
                        "runafter-invalid-shape"@,
                        pointer,
                        Some(span),
                        "runAfter dependency value must be an array of statuses"@,
                    )
                );
                lemma_respanned_adds(before, own, Some(span));
            },
        }
        lemma_respanned_adds(before, Seq::empty(), Some(span));
        assert(respanned(Seq::empty(), Some(span)) =~= Seq::<Finding>::empty());
    }
}

proof fn lemma_statuses_agree(
    items: Seq<Node>,
    n: nat,
    base: Seq<char>,
    span: ByteSpan,
    file: &Document,
)
    requires
        n <= items.len(),
    ensures
        status_findings(items, n, base, Some(span), file) == respanned(
            status_findings(items, n, base, None, file),
            Some(span),
        ),
    decreases n,
{
    if n == 0 {
        assert(respanned(Seq::empty(), Some(span)) =~= Seq::<Finding>::empty());
    } else {
        lemma_statuses_agree(items, (n - 1) as nat, base, span, file);
        let item = items[n - 1];
        let before = status_findings(items, (n - 1) as nat, base, None, file);
        let whole = status_findings(items, n, base, None, file);
        let own = whole.skip(before.len() as int);
        assert(whole =~= before + own);
        lemma_respanned_adds(before, own, Some(span));
        let mine = status_findings(items, n, base, Some(span), file);
        let earlier = status_findings(items, (n - 1) as nat, base, Some(span), file);
        assert(mine.skip(earlier.len() as int) =~= respanned(own, Some(span)));
        assert(mine =~= earlier + respanned(own, Some(span)));
    }
}
} // verus!
