//! Statically resolvable references in a JSON string value.
//!
//! Only calls whose first argument is a literal string are captured: the
//! target of any other call cannot be resolved without evaluation.

use vstd::prelude::*;

use crate::text::{chars_of, in_list, names, one_of, string_of_range, text_eq};
use crate::wdl::lex::{call_from, first_literal, first_string_arg, next_call};
use crate::wdl::segments::{bodies_of, expression_bodies, expression_segments};
use crate::wdl::{Reference, ReferenceKind, ReferenceView};

verus! {

pub open spec fn action_helper_names() -> Seq<Seq<char>> {
    seq![
        "actions"@,
        "body"@,
        "formDataMultiValues"@,
        "formDataValue"@,
        "multipartBody"@,
        "outputs"@,
    ]
}

/// The namespace a helper targets.
pub open spec fn kind_of(name: Seq<char>) -> Option<ReferenceKind> {
    if one_of(name, action_helper_names()) {
        Some(ReferenceKind::Action)
    } else if name == "result"@ {
        Some(ReferenceKind::ScopedAction)
    } else if name == "iterationIndexes"@ {
        Some(ReferenceKind::UntilLoop)
    } else if name == "variables"@ {
        Some(ReferenceKind::Variable)
    } else if name == "parameters"@ {
        Some(ReferenceKind::Parameter)
    } else if name == "items"@ {
        Some(ReferenceKind::Item)
    } else {
        None
    }
}

/// The reference that a call of `name` makes, if any.
pub open spec fn reference_of(e: Seq<char>, name: Seq<char>, open: int) -> Seq<ReferenceView> {
    if name == "item"@ {
        seq![ReferenceView { kind: ReferenceKind::CurrentItem, name: Seq::empty() }]
    } else {
        match (kind_of(name), first_literal(e, open + 1)) {
            (Some(kind), Some(target)) => seq![ReferenceView { kind, name: target }],
            _ => Seq::empty(),
        }
    }
}

/// The references of an expression from position `i` on.
pub open spec fn references_from(e: Seq<char>, i: int) -> Seq<ReferenceView>
    decreases e.len() - i,
{
    match call_from(e, i) {
        Some(call) => if i <= call.open < e.len() {
            reference_of(e, e.subrange(call.start, call.end), call.open) + references_from(
                e,
                call.open + 1,
            )
        } else {
            Seq::empty()
        },
        None => Seq::empty(),
    }
}

/// The references of each of `bodies`, one after the other.
pub open spec fn references_in_bodies(bodies: Seq<Seq<char>>) -> Seq<ReferenceView>
    decreases bodies.len(),
{
    if bodies.len() == 0 {
        Seq::empty()
    } else {
        references_in_bodies(bodies.drop_last()) + references_from(bodies.last(), 0)
    }
}

/// What a list of references says, in order.
pub open spec fn references_of(list: Seq<Reference>) -> Seq<ReferenceView> {
    Seq::new(list.len(), |i: int| list[i]@)
}

fn action_helper_list() -> (list: Vec<&'static str>)
    ensures
        names(list@) == action_helper_names(),
{
    let list = vec![
        "actions",
        "body",
        "formDataMultiValues",
        "formDataValue",
        "multipartBody",
        "outputs",
    ];
    assert(names(list@) =~= action_helper_names());
    list
}

/// Map a helper name to the workflow namespace it targets.
pub fn reference_kind(name: &str) -> (kind: Option<ReferenceKind>)
    ensures
        kind == kind_of(name@),
{
    if in_list(name, action_helper_list().as_slice()) {
        Some(ReferenceKind::Action)
    } else if text_eq(name, "result") {
        Some(ReferenceKind::ScopedAction)
    } else if text_eq(name, "iterationIndexes") {
        Some(ReferenceKind::UntilLoop)
    } else if text_eq(name, "variables") {
        Some(ReferenceKind::Variable)
    } else if text_eq(name, "parameters") {
        Some(ReferenceKind::Parameter)
    } else if text_eq(name, "items") {
        Some(ReferenceKind::Item)
    } else {
        None
    }
}

fn push_reference(refs: &mut Vec<Reference>, kind: ReferenceKind, name: String)
    ensures
        references_of(final(refs)@) == references_of(old(refs)@) + seq![
            ReferenceView { kind, name: name@ },
        ],
{
    refs.push(Reference { kind, name });
    assert(references_of(refs@) =~= references_of(old(refs)@) + seq![
        ReferenceView { kind, name: name@ },
    ]);
}

fn note_call(e: &[char], name: &str, open: usize, refs: &mut Vec<Reference>)
    requires
        open < e@.len(),
    ensures
        references_of(final(refs)@) == references_of(old(refs)@) + reference_of(
            e@,
            name@,
            open as int,
        ),
{
    let length: usize = e.len();
    assert(open < length);
    assert(references_of(refs@) + Seq::<ReferenceView>::empty() =~= references_of(refs@));
    if text_eq(name, "item") {
        let none = String::new();
        assert(none@ =~= Seq::<char>::empty());
        push_reference(refs, ReferenceKind::CurrentItem, none);
    } else if let Some(kind) = reference_kind(name) {
        if let Some(target) = first_string_arg(e, open + 1) {
            push_reference(refs, kind, target);
        }
    }
}

/// Append the references of a single expression body.
fn extract_calls(e: &[char], refs: &mut Vec<Reference>)
    ensures
        references_of(final(refs)@) == references_of(old(refs)@) + references_from(e@, 0),
{
    let length: usize = e.len();
    let ghost before = references_of(refs@);
    let mut index: usize = 0;
    loop
        invariant
            length == e@.len(),
            index <= length,
            before + references_from(e@, 0) == references_of(refs@) + references_from(
                e@,
                index as int,
            ),
        ensures
            before + references_from(e@, 0) == references_of(refs@),
        decreases length - index,
    {
        assert(references_of(refs@) + Seq::<ReferenceView>::empty() =~= references_of(refs@));
        match next_call(e, index) {
            None => {
                break;
            },
            Some(call) => {
                let name = string_of_range(e, call.start, call.end);
                let ghost now = references_of(refs@);
                note_call(e, name.as_str(), call.open, refs);
                proof {
                    let own = reference_of(e@, name@, call.open as int);
                    let rest = references_from(e@, call.open + 1);
                    assert(now + (own + rest) =~= now + own + rest);
                }
                index = call.open + 1;
            },
        }
    }
}

/// Extract every statically resolvable reference from `text`.
pub fn references_in_string(text: &str) -> (refs: Vec<Reference>)
    ensures
        references_of(refs@) == references_in_bodies(expression_bodies(text@)),
{
    let chars = chars_of(text);
    let bodies = expression_segments(chars.as_slice());
    let mut refs: Vec<Reference> = Vec::new();
    let ghost all = expression_bodies(text@);
    assert(references_of(refs@) =~= references_in_bodies(all.take(0)));
    let mut k: usize = 0;
    while k < bodies.len()
        invariant
            k <= bodies@.len(),
            all == bodies_of(bodies@),
            references_of(refs@) == references_in_bodies(all.take(k as int)),
        decreases bodies@.len() - k,
    {
        extract_calls(bodies[k].as_slice(), &mut refs);
        assert(all.take(k + 1).drop_last() =~= all.take(k as int));
        k += 1;
    }
    assert(all.take(k as int) =~= all);
    refs
}

} // verus!
