//! Where the workflow definitions of a document stand.

use vstd::prelude::*;

use crate::json::{
    as_array, as_string, field, get, get_string, joined, pointer_join, text_field, text_of, Json,
    Node,
};
use crate::text::{
    decimal, decimal_of_usize, eq_ignoring_case, owned, same_ignoring_case,
};
use crate::workflow::WorkflowKind;

verus! {

/// A workflow definition in a document.
#[derive(Debug)]
pub struct Located<'a> {
    /// The definition itself.
    pub definition: &'a Node,
    /// JSON Pointer to the definition, empty for a document that is one.
    pub pointer: String,
    /// The kind that the wrapper around the definition names.
    pub kind: Option<WorkflowKind>,
}

/// A kind, as a mathematical value: a text, or a value that is none.
pub open spec fn kind_value(kind: Option<WorkflowKind>) -> Option<Option<Seq<char>>> {
    match kind {
        Some(WorkflowKind::Named(name)) => Some(Some(name@)),
        Some(WorkflowKind::InvalidType) => Some(None),
        None => None,
    }
}

/// A located definition, as a mathematical value.
pub struct LocatedView {
    pub definition: Node,
    pub pointer: Seq<char>,
    pub kind: Option<Option<Seq<char>>>,
}

impl<'a> View for Located<'a> {
    type V = LocatedView;

    open spec fn view(&self) -> LocatedView {
        LocatedView {
            definition: *self.definition,
            pointer: self.pointer@,
            kind: kind_value(self.kind),
        }
    }
}

/// What a list of definitions says, in order.
pub open spec fn places(list: Seq<Located>) -> Seq<LocatedView> {
    Seq::new(list.len(), |i: int| list[i]@)
}

/// The kind that a wrapper names.
pub open spec fn wrapper_kind(value: &Node) -> Option<Option<Seq<char>>> {
    match field(value, "kind"@) {
        Some(kind) => Some(text_of(&kind)),
        None => None,
    }
}

/// The definition that a template resource holds, where it is a workflow.
pub open spec fn resource_definition(resource: &Node) -> Option<Node> {
    match text_field(resource, "type"@) {
        Some(kind) => if same_ignoring_case(kind, "Microsoft.Logic/workflows"@) {
            match field(resource, "properties"@) {
                Some(properties) => field(&properties, "definition"@),
                None => None,
            }
        } else {
            None
        },
        None => None,
    }
}

/// The definitions among the first `n` resources of a template.
pub open spec fn resource_places(items: Seq<Node>, n: nat) -> Seq<LocatedView>
    decreases n,
{
    if n == 0 || n > items.len() {
        Seq::empty()
    } else {
        let before = resource_places(items, (n - 1) as nat);
        match resource_definition(&items[n - 1]) {
            Some(definition) => before.push(
                LocatedView {
                    definition,
                    pointer: resource_pointer(n - 1),
                    kind: None,
                },
            ),
            None => before,
        }
    }
}

/// Where the definition of a template resource stands.
pub open spec fn resource_pointer(index: int) -> Seq<char> {
    joined(
        joined(joined(joined(Seq::empty(), "resources"@), decimal(index)), "properties"@),
        "definition"@,
    )
}

/// The definitions of a document: the one in a wrapper, those of the workflow
/// resources of a template, or the document itself.
pub open spec fn definition_places(value: &Node) -> Seq<LocatedView> {
    match field(value, "definition"@) {
        Some(definition) => seq![
            LocatedView {
                definition,
                pointer: joined(Seq::empty(), "definition"@),
                kind: wrapper_kind(value),
            },
        ],
        None => match field(value, "resources"@) {
            Some(resources) => match resources.kind {
                Json::Array(items) => resource_places(items@, items@.len()),
                _ => Seq::empty(),
            },
            None => seq![
                LocatedView { definition: *value, pointer: Seq::empty(), kind: None },
            ],
        },
    }
}

fn get_wrapper_kind(value: &Node) -> (kind: Option<WorkflowKind>)
    ensures
        kind_value(kind) == wrapper_kind(value),
{
    match get(value, "kind") {
        Some(kind) => match as_string(kind) {
            Some(name) => Some(WorkflowKind::Named(owned(name))),
            None => Some(WorkflowKind::InvalidType),
        },
        None => None,
    }
}

fn get_resource_definition<'a>(resource: &'a Node) -> (found: Option<&'a Node>)
    ensures
        match found {
            Some(definition) => resource_definition(resource) == Some(*definition),
            None => resource_definition(resource) is None,
        },
{
    match get_string(resource, "type") {
        Some(kind) => if eq_ignoring_case(kind, "Microsoft.Logic/workflows") {
            match get(resource, "properties") {
                Some(properties) => get(properties, "definition"),
                None => None,
            }
        } else {
            None
        },
        None => None,
    }
}

fn resource_pointer_text(index: usize) -> (pointer: String)
    ensures
        pointer@ == resource_pointer(index as int),
{
    proof {
        reveal_strlit("");
        assert(""@ =~= Seq::<char>::empty());
    }
    let resources = pointer_join("", "resources");
    let position = decimal_of_usize(index);
    let resource = pointer_join(resources.as_str(), position.as_str());
    let properties = pointer_join(resource.as_str(), "properties");
    pointer_join(properties.as_str(), "definition")
}

fn locate_in_resources<'a>(items: &'a Vec<Node>) -> (list: Vec<Located<'a>>)
    ensures
        places(list@) == resource_places(items@, items@.len()),
{
    let mut list: Vec<Located<'a>> = Vec::new();
    assert(places(list@) =~= Seq::empty());
    let mut i: usize = 0;
    while i < items.len()
        invariant
            i <= items.len(),
            places(list@) == resource_places(items@, i as nat),
        decreases items.len() - i,
    {
        if let Some(definition) = get_resource_definition(&items[i]) {
            let located = Located { definition, pointer: resource_pointer_text(i), kind: None };
            let ghost before = list@;
            list.push(located);
            assert(places(list@) =~= places(before).push(located@));
        }
        i += 1;
    }
    list
}

/// Locate the workflow definitions of a document.
pub fn locate_definitions<'a>(value: &'a Node) -> (list: Vec<Located<'a>>)
    ensures
        places(list@) == definition_places(value),
{
    let mut list: Vec<Located<'a>> = Vec::new();
    proof {
        reveal_strlit("");
        assert(""@ =~= Seq::<char>::empty());
        assert(places(list@) =~= Seq::empty());
    }
    match get(value, "definition") {
        Some(definition) => {
            let located = Located {
                definition,
                pointer: pointer_join("", "definition"),
                kind: get_wrapper_kind(value),
            };
            list.push(located);
            assert(places(list@) =~= seq![located@]);
            list
        },
        None => match get(value, "resources") {
            Some(resources) => match as_array(resources) {
                Some(items) => locate_in_resources(items),
                None => list,
            },
            None => {
                let located = Located { definition: value, pointer: owned(""), kind: None };
                list.push(located);
                assert(places(list@) =~= seq![located@]);
                list
            },
        },
    }
}

} // verus!
