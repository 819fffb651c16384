//! What template evaluation knows of the expressions in a document.
//!
//! A deployment template may write a value as a full expression
//! (`"[...]"`). The evaluator decides which strings are full expressions and
//! how far each can be resolved before deployment; the checks read its
//! answers from an [`ArmScope`].

use vstd::prelude::*;

use crate::diagnostic::ByteSpan;
use crate::json::{Member, Node};
use crate::text::{chars_of, text_eq, texts};
use crate::workflow::extraction::{collect_leaves, leaves};

verus! {

/// The type a template expression is known to produce.
#[derive(Debug, Clone, Copy, PartialEq, Eq, Structural)]
pub enum ArmValueType {
    Array,
    Bool,
    Int,
    Object,
    String,
}

/// What is known of one full template expression.
#[derive(Debug)]
pub struct ArmExpression {
    /// The expression as written, brackets included.
    pub text: String,
    /// The value it resolves to before deployment.
    pub value: Option<Node>,
    /// That value with the expressions nested in it resolved as well.
    pub materialized: Option<Node>,
    /// The string it resolves to before deployment.
    pub string: Option<String>,
    /// The members that its object result is known to have.
    pub entries: Option<Vec<Member>>,
    /// The type of its result.
    pub result_type: Option<ArmValueType>,
}

/// The full template expressions of a document, as seen under one set of
/// template parameters and variables.
#[derive(Debug)]
pub struct ArmScope {
    pub expressions: Vec<ArmExpression>,
    /// The objects of the document that change once the expressions nested in
    /// them are resolved.
    pub rewritten: Vec<Rewritten>,
}

/// An object of the document and what it becomes.
#[derive(Debug)]
pub struct Rewritten {
    /// The byte range that the object occupies.
    pub span: ByteSpan,
    /// The object with its nested expressions resolved.
    pub value: Node,
}

/// The first entry for `text`.
pub open spec fn expression_named(list: Seq<ArmExpression>, text: Seq<char>) -> Option<
    ArmExpression,
>
    decreases list.len(),
{
    if list.len() == 0 {
        None
    } else if list[0].text@ == text {
        Some(list[0])
    } else {
        expression_named(list.skip(1), text)
    }
}

/// The first rewriting of the object at `span`.
pub open spec fn rewritten_at(list: Seq<Rewritten>, span: ByteSpan) -> Option<Node>
    decreases list.len(),
{
    if list.len() == 0 {
        None
    } else if list[0].span == span {
        Some(list[0].value)
    } else {
        rewritten_at(list.skip(1), span)
    }
}

/// What `scope` knows of `text`; nothing where `text` is no full expression.
pub open spec fn known(scope: &ArmScope, text: Seq<char>) -> Option<ArmExpression> {
    expression_named(scope.expressions@, text)
}

/// The value that `text` resolves to, nested expressions resolved where possible.
pub open spec fn static_value(scope: &ArmScope, text: Seq<char>) -> Option<Node> {
    match known(scope, text) {
        Some(expression) => match expression.value {
            Some(value) => match expression.materialized {
                Some(full) => Some(full),
                None => Some(value),
            },
            None => None,
        },
        None => None,
    }
}

/// The result of `text` may be an array.
pub open spec fn may_be_array(scope: &ArmScope, text: Seq<char>) -> bool {
    match known(scope, text) {
        Some(expression) => match expression.result_type {
            Some(kind) => kind == ArmValueType::Array,
            None => true,
        },
        None => true,
    }
}

impl ArmScope {
    /// What the scope knows of `text`.
    pub fn lookup(&self, text: &str) -> (found: Option<&ArmExpression>)
        ensures
            match found {
                Some(expression) => known(self, text@) == Some(*expression),
                None => known(self, text@) is None,
            },
    {
        let list = &self.expressions;
        let mut i: usize = 0;
        assert(list@.skip(0) =~= list@);
        while i < list.len()
            invariant
                i <= list.len(),
                list == &self.expressions,
                known(self, text@) == expression_named(list@.skip(i as int), text@),
            decreases list.len() - i,
        {
            let expression = &list[i];
            assert(list@.skip(i as int)[0] == *expression);
            assert(list@.skip(i as int).skip(1) =~= list@.skip(i + 1));
            if text_eq(expression.text.as_str(), text) {
                return Some(expression);
            }
            i += 1;
        }
        None
    }

    /// What the object at `span` becomes, where it changes.
    pub fn rewriting(&self, span: ByteSpan) -> (found: Option<&Node>)
        ensures
            match found {
                Some(value) => rewritten_at(self.rewritten@, span) == Some(*value),
                None => rewritten_at(self.rewritten@, span) is None,
            },
    {
        let list = &self.rewritten;
        let mut i: usize = 0;
        assert(list@.skip(0) =~= list@);
        while i < list.len()
            invariant
                i <= list.len(),
                list == &self.rewritten,
                rewritten_at(self.rewritten@, span) == rewritten_at(list@.skip(i as int), span),
            decreases list.len() - i,
        {
            let entry = &list[i];
            assert(list@.skip(i as int)[0] == *entry);
            assert(list@.skip(i as int).skip(1) =~= list@.skip(i + 1));
            if entry.span == span {
                return Some(&entry.value);
            }
            i += 1;
        }
        None
    }

    /// `text` is a full template expression.
    pub fn is_full_expression(&self, text: &str) -> (holds: bool)
        ensures
            holds == (known(self, text@) is Some),
    {
        self.lookup(text).is_some()
    }

    /// The value that `text` resolves to, nested expressions resolved where possible.
    pub fn static_expression_value(&self, text: &str) -> (found: Option<&Node>)
        ensures
            match found {
                Some(value) => static_value(self, text@) == Some(*value),
                None => static_value(self, text@) is None,
            },
    {
        match self.lookup(text) {
            Some(expression) => match &expression.value {
                Some(value) => match &expression.materialized {
                    Some(full) => Some(full),
                    None => Some(value),
                },
                None => None,
            },
            None => None,
        }
    }

    /// The result of `text` may be an array.
    pub fn may_resolve_to_array(&self, text: &str) -> (holds: bool)
        ensures
            holds == may_be_array(self, text@),
    {
        match self.lookup(text) {
            Some(expression) => match expression.result_type {
                Some(kind) => kind == ArmValueType::Array,
                None => true,
            },
            None => true,
        }
    }
}

/// A text in the brackets of a full expression. Two opening brackets escape
/// the first.
pub open spec fn reads_as_expression(text: Seq<char>) -> bool {
    &&& text.len() >= 2
    &&& text[0] == '['
    &&& text[1] != '['
    &&& text.last() == ']'
}

/// The texts among the first `n` that read as full expressions.
pub open spec fn expressions_among(list: Seq<Seq<char>>, n: nat) -> Seq<Seq<char>>
    decreases n,
{
    if n == 0 || n > list.len() {
        Seq::empty()
    } else if reads_as_expression(list[n - 1]) {
        expressions_among(list, (n - 1) as nat).push(list[n - 1])
    } else {
        expressions_among(list, (n - 1) as nat)
    }
}

/// The texts of a list of expressions.
pub open spec fn expression_texts(list: Seq<ArmExpression>) -> Seq<Seq<char>> {
    Seq::new(list.len(), |i: int| list[i].text@)
}

/// Nothing is known of an expression but how it is written.
pub open spec fn is_unevaluated(expression: ArmExpression) -> bool {
    &&& expression.value is None
    &&& expression.materialized is None
    &&& expression.string is None
    &&& expression.entries is None
    &&& expression.result_type is None
}

fn is_expression_text(text: &str) -> (holds: bool)
    ensures
        holds == reads_as_expression(text@),
{
    let chars = chars_of(text);
    let length: usize = chars.len();
    length >= 2 && chars[0] == '[' && chars[1] != '[' && chars[length - 1] == ']'
}

/// The scope in which no expression of a document is evaluated: every one is
/// left for deployment.
pub fn unevaluated_scope(value: &Node) -> (scope: ArmScope)
    ensures
        expression_texts(scope.expressions@) == expressions_among(
            leaves(value),
            leaves(value).len(),
        ),
        forall|i: int|
            0 <= i < scope.expressions@.len() ==> is_unevaluated(#[trigger] scope.expressions@[i]),
        scope.rewritten@.len() == 0,
{
    let mut all: Vec<String> = Vec::new();
    collect_leaves(value, &mut all);
    assert(texts(all@) =~= leaves(value));
    let mut list: Vec<ArmExpression> = Vec::new();
    assert(expression_texts(list@) =~= Seq::empty());
    let mut i: usize = 0;
    while i < all.len()
        invariant
            i <= all.len(),
            expression_texts(list@) == expressions_among(texts(all@), i as nat),
            forall|k: int| 0 <= k < list@.len() ==> is_unevaluated(#[trigger] list@[k]),
        decreases all.len() - i,
    {
        if is_expression_text(all[i].as_str()) {
            let text = all[i].clone();
            let ghost before = list@;
            list.push(
                ArmExpression {
                    text,
                    value: None,
                    materialized: None,
                    string: None,
                    entries: None,
                    result_type: None,
                },
            );
            assert(expression_texts(list@) =~= expression_texts(before).push(text@));
        }
        i += 1;
    }
    ArmScope { expressions: list, rewritten: Vec::new() }
}

} // verus!
