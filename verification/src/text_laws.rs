//! What texts, numbers and documents are told apart by.

use vstd::prelude::*;

use crate::arm::{expression_named, known};
use crate::diagnostic::{ByteSpan, Finding, Severity};
use crate::json::{
    escaped, field, joined, member_named, text_field, text_of, Document, Json, Member, Node,
};
use crate::shape::arm_boundary::{
    allows_expressions, authored, checked, is_absent, is_unresolved, present, static_text,
};
use crate::shape::dynamic_wdl::{may_be_integer, may_be_positive_integer};
use crate::shape::numbers::is_expression_text;
use crate::shape::recurrence_laws::lemma_unmarked_is_literal;
use crate::shape::report::{missing, wrong_context, wrong_type, wrong_value};
use crate::text::{
    all_digits, decimal, decimal_nat, digits_value, folded, has_part, has_prefix, has_suffix,
    occurs_at, same_ignoring_case, spelled_integer,
};
use crate::workflow::location::{definition_places, resource_places, resource_pointer, LocatedView};

verus! {

/// Two letters are the same up to case.
pub open spec fn same_letter(left: char, right: char) -> bool {
    ||| left == right
    ||| 'A' <= left <= 'Z' && right as int == left as int - 'A' as int + 'a' as int
    ||| 'A' <= right <= 'Z' && left as int == right as int - 'A' as int + 'a' as int
}

/// Case is ignored letter by letter, and of the letters `A` to `Z` only.
pub proof fn law_case_is_ignored_letter_by_letter(left: Seq<char>, right: Seq<char>)
    ensures
        same_ignoring_case(left, right) == (left.len() == right.len() && forall|i: int|
            0 <= i < left.len() ==> same_letter(#[trigger] left[i], right[i])),
{
    if left.len() == right.len() {
        assert forall|i: int| 0 <= i < left.len() implies same_letter(left[i], right[i]) == (
        #[trigger] folded(left[i]) == folded(right[i])) by {
            let a = left[i];
            let b = right[i];
            assert(a as int == b as int ==> a == b);
        }
        if same_ignoring_case(left, right) {
            assert forall|i: int| 0 <= i < left.len() implies same_letter(
                #[trigger] left[i],
                right[i],
            ) by {
                assert(folded(left[i]) == folded(right[i]));
            }
        }
        if forall|i: int| 0 <= i < left.len() ==> same_letter(#[trigger] left[i], right[i]) {
            assert forall|i: int| 0 <= i < left.len() implies #[trigger] folded(left[i]) == folded(
                right[i],
            ) by {
                assert(same_letter(left[i], right[i]));
            }
        }
    }
}

/// A text begins with, ends with and holds what it is put together from.
pub proof fn law_texts_hold_their_pieces(front: Seq<char>, part: Seq<char>, back: Seq<char>)
    ensures
        has_prefix(front + part + back, front),
        has_suffix(front + part + back, back),
        has_part(front + part + back, part),
{
    let text = front + part + back;
    let n = front.len() as int;
    assert(text.subrange(0, n) =~= front);
    assert(text.subrange(n, n + part.len()) =~= part);
    assert(occurs_at(text, part, n));
    assert(text.subrange(text.len() - back.len(), text.len() as int) =~= back);
}

/// What a text begins with, ends with or holds is a piece of it.
pub proof fn law_pieces_make_up_their_text(text: Seq<char>, part: Seq<char>)
    ensures
        has_prefix(text, part) ==> exists|back: Seq<char>| #[trigger] (part + back) == text,
        has_suffix(text, part) ==> exists|front: Seq<char>| #[trigger] (front + part) == text,
        has_part(text, part) ==> exists|front: Seq<char>, back: Seq<char>|
            #[trigger] (front + part + back) == text,
{
    let n = part.len() as int;
    if has_prefix(text, part) {
        assert(part + text.skip(n) =~= text);
    }
    if has_suffix(text, part) {
        assert(text.take(text.len() - n) + part =~= text);
    }
    if has_part(text, part) {
        let at = choose|at: int| #[trigger] occurs_at(text, part, at);
        assert(text.take(at) + part + text.skip(at + n) =~= text);
    }
}

proof fn lemma_decimal(n: nat)
    ensures
        digits_value(decimal_nat(n)) == n,
        decimal_nat(n).len() > 0,
        all_digits(decimal_nat(n)),
        n > 0 ==> decimal_nat(n)[0] != '0',
    decreases n,
{
    if n < 10 {
        let text = decimal_nat(n);
        assert(text.drop_last() =~= Seq::<char>::empty());
        assert(digits_value(text.drop_last()) == 0);
        assert(digits_value(text) == digits_value(text.drop_last()) * 10 + (text.last() as int
            - '0' as int));
    } else {
        lemma_decimal(n / 10);
        let front = decimal_nat(n / 10);
        let text = decimal_nat(n);
        assert(text.drop_last() =~= front);
        assert(text[0] == front[0]);
        assert forall|i: int| 0 <= i < text.len() implies '0' <= #[trigger] text[i] <= '9' by {
            if i < front.len() {
                assert(text[i] == front[i]);
                assert(crate::text::is_digit(front[i]));
            }
        }
        assert(n == 10 * (n / 10) + n % 10);
    }
}

/// A number written out reads back as itself, and has no zero in front.
pub proof fn law_numbers_read_back(n: int)
    ensures
        spelled_integer(decimal(n)) == Some(n),
        n > 0 ==> decimal(n)[0] != '0',
        n < 0 ==> decimal(n)[0] == '-' && decimal(n)[1] != '0',
        decimal(0) == seq!['0'],
{
    if n < 0 {
        let m = (-n) as nat;
        lemma_decimal(m);
        let text = decimal(n);
        assert(text.skip(1) =~= decimal_nat(m));
        assert(text[0] == '-');
        assert(!crate::text::is_digit(text[0]));
        assert(!all_digits(text));
        assert(text[1] == decimal_nat(m)[0]);
    } else {
        lemma_decimal(n as nat);
    }
}

/// Digits are a positive integer exactly where they are not all zeros and fit 64
/// bits, and an integer exactly where they fit 63.
pub proof fn law_digits_are_integers(digits: Seq<char>)
    requires
        digits.len() > 0,
        forall|i: int| 0 <= i < digits.len() ==> '0' <= #[trigger] digits[i] <= '9',
    ensures
        may_be_positive_integer(digits) == (0 < digits_value(digits) <= u64::MAX),
        may_be_integer(digits) == (digits_value(digits) <= i64::MAX),
        may_be_integer(seq!['-'] + digits) == (digits_value(digits) <= i64::MAX + 1),
        !may_be_positive_integer(seq!['-'] + digits),
{
    assert forall|i: int| 0 <= i < digits.len() implies #[trigger] digits[i] != '@' by {}
    lemma_unmarked_is_literal(digits);
    assert(all_digits(digits));
    let negative = seq!['-'] + digits;
    assert forall|i: int| 0 <= i < negative.len() implies #[trigger] negative[i] != '@' by {
        if i > 0 {
            assert(negative[i] == digits[i - 1]);
        }
    }
    lemma_unmarked_is_literal(negative);
    assert(negative.skip(1) =~= digits);
    assert(negative[0] == '-');
    assert(!crate::text::is_digit(negative[0]));
    assert(!all_digits(negative));
}

/// A text is an expression where it begins with one `@` and no second.
pub proof fn law_one_mark_makes_an_expression(text: Seq<char>, c: char)
    requires
        c != '@',
    ensures
        is_expression_text(seq!['@', c] + text),
        !is_expression_text(seq!['@', '@'] + text),
        !is_expression_text(seq![c] + text),
{
    let one = seq!['@', c] + text;
    let two = seq!['@', '@'] + text;
    let none = seq![c] + text;
    assert(one[0] == '@' && one[1] == c);
    assert(two[0] == '@' && two[1] == '@');
    assert(none[0] == c);
}

/// A member of an object is the first of its name.
pub proof fn law_fields_are_first_members(node: &Node, members: Vec<Member>, at: int)
    requires
        node.kind == Json::Object(members),
        0 <= at < members@.len(),
        forall|i: int| 0 <= i < at ==> (#[trigger] members@[i]).name@ != members@[at].name@,
    ensures
        field(node, members@[at].name@) == Some(members@[at].value),
{
    lemma_member(members@, at);
}

proof fn lemma_member(members: Seq<Member>, at: int)
    requires
        0 <= at < members.len(),
        forall|i: int| 0 <= i < at ==> (#[trigger] members[i]).name@ != members[at].name@,
    ensures
        member_named(members, members[at].name@) == Some(members[at].value),
    decreases at,
{
    if at > 0 {
        let rest = members.skip(1);
        assert(rest[at - 1] == members[at]);
        assert forall|i: int| 0 <= i < at - 1 implies (#[trigger] rest[i]).name@ != rest[at
            - 1].name@ by {
            assert(rest[i] == members[i + 1]);
        }
        lemma_member(rest, at - 1);
    }
}

/// A name that no member has is no field.
pub proof fn law_other_names_are_no_fields(node: &Node, members: Vec<Member>, key: Seq<char>)
    requires
        node.kind == Json::Object(members),
        forall|i: int| 0 <= i < members@.len() ==> (#[trigger] members@[i]).name@ != key,
    ensures
        field(node, key) is None,
{
    lemma_no_member(members@, key);
}

proof fn lemma_no_member(members: Seq<Member>, key: Seq<char>)
    requires
        forall|i: int| 0 <= i < members.len() ==> (#[trigger] members[i]).name@ != key,
    ensures
        member_named(members, key) is None,
    decreases members.len(),
{
    if members.len() > 0 {
        let rest = members.skip(1);
        assert forall|i: int| 0 <= i < rest.len() implies (#[trigger] rest[i]).name@ != key by {
            assert(rest[i] == members[i + 1]);
        }
        lemma_no_member(rest, key);
    }
}

/// A finding is an error, says what it says and where: at the member that is
/// missing, of the wrong type or value, or out of place.
pub proof fn law_findings_name_their_place(
    file: &Document,
    base: Seq<char>,
    key: Seq<char>,
    span: ByteSpan,
    message: Seq<char>,
)
    ensures
        ({
            let at = Finding {
                code: "workflow-shape-missing-field"@,
                severity: Severity::Error,
                path: file.path@,
                pointer: joined(base, key),
                span: Some(span),
                message,
            };
            &&& missing(file, base, key, span, message) == seq![at]
            &&& wrong_type(file, base, key, span, message) == seq![
                Finding { code: "workflow-shape-invalid-type"@, ..at },
            ]
            &&& wrong_value(file, base, key, span, message) == seq![
                Finding { code: "workflow-shape-invalid-value"@, ..at },
            ]
            &&& wrong_context(file, base, key, span, message) == seq![
                Finding { code: "workflow-shape-invalid-context"@, ..at },
            ]
        }),
{
}

/// A document is a template by its schema, and else by its resources, unless it
/// has what a workflow has.
pub proof fn law_templates_are_told_by_schema(file: &Document, before: Seq<char>, after: Seq<char>)
    ensures
        text_field(file.value, "$schema"@) == Some(before + "/deploymentTemplate.json"@ + after)
            ==> allows_expressions(file),
        text_field(file.value, "$schema"@) is None ==> allows_expressions(file) == ({
            &&& field(file.value, "actions"@) is None
            &&& field(file.value, "triggers"@) is None
            &&& field(file.value, "definition"@) is None
            &&& field(file.value, "resources"@) is Some
            &&& match (field(file.value, "resources"@)->Some_0).kind {
                Json::Null => false,
                Json::String(text) => match known(file.arm, text@) {
                    Some(expression) => match expression.value {
                        Some(value) => !(value.kind is Null),
                        None => true,
                    },
                    None => true,
                },
                _ => true,
            }
        }),
{
    reveal(allows_expressions);
    law_texts_hold_their_pieces(before, "/deploymentTemplate.json"@, after);
}

/// A member that is an expression of a template is not judged as it is written:
/// it is left out where the expression gives null, and stands for what the
/// expression gives.
pub proof fn law_expressions_stand_for_their_value(
    file: &Document,
    object: &Node,
    key: Seq<char>,
    text: Seq<char>,
)
    requires
        allows_expressions(file),
        text_field(object, key) == Some(text),
        expression_named(file.arm.expressions@, text) is Some,
    ensures
        ({
            let value = field(object, key)->Some_0;
            let expression = expression_named(file.arm.expressions@, text)->Some_0;
            let gives_null = expression.value is Some && (match expression.materialized {
                Some(full) => full.kind is Null,
                None => (expression.value->Some_0).kind is Null,
            });
            &&& checked(file, object, key) is None
            &&& authored(file, object, key) is None
            &&& (present(file, object, key) is None) == gives_null
            &&& is_absent(file, &value) == gives_null
            &&& is_unresolved(file, &value) == (expression.value is None)
            &&& static_text(file, &value) == (match expression.string {
                Some(result) => Some(result@),
                None => None,
            })
        }),
{
}

proof fn lemma_places(items: Seq<Node>, n: nat)
    requires
        n <= items.len(),
    ensures
        forall|place: LocatedView| #[trigger]
            resource_places(items, n).contains(place) == exists|i: int|
                #![trigger items[i]]
                0 <= i < n && is_place_of(items[i], i, place),
        resource_places(items, n).len() <= n,
    decreases n,
{
    if n > 0 {
        let m = (n - 1) as nat;
        lemma_places(items, m);
        let before = resource_places(items, m);
        let now = resource_places(items, n);
        let item = items[n - 1];
        lemma_resource_pointer(n - 1);
        assert forall|place: LocatedView| #[trigger]
            now.contains(place) == exists|i: int|
                #![trigger items[i]]
                0 <= i < n && is_place_of(items[i], i, place) by {
            assert(now.contains(place) == (before.contains(place) || is_place_of(
                item,
                n - 1,
                place,
            ))) by {
                if before.contains(place) {
                    let k = choose|k: int| 0 <= k < before.len() && before[k] == place;
                    assert(now[k] == place);
                }
                if is_place_of(item, n - 1, place) {
                    assert(now.len() == before.len() + 1);
                    assert(now[before.len() as int] == place);
                }
                if now.contains(place) {
                    let k = choose|k: int| 0 <= k < now.len() && now[k] == place;
                    if k < before.len() {
                        assert(before[k] == place);
                    }
                }
            }
            if before.contains(place) {
                let i = choose|i: int|
                    #![trigger items[i]]
                    0 <= i < m && is_place_of(items[i], i, place);
                assert(is_place_of(items[i], i, place));
            }
        }
    } else {
        assert forall|place: LocatedView| !(#[trigger] resource_places(items, n).contains(place)) by {}
    }
}

/// The definition that the resource of this position holds, where the resource
/// is a workflow.
pub open spec fn is_place_of(resource: Node, index: int, place: LocatedView) -> bool {
    &&& text_field(&resource, "type"@) is Some
    &&& same_ignoring_case(text_field(&resource, "type"@)->Some_0, "Microsoft.Logic/workflows"@)
    &&& field(&resource, "properties"@) is Some
    &&& field(&(field(&resource, "properties"@)->Some_0), "definition"@) == Some(place.definition)
    &&& place.pointer == "/resources/"@ + decimal(index) + "/properties/definition"@
    &&& place.kind is None
}

pub proof fn lemma_escaped_word(token: Seq<char>)
    requires
        forall|i: int| 0 <= i < token.len() ==> #[trigger] token[i] != '~' && token[i] != '/',
    ensures
        escaped(token) == token,
    decreases token.len(),
{
    if token.len() > 0 {
        lemma_escaped_word(token.drop_last());
        assert(token.drop_last() + seq![token.last()] =~= token);
    } else {
        assert(escaped(token) =~= token);
    }
}

proof fn lemma_resource_pointer(index: int)
    requires
        0 <= index,
    ensures
        resource_pointer(index) == "/resources/"@ + decimal(index) + "/properties/definition"@,
{
    reveal_strlit("resources");
    reveal_strlit("properties");
    reveal_strlit("definition");
    reveal_strlit("/");
    reveal_strlit("/resources/");
    reveal_strlit("/properties/definition");
    lemma_decimal(index as nat);
    assert forall|i: int| 0 <= i < decimal(index).len() implies #[trigger] decimal(index)[i] != '~'
        && decimal(index)[i] != '/' by {
        assert(crate::text::is_digit(decimal_nat(index as nat)[i]));
    }
    lemma_escaped_word("resources"@);
    lemma_escaped_word(decimal(index));
    lemma_escaped_word("properties"@);
    lemma_escaped_word("definition"@);
    assert("/resources/"@ =~= Seq::empty() + "/"@ + "resources"@ + "/"@);
    assert("/properties/definition"@ =~= "/"@ + "properties"@ + "/"@ + "definition"@);
    assert(resource_pointer(index) =~= "/resources/"@ + decimal(index)
        + "/properties/definition"@);
}

/// The definitions of a document are those of its workflow resources where it has
/// resources and no definition of its own; else the definition that it wraps, with
/// the kind beside it; else the document itself.
pub proof fn law_definitions_are_found_by_layout(value: &Node)
    ensures
        match field(value, "definition"@) {
            Some(definition) => definition_places(value) == seq![
                LocatedView {
                    definition,
                    pointer: "/definition"@,
                    kind: match field(value, "kind"@) {
                        Some(kind) => Some(text_of(&kind)),
                        None => None,
                    },
                },
            ],
            None => match field(value, "resources"@) {
                Some(resources) => match resources.kind {
                    Json::Array(items) => forall|place: LocatedView| #[trigger]
                        definition_places(value).contains(place) == exists|i: int|
                            #![trigger items@[i]]
                            0 <= i < items@.len() && is_place_of(items@[i], i, place),
                    _ => definition_places(value).len() == 0,
                },
                None => definition_places(value) == seq![
                    LocatedView { definition: *value, pointer: Seq::empty(), kind: None },
                ],
            },
        },
{
    reveal_strlit("definition");
    reveal_strlit("/definition");
    reveal_strlit("/");
    lemma_escaped_word("definition"@);
    assert(joined(Seq::empty(), "definition"@) =~= "/definition"@);
    if field(value, "definition"@) is None {
        if let Some(resources) = field(value, "resources"@) {
            if let Json::Array(items) = resources.kind {
                lemma_places(items@, items@.len());
            }
        }
    }
}

} // verus!
