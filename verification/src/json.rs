//! Span-preserving JSON layer.
//!
//! Every node keeps the byte range it occupies in its source document, so
//! diagnostics point at exact source ranges without a second parse.

use vstd::prelude::*;

use crate::arm::ArmScope;
use crate::diagnostic::ByteSpan;
use crate::text::{chars_of, parse_u64, spelled_u64, string_of, text3, text_eq};

pub mod laws;
pub mod read;

verus! {

/// A JSON number: a nonnegative integer, a negative integer, or any other
/// number by its decimal text.
#[derive(Debug)]
pub enum Number {
    PosInt(u64),
    NegInt(i64),
    Float(String),
}

/// The content of a JSON node.
#[derive(Debug)]
pub enum Json {
    Null,
    Bool(bool),
    Number(Number),
    String(String),
    Array(Vec<Node>),
    Object(Vec<Member>),
}

/// A JSON node with the byte range it occupies.
#[derive(Debug)]
pub struct Node {
    pub span: ByteSpan,
    pub kind: Json,
}

/// One member of a JSON object.
#[derive(Debug)]
pub struct Member {
    pub name: String,
    pub value: Node,
}

/// A parsed JSON document paired with its path.
#[derive(Debug)]
pub struct JsonFile {
    /// Path the document was read from; used verbatim in diagnostics.
    pub path: String,
    /// Parsed root value with per-node byte spans.
    pub value: Node,
}

/// What the checks read of a document.
#[derive(Debug)]
pub struct Document<'a> {
    /// Path of the document; used verbatim in diagnostics.
    pub path: &'a str,
    /// Root value.
    pub value: &'a Node,
    /// What template evaluation knows of the document's expressions when no
    /// template parameters or variables are in scope.
    pub arm: &'a ArmScope,
    /// The strings of the document that read as finite floating-point numbers.
    pub finite_numbers: &'a Vec<String>,
    /// Seconds since the Unix epoch at which the document is checked, where
    /// the clock gives them.
    pub clock: Option<u64>,
}

/// The first member named `key`.
pub open spec fn member_named(members: Seq<Member>, key: Seq<char>) -> Option<Node>
    decreases members.len(),
{
    if members.len() == 0 {
        None
    } else if members[0].name@ == key {
        Some(members[0].value)
    } else {
        member_named(members.skip(1), key)
    }
}

/// The member of an object node named `key`.
pub open spec fn field(value: &Node, key: Seq<char>) -> Option<Node> {
    match value.kind {
        Json::Object(members) => member_named(members@, key),
        _ => None,
    }
}

/// The text of a string node.
pub open spec fn text_of(value: &Node) -> Option<Seq<char>> {
    match value.kind {
        Json::String(text) => Some(text@),
        _ => None,
    }
}

/// The text of the string member named `key`.
pub open spec fn text_field(value: &Node, key: Seq<char>) -> Option<Seq<char>> {
    match field(value, key) {
        Some(member) => text_of(&member),
        None => None,
    }
}

/// How a character is written inside a JSON Pointer token.
pub open spec fn escaped_char(c: char) -> Seq<char> {
    if c == '~' {
        seq!['~', '0']
    } else if c == '/' {
        seq!['~', '1']
    } else {
        seq![c]
    }
}

/// How a text is written as a JSON Pointer token.
pub open spec fn escaped(token: Seq<char>) -> Seq<char>
    decreases token.len(),
{
    if token.len() == 0 {
        seq![]
    } else {
        escaped(token.drop_last()) + escaped_char(token.last())
    }
}

/// The JSON Pointer `base` extended by one token.
pub open spec fn joined(base: Seq<char>, token: Seq<char>) -> Seq<char> {
    base + "/"@ + escaped(token)
}

/// Extract the byte range that `value` occupies in its source document.
pub fn span(value: &Node) -> (range: ByteSpan)
    ensures
        range == value.span,
{
    value.span
}

/// Look up `key` on an object node, returning `None` for non-objects or misses.
pub fn get<'a>(value: &'a Node, key: &str) -> (found: Option<&'a Node>)
    ensures
        match found {
            Some(member) => field(value, key@) == Some(*member),
            None => field(value, key@) is None,
        },
{
    match &value.kind {
        Json::Object(members) => get_member(members.as_slice(), key),
        _ => None,
    }
}

/// Look up `key` among `members`.
pub fn get_member<'a>(members: &'a [Member], key: &str) -> (found: Option<&'a Node>)
    ensures
        match found {
            Some(member) => member_named(members@, key@) == Some(*member),
            None => member_named(members@, key@) is None,
        },
{
    let mut i: usize = 0;
    assert(members@.skip(0) =~= members@);
    while i < members.len()
        invariant
            i <= members@.len(),
            member_named(members@, key@) == member_named(members@.skip(i as int), key@),
        decreases members@.len() - i,
    {
        let member = &members[i];
        assert(members@.skip(i as int)[0] == *member);
        assert(members@.skip(i as int).skip(1) =~= members@.skip(i + 1));
        if text_eq(member.name.as_str(), key) {
            return Some(&member.value);
        }
        i += 1;
    }
    None
}

/// Borrow the members of an object node, or `None` for any other kind.
pub fn as_object(value: &Node) -> (members: Option<&Vec<Member>>)
    ensures
        match members {
            Some(found) => value.kind == Json::Object(*found),
            None => !(value.kind is Object),
        },
{
    match &value.kind {
        Json::Object(members) => Some(members),
        _ => None,
    }
}

/// Borrow the items of an array node, or `None` for any other kind.
pub fn as_array(value: &Node) -> (items: Option<&Vec<Node>>)
    ensures
        match items {
            Some(found) => value.kind == Json::Array(*found),
            None => !(value.kind is Array),
        },
{
    match &value.kind {
        Json::Array(items) => Some(items),
        _ => None,
    }
}

/// Borrow `value` as a string, or return `None` if it is any other kind.
pub fn as_string(value: &Node) -> (text: Option<&str>)
    ensures
        match text {
            Some(found) => text_of(value) == Some(found@),
            None => text_of(value) is None,
        },
{
    match &value.kind {
        Json::String(text) => Some(text.as_str()),
        _ => None,
    }
}

/// Borrow the text of the string member named `key`.
pub fn get_string<'a>(value: &'a Node, key: &str) -> (text: Option<&'a str>)
    ensures
        match text {
            Some(found) => text_field(value, key@) == Some(found@),
            None => text_field(value, key@) is None,
        },
{
    match get(value, key) {
        Some(member) => as_string(member),
        None => None,
    }
}

impl Node {
    pub fn is_null(&self) -> (holds: bool)
        ensures
            holds == (self.kind is Null),
    {
        matches!(self.kind, Json::Null)
    }

    pub fn is_bool(&self) -> (holds: bool)
        ensures
            holds == (self.kind is Bool),
    {
        matches!(self.kind, Json::Bool(_))
    }

    pub fn is_number(&self) -> (holds: bool)
        ensures
            holds == (self.kind is Number),
    {
        matches!(self.kind, Json::Number(_))
    }

    pub fn is_string(&self) -> (holds: bool)
        ensures
            holds == (self.kind is String),
    {
        matches!(self.kind, Json::String(_))
    }

    pub fn is_array(&self) -> (holds: bool)
        ensures
            holds == (self.kind is Array),
    {
        matches!(self.kind, Json::Array(_))
    }

    pub fn is_object(&self) -> (holds: bool)
        ensures
            holds == (self.kind is Object),
    {
        matches!(self.kind, Json::Object(_))
    }
}

/// Append `token` to a JSON Pointer `base`, escaping per RFC 6901.
pub fn pointer_join(base: &str, token: &str) -> (pointer: String)
    ensures
        pointer@ == joined(base@, token@),
{
    let token = escape_pointer_token(token);
    text3(base, "/", token.as_str())
}

/// Escape a single reference token following RFC 6901: `~` becomes `~0` and
/// `/` becomes `~1`.
pub fn escape_pointer_token(token: &str) -> (written: String)
    ensures
        written@ == escaped(token@),
{
    let chars = chars_of(token);
    let mut out: Vec<char> = Vec::new();
    let mut i: usize = 0;
    while i < chars.len()
        invariant
            i <= chars.len(),
            chars@ == token@,
            out@ == escaped(token@.take(i as int)),
        decreases chars.len() - i,
    {
        let c = chars[i];
        proof {
            assert(token@.take(i + 1).drop_last() =~= token@.take(i as int));
            assert(token@.take(i + 1).last() == c);
        }
        let ghost before = out@;
        if c == '~' {
            out.push('~');
            out.push('0');
        } else if c == '/' {
            out.push('~');
            out.push('1');
        } else {
            out.push(c);
        }
        assert(out@ =~= before + escaped_char(c));
        i += 1;
    }
    assert(token@.take(i as int) =~= token@);
    string_of(out.as_slice())
}

/// A JSON Pointer token as it was before escaping.
pub open spec fn unescaped(token: Seq<char>) -> Seq<char>
    decreases token.len(),
{
    if token.len() == 0 {
        Seq::empty()
    } else if token.len() > 1 && token[0] == '~' && token[1] == '1' {
        seq!['/'] + unescaped(token.skip(2))
    } else if token.len() > 1 && token[0] == '~' && token[1] == '0' {
        seq!['~'] + unescaped(token.skip(2))
    } else {
        seq![token[0]] + unescaped(token.skip(1))
    }
}

/// First position at or after `i` that holds a `/`, or the end.
pub open spec fn slash_from(path: Seq<char>, i: int) -> int
    decreases path.len() - i,
{
    if 0 <= i < path.len() && path[i] != '/' {
        slash_from(path, i + 1)
    } else {
        i
    }
}

/// The child of a node that a pointer token names: a member of an object, or
/// an item of an array by its position.
pub open spec fn child(value: &Node, token: Seq<char>) -> Option<Node> {
    match value.kind {
        Json::Object(members) => member_named(members@, token),
        Json::Array(items) => match spelled_u64(token) {
            Some(index) => if index < items@.len() {
                Some(items@[index])
            } else {
                None
            },
            None => None,
        },
        _ => None,
    }
}

/// The node that a JSON Pointer names, read from `value`.
pub open spec fn node_from(value: &Node, path: Seq<char>) -> Option<Node>
    decreases path.len(),
{
    if path.len() == 0 {
        Some(*value)
    } else if path[0] != '/' {
        None
    } else {
        let end = slash_from(path, 1);
        match child(value, unescaped(path.subrange(1, end))) {
            Some(next) => if 1 <= end <= path.len() {
                node_from(&next, path.skip(end))
            } else {
                None
            },
            None => None,
        }
    }
}

fn unescape_token(token: &[char]) -> (text: String)
    ensures
        text@ == unescaped(token@),
{
    let length: usize = token.len();
    let mut out: Vec<char> = Vec::new();
    let mut i: usize = 0;
    assert(token@.skip(0) =~= token@);
    assert(out@ + unescaped(token@) =~= unescaped(token@));
    while i < length
        invariant
            i <= length,
            length == token@.len(),
            unescaped(token@) == out@ + unescaped(token@.skip(i as int)),
        decreases length - i,
    {
        let ghost rest = token@.skip(i as int);
        let ghost before = out@;
        let c = token[i];
        assert(rest[0] == c);
        if c == '~' && length - i > 1 && (token[i + 1] == '1' || token[i + 1] == '0') {
            assert(rest[1] == token@[i + 1]);
            let plain: char = if token[i + 1] == '1' {
                '/'
            } else {
                '~'
            };
            out.push(plain);
            assert(rest.skip(2) =~= token@.skip(i + 2));
            assert(before + (seq![plain] + unescaped(token@.skip(i + 2))) =~= out@ + unescaped(
                token@.skip(i + 2),
            ));
            i += 2;
        } else {
            out.push(c);
            proof {
                if length - i > 1 {
                    assert(rest[1] == token@[i + 1]);
                }
            }
            assert(rest.skip(1) =~= token@.skip(i + 1));
            assert(before + (seq![c] + unescaped(token@.skip(i + 1))) =~= out@ + unescaped(
                token@.skip(i + 1),
            ));
            i += 1;
        }
    }
    assert(out@ + Seq::<char>::empty() =~= out@);
    string_of(out.as_slice())
}

fn get_child<'a>(value: &'a Node, token: &str) -> (found: Option<&'a Node>)
    ensures
        match found {
            Some(next) => child(value, token@) == Some(*next),
            None => child(value, token@) is None,
        },
{
    match &value.kind {
        Json::Object(members) => get_member(members.as_slice(), token),
        Json::Array(items) => match parse_u64(token) {
            Some(index) => if index < items.len() as u64 {
                Some(&items[index as usize])
            } else {
                None
            },
            None => None,
        },
        _ => None,
    }
}

/// Look up a node by JSON Pointer (RFC 6901).
pub fn node_at_pointer<'a>(value: &'a Node, path: &[char]) -> (found: Option<&'a Node>)
    ensures
        match found {
            Some(node) => node_from(value, path@) == Some(*node),
            None => node_from(value, path@) is None,
        },
{
    let length: usize = path.len();
    let mut current: &Node = value;
    let mut at: usize = 0;
    assert(path@.skip(0) =~= path@);
    while at < length
        invariant
            at <= length,
            length == path@.len(),
            node_from(value, path@) == node_from(current, path@.skip(at as int)),
        decreases length - at,
    {
        let ghost rest = path@.skip(at as int);
        assert(rest[0] == path@[at as int]);
        if path[at] != '/' {
            return None;
        }
        let mut end: usize = at + 1;
        while end < length && path[end] != '/'
            invariant
                at < end <= length,
                length == path@.len(),
                rest == path@.skip(at as int),
                slash_from(rest, 1) == slash_from(rest, end - at),
            decreases length - end,
        {
            assert(rest[end - at] == path@[end as int]);
            end += 1;
        }
        proof {
            if end < length {
                assert(rest[end - at] == path@[end as int]);
            }
            assert(slash_from(rest, 1) == end - at);
            assert(rest.subrange(1, end - at) =~= path@.subrange(at + 1, end as int));
            assert(rest.skip(end - at) =~= path@.skip(end as int));
        }
        let token = unescape_token(vstd::slice::slice_subrange(path, at + 1, end));
        match get_child(current, token.as_str()) {
            Some(next) => {
                current = next;
            },
            None => {
                return None;
            },
        }
        at = end;
    }
    Some(current)
}

/// A member of a node is smaller than the node.
pub proof fn lemma_field_smaller(value: &Node, key: Seq<char>)
    ensures
        match field(value, key) {
            Some(member) => decreases_to!(value => member),
            None => true,
        },
{
    match value.kind {
        Json::Object(members) => {
            if member_named(members@, key) is Some {
                let i = lemma_member_position(members@, key);
                assert(decreases_to!(value.kind => value.kind->Object_0));
                assert(decreases_to!(members => members[i]));
            }
        },
        _ => {},
    }
}

/// A member that is found by name stands somewhere.
pub proof fn lemma_member_position(members: Seq<Member>, key: Seq<char>) -> (i: int)
    requires
        member_named(members, key) is Some,
    ensures
        0 <= i < members.len(),
        member_named(members, key) == Some(members[i].value),
    decreases members.len(),
{
    if members[0].name@ == key {
        0
    } else {
        let i = lemma_member_position(members.skip(1), key);
        assert(members.skip(1)[i] == members[i + 1]);
        i + 1
    }
}

/// A `serde_json` tree, carried without looking inside.
#[verifier::external_type_specification]
#[verifier::external_body]
pub struct ExSerdeJsonValue(serde_json::Value);

/// The text that `serde_json::to_string` writes for a tree; nothing where the
/// tree holds a number that is no JSON number.
pub uninterp spec fn json_text(value: Node) -> Option<Seq<char>>;

/// Builds the `serde_json::Value` of a number. One written with a fraction or
/// an exponent goes through the parser of `serde_json` numbers. Nothing is
/// claimed of the result.
#[verifier::external_body]
fn number_value(number: &Number) -> Option<serde_json::Value> {
    match number {
        Number::PosInt(n) => Some(serde_json::Value::Number((*n).into())),
        Number::NegInt(n) => Some(serde_json::Value::Number((*n).into())),
        Number::Float(text) => Some(serde_json::Value::Number(text.parse().ok()?)),
    }
}

/// Builds the `serde_json::Value` with the same content, spans dropped.
/// Nothing is claimed of the result.
#[verifier::external_body]
pub fn to_json_value(value: &Node) -> Option<serde_json::Value> {
    Some(match &value.kind {
        Json::Null => serde_json::Value::Null,
        Json::Bool(b) => serde_json::Value::Bool(*b),
        Json::Number(number) => number_value(number)?,
        Json::String(text) => serde_json::Value::String(text.clone()),
        Json::Array(items) => serde_json::Value::Array(
            items.iter().map(to_json_value).collect::<Option<_>>()?,
        ),
        Json::Object(members) => serde_json::Value::Object(
            members.iter().map(|m| Some((m.name.clone(), to_json_value(&m.value)?))).collect::<
                Option<_>,
            >()?,
        ),
    })
}

/// Calls `serde_json::to_string`, which writes a tree as compact JSON. The
/// result is named and not described further.
#[verifier::external_body]
pub(crate) fn compact_json(value: &Node) -> (text: Option<String>)
    ensures
        match text {
            Some(json) => json_text(*value) == Some(json@),
            None => json_text(*value) is None,
        },
{
    serde_json::to_string(&to_json_value(value)?).ok()
}

} // verus!
