//! Reading JSON text into nodes.
//!
//! `json_spanned_value` parses documents and keeps byte offsets; `serde_json`
//! parses where offsets do not matter.

use json_spanned_value::{Spanned, Value};
use vstd::prelude::*;
use vstd::string::*;
use vstd::utf8::{decode_utf8, valid_utf8};

use crate::diagnostic::ByteSpan;
use crate::json::{compact_json, json_text, Json, JsonFile, Member, Node, Number};
use crate::text::{owned, text4};

verus! {

/// An error of the `serde_json` parser, carried without looking inside.
#[verifier::external_type_specification]
#[verifier::external_body]
pub struct ExJsonError(serde_json::Error);

/// A value with byte offsets, carried without looking inside.
#[verifier::external_type_specification]
#[verifier::external_body]
#[verifier::reject_recursive_types(V)]
pub struct ExSpanned<V>(json_spanned_value::Spanned<V>);

/// The content of a value with byte offsets, carried without looking inside.
#[verifier::external_type_specification]
#[verifier::external_body]
pub struct ExSpannedContent(json_spanned_value::Value);

/// An error of `String::from_utf8`, carried without looking inside.
#[verifier::external_type_specification]
#[verifier::external_body]
pub struct ExFromUtf8Error(std::string::FromUtf8Error);

/// An error of the file system, carried without looking inside.
#[verifier::external_type_specification]
#[verifier::external_body]
pub struct ExIoError(std::io::Error);

/// `String::from_utf8` takes bytes that are valid UTF-8 for the text that they
/// encode, and refuses all others.
pub assume_specification[ std::string::String::from_utf8 ](vec: Vec<u8>) -> (result: Result<
    std::string::String,
    std::string::FromUtf8Error,
>)
    ensures
        match result {
            Ok(text) => valid_utf8(vec@) && text@ == decode_utf8(vec@),
            Err(_) => !valid_utf8(vec@),
        },
;

/// The document that `json_spanned_value::from_str` reads in a text; nothing
/// where the text is no JSON document.
pub uninterp spec fn spanned_json(text: Seq<char>) -> Option<Node>;

/// The value that `serde_json::from_str` reads in a text; nothing where the
/// text is no JSON document. No node has a place.
pub uninterp spec fn plain_json(text: Seq<char>) -> Option<Node>;

/// A number: by its value where it is an integer, and by its decimal text
/// otherwise.
pub fn number_of(positive: Option<u64>, negative: Option<i64>, text: String) -> (number: Number)
    ensures
        match number {
            Number::PosInt(value) => positive == Some(value),
            Number::NegInt(value) => positive is None && negative == Some(value),
            Number::Float(kept) => positive is None && negative is None && kept == text,
        },
{
    match (positive, negative) {
        (Some(value), _) => Number::PosInt(value),
        (None, Some(value)) => Number::NegInt(value),
        (None, None) => Number::Float(text),
    }
}

/// Converts a value of `json_spanned_value` node by node, with its byte range.
/// A number is taken by its value as an integer and by the decimal text that
/// `serde_json` writes for it. Nothing is claimed of the result.
#[verifier::external_body]
fn node_of_spanned(value: &Spanned<Value>) -> Node {
    let kind = match value.get_ref() {
        Value::Null => Json::Null,
        Value::Bool(flag) => Json::Bool(*flag),
        Value::Number(n) => Json::Number(number_of(n.as_u64(), n.as_i64(), n.to_string())),
        Value::String(text) => Json::String(text.clone()),
        Value::Array(items) => Json::Array(items.iter().map(node_of_spanned).collect()),
        Value::Object(members) => Json::Object(
            members.iter().map(
                |(name, v)| Member { name: name.get_ref().clone(), value: node_of_spanned(v) },
            ).collect(),
        ),
    };
    Node { span: ByteSpan { start: value.start(), end: value.end() }, kind }
}

/// Converts a `serde_json::Value` node by node, numbers as above. Nothing is
/// claimed of the result.
#[verifier::external_body]
fn node_of_plain(value: &serde_json::Value) -> Node {
    let kind = match value {
        serde_json::Value::Null => Json::Null,
        serde_json::Value::Bool(flag) => Json::Bool(*flag),
        serde_json::Value::Number(n) => Json::Number(
            number_of(n.as_u64(), n.as_i64(), n.to_string()),
        ),
        serde_json::Value::String(text) => Json::String(text.clone()),
        serde_json::Value::Array(items) => Json::Array(items.iter().map(node_of_plain).collect()),
        serde_json::Value::Object(members) => Json::Object(
            members.iter().map(|(k, v)| Member { name: k.clone(), value: node_of_plain(v) }).collect(),
        ),
    };
    Node { span: ByteSpan { start: 0, end: 0 }, kind }
}

/// Calls `json_spanned_value::from_str`, which parses a JSON document and
/// keeps the byte range of every value. The result is named and not described
/// further.
#[verifier::external_body]
fn parse_spanned(text: &str) -> (result: Result<Node, serde_json::Error>)
    ensures
        match result {
            Ok(node) => spanned_json(text@) == Some(node),
            Err(_) => spanned_json(text@) is None,
        },
{
    let value: json_spanned_value::spanned::Value = json_spanned_value::from_str(text)?;
    Ok(node_of_spanned(&value))
}

/// Calls `serde_json::from_str`, which parses a JSON document. The result is
/// named and not described further.
#[verifier::external_body]
pub(crate) fn parse_plain(text: &str) -> (result: Option<Node>)
    ensures
        match result {
            Some(node) => plain_json(text@) == Some(node),
            None => plain_json(text@) is None,
        },
{
    let value: serde_json::Value = serde_json::from_str(text).ok()?;
    Some(node_of_plain(&value))
}

/// Failure modes of reading a document. Each variant carries the path of the
/// offending file.
#[derive(Debug)]
#[allow(inconsistent_fields)]
pub enum JsonReadError {
    /// The file could not be read.
    Io { path: String, source: std::io::Error },
    /// The file holds no JSON document.
    Parse { path: String, source: serde_json::Error },
    /// The file holds no UTF-8 text.
    InvalidUtf8 { path: String, source: std::string::FromUtf8Error },
}

impl JsonReadError {
    /// The path of the offending file.
    pub open spec fn spec_path(&self) -> Seq<char> {
        match self {
            JsonReadError::Io { path, .. } => path@,
            JsonReadError::Parse { path, .. } => path@,
            JsonReadError::InvalidUtf8 { path, .. } => path@,
        }
    }

    /// The path of the offending file.
    pub fn path(&self) -> (path: &str)
        ensures
            path@ == self.spec_path(),
    {
        match self {
            JsonReadError::Io { path, .. } => path.as_str(),
            JsonReadError::Parse { path, .. } => path.as_str(),
            JsonReadError::InvalidUtf8 { path, .. } => path.as_str(),
        }
    }

    /// Describe the failure, in the words of the error behind it.
    pub fn message(&self) -> (text: String)
        ensures
            exists|detail: String| #[trigger] self.describes(detail) && text@ == self.heading()
                + self.spec_path() + ": "@ + detail@,
    {
        match self {
            JsonReadError::Io { path, source } => {
                let detail = source.to_string();
                assert(self.describes(detail));
                text4("failed to read ", path.as_str(), ": ", detail.as_str())
            },
            JsonReadError::Parse { path, source } => {
                let detail = source.to_string();
                assert(self.describes(detail));
                text4("failed to parse ", path.as_str(), ": ", detail.as_str())
            },
            JsonReadError::InvalidUtf8 { path, source } => {
                let detail = source.to_string();
                assert(self.describes(detail));
                text4("failed to decode ", path.as_str(), ": ", detail.as_str())
            },
        }
    }

    /// What could not be done.
    pub open spec fn heading(&self) -> Seq<char> {
        match self {
            JsonReadError::Io { .. } => "failed to read "@,
            JsonReadError::Parse { .. } => "failed to parse "@,
            JsonReadError::InvalidUtf8 { .. } => "failed to decode "@,
        }
    }

    /// `detail` is how the error behind this one describes itself.
    pub open spec fn describes(&self, detail: String) -> bool {
        match self {
            JsonReadError::Io { source, .. } => to_string_from_display_ensures(source, detail),
            JsonReadError::Parse { source, .. } => to_string_from_display_ensures(source, detail),
            JsonReadError::InvalidUtf8 { source, .. } => to_string_from_display_ensures(
                source,
                detail,
            ),
        }
    }
}

impl JsonFile {
    /// Read the bytes of a file as a JSON document, keeping the byte range of
    /// every value.
    pub fn from_bytes(path: &str, bytes: Vec<u8>) -> (result: Result<JsonFile, JsonReadError>)
        ensures
            match result {
                Ok(file) => {
                    &&& valid_utf8(bytes@)
                    &&& spanned_json(decode_utf8(bytes@)) == Some(file.value)
                    &&& file.path@ == path@
                },
                Err(JsonReadError::InvalidUtf8 { path: about, .. }) => {
                    &&& !valid_utf8(bytes@)
                    &&& about@ == path@
                },
                Err(JsonReadError::Parse { path: about, .. }) => {
                    &&& valid_utf8(bytes@)
                    &&& spanned_json(decode_utf8(bytes@)) is None
                    &&& about@ == path@
                },
                Err(JsonReadError::Io { .. }) => false,
            },
    {
        match String::from_utf8(bytes) {
            Ok(text) => JsonFile::parse(path, text.as_str()),
            Err(source) => Err(JsonReadError::InvalidUtf8 { path: owned(path), source }),
        }
    }

    /// Read a text as a JSON document, keeping the byte range of every value.
    pub fn parse(path: &str, text: &str) -> (result: Result<JsonFile, JsonReadError>)
        ensures
            match result {
                Ok(file) => spanned_json(text@) == Some(file.value) && file.path@ == path@,
                Err(JsonReadError::Parse { path: about, .. }) => spanned_json(text@) is None
                    && about@ == path@,
                Err(_) => false,
            },
    {
        let parsed = parse_spanned(text);
        JsonFile::from_parsed(path, parsed)
    }

    /// The document that a parser made of a file, or its error.
    pub fn from_parsed(path: &str, parsed: Result<Node, serde_json::Error>) -> (result: Result<
        JsonFile,
        JsonReadError,
    >)
        ensures
            match parsed {
                Ok(value) => match result {
                    Ok(file) => file.value == value && file.path@ == path@,
                    Err(_) => false,
                },
                Err(error) => match result {
                    Err(JsonReadError::Parse { path: about, source }) => about@ == path@ && source
                        == error,
                    _ => false,
                },
            },
    {
        match parsed {
            Ok(value) => Ok(JsonFile { path: owned(path), value }),
            Err(source) => Err(JsonReadError::Parse { path: owned(path), source }),
        }
    }
}

/// Write a value as compact JSON and read it again, so that its nodes have
/// places. These lie in the text that was written, and in no document.
pub fn spanned_from_json(value: &Node) -> (node: Option<Node>)
    ensures
        node == match json_text(*value) {
            Some(text) => spanned_json(text),
            None => None,
        },
{
    match compact_json(value) {
        Some(text) => match parse_spanned(text.as_str()) {
            Ok(node) => Some(node),
            Err(_) => None,
        },
        None => None,
    }
}

} // verus!
