//! JSON documents: the library's own document type, and the parser behind it.

use serde_json::Value;
use vstd::prelude::*;
use vstd::string::StringExecFns;

verus! {

/// A JSON document.
#[derive(Debug, PartialEq, Eq)]
pub enum Json {
    Null,
    Bool(bool),
    /// A number, as the text that writes it.
    Number(String),
    String(String),
    Array(Vec<Json>),
    /// An object: its members in the order of the document.
    Object(Vec<JsonField>),
}

/// A member of a JSON object.
#[derive(Debug, PartialEq, Eq)]
pub struct JsonField {
    pub name: String,
    pub value: Json,
}

#[verifier::external_type_specification]
#[verifier::external_body]
pub struct ExValue(Value);

/// The document that a text is parsed to, if it is well-formed JSON.
pub uninterp spec fn json_of_text(text: Seq<char>) -> Option<Json>;

/// Copies a `serde_json::Value` into a document, variant by variant; a
/// number is copied as the text that `Display` gives for it. Trusted, with
/// nothing claimed of the result.
#[verifier::external_body]
fn json_of_value(value: Value) -> (json: Json) {
    match value {
        Value::Null => Json::Null,
        Value::Bool(flag) => Json::Bool(flag),
        Value::Number(number) => Json::Number(number.to_string()),
        Value::String(text) => Json::String(text),
        Value::Array(items) => Json::Array(items.into_iter().map(json_of_value).collect()),
        Value::Object(members) => Json::Object(
            members.into_iter().map(|(name, value)| JsonField { name, value: json_of_value(value) })
                .collect(),
        ),
    }
}

/// Copies a document into a `serde_json::Value`, variant by variant; the text
/// of a number is read back with the `FromStr` impl of `serde_json::Number`,
/// and stands for null where that fails. Trusted, with nothing claimed of
/// the result.
#[verifier::external_body]
pub(crate) fn value_of_json(json: &Json) -> (value: Value) {
    match json {
        Json::Null => Value::Null,
        Json::Bool(flag) => Value::Bool(*flag),
        Json::Number(text) => text.parse().map(Value::Number).unwrap_or(Value::Null),
        Json::String(text) => Value::String(text.clone()),
        Json::Array(items) => Value::Array(items.iter().map(value_of_json).collect()),
        Json::Object(members) => Value::Object(
            members.iter().map(|member| (member.name.clone(), value_of_json(&member.value)))
                .collect(),
        ),
    }
}

/// Parses `text` with `serde_json::from_str` into a `serde_json::Value`.
/// Trusted: the call succeeds exactly on the texts that have a document, and
/// gives that document; of the message of a failure nothing is claimed.
#[verifier::external_body]
fn parse_value(text: &str) -> (parsed: Result<Json, String>)
    ensures
        match parsed {
            Ok(document) => json_of_text(text@) == Some(document),
            Err(_) => json_of_text(text@) is None,
        },
{
    match serde_json::from_str::<Value>(text) {
        Ok(value) => Ok(json_of_value(value)),
        Err(error) => Err(error.to_string()),
    }
}

/// The first of `members` that is named `name`.
pub open spec fn first_member(members: Seq<JsonField>, name: Seq<char>) -> Option<Json>
    decreases members.len(),
{
    if members.len() == 0 {
        None
    } else if members[0].name@ == name {
        Some(members[0].value)
    } else {
        first_member(members.skip(1), name)
    }
}

impl Json {
    /// The member `name` of an object; nothing for a document that is no
    /// object or has no such member.
    pub open spec fn member(self, name: Seq<char>) -> Option<Json> {
        match self {
            Json::Object(members) => first_member(members@, name),
            _ => None,
        }
    }

    /// The text of a string; nothing for a document that is no string.
    pub open spec fn text(self) -> Option<Seq<char>> {
        match self {
            Json::String(text) => Some(text@),
            _ => None,
        }
    }

    /// Whether the document is an object whose member `name` is the string
    /// `text`.
    pub open spec fn says(self, name: Seq<char>, text: Seq<char>) -> bool {
        self.member(name) matches Some(value) && value.text() == Some(text)
    }

    /// Parses `text`. Fails with the parser's message where `text` is not
    /// well-formed JSON.
    pub fn parse(text: &str) -> (parsed: Result<Json, String>)
        ensures
            match parsed {
                Ok(document) => json_of_text(text@) == Some(document),
                Err(_) => json_of_text(text@) is None,
            },
    {
        parse_value(text)
    }

    /// The member `name` of an object; nothing for a document that is no
    /// object or has no such member.
    pub fn get(&self, name: &str) -> (found: Option<&Json>)
        ensures
            match found {
                Some(value) => self.member(name@) == Some(*value),
                None => self.member(name@) is None,
            },
    {
        match self {
            Json::Object(members) => {
                let sought = String::from_str(name);
                let mut i: usize = 0;
                assert(members@.skip(0) =~= members@);
                while i < members.len()
                    invariant
                        i <= members.len(),
                        sought@ == name@,
                        self.member(name@) == first_member(members@, name@),
                        first_member(members@, name@) == first_member(
                            members@.skip(i as int),
                            name@,
                        ),
                    decreases members.len() - i,
                {
                    if members[i].name == sought {
                        return Some(&members[i].value);
                    }
                    proof {
                        assert(members@.skip(i as int).skip(1) =~= members@.skip(i + 1));
                    }
                    i += 1;
                }
                None
            },
            _ => None,
        }
    }

    /// Whether the document is an object whose member `name` is the string
    /// `text`.
    pub fn has_text(&self, name: &str, text: &str) -> (said: bool)
        ensures
            said == self.says(name@, text@),
    {
        match self.get(name) {
            Some(Json::String(found)) => {
                let wanted = String::from_str(text);
                *found == wanted
            },
            _ => false,
        }
    }
}

} // verus!
