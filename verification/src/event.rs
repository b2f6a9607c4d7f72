//! Contract events as an ABI describes them.

use crate::json::{value_of_json, Json, JsonField};
use vstd::prelude::*;
use vstd::string::{StringExecFns, StringSliceAdditionalSpecFns};
use vstd::utf8::encode_utf8;

verus! {

/// One parameter of an event.
#[derive(Clone, Debug, PartialEq, Eq)]
pub struct EventParam {
    /// The name of the parameter.
    pub name: String,
    /// The type of the parameter, as the ABI writes it.
    pub kind: String,
    /// Whether the parameter is indexed.
    pub indexed: bool,
}

/// A contract event.
#[derive(Clone, Debug, PartialEq, Eq)]
pub struct Event {
    /// The name of the event.
    pub name: String,
    /// The parameters of the event.
    pub inputs: Vec<EventParam>,
    /// Whether the event is anonymous.
    pub anonymous: bool,
}

/// The event that an entry of an ABI describes, if it describes one.
pub uninterp spec fn event_of_json(entry: Json) -> Option<Event>;

/// The Keccak-256 hash of a sequence of bytes.
pub uninterp spec fn keccak256_of(bytes: Seq<u8>) -> Seq<u8>;

/// How deep in square brackets a text of the given bytes ends, read from the
/// left: a bracket opens only outside brackets, only decimal digits stand in
/// brackets, and round brackets and bytes beyond ASCII stand nowhere. There
/// is no depth for a text that breaks one of these rules.
pub open spec fn bracket_depth(bytes: Seq<u8>) -> Option<nat>
    decreases bytes.len(),
{
    if bytes.len() == 0 {
        Some(0)
    } else {
        let byte = bytes.last();
        match bracket_depth(bytes.drop_last()) {
            Some(depth) => if depth == 0 {
                if byte == 0x5b {
                    Some(1)
                } else if byte == 0x5d || byte == 0x28 || byte == 0x29 || byte >= 0x80 {
                    None
                } else {
                    Some(0)
                }
            } else {
                if byte == 0x5d {
                    Some(0)
                } else if 0x30 <= byte <= 0x39 {
                    Some(1)
                } else {
                    None
                }
            },
            None => None,
        }
    }
}

/// Whether a text is plain enough to be read as a parameter type: ASCII
/// without round brackets, in which square brackets come in pairs that hold
/// decimal digits only, as in `uint256[][3]`.
pub open spec fn is_plain_type(text: Seq<char>) -> bool {
    bracket_depth(encode_utf8(text)) == Some(0nat)
}

/// Whether every string that a document holds under the name `type`, at any
/// depth, is plain enough to be read as a parameter type.
pub open spec fn has_plain_types(document: Json) -> bool
    decreases document,
{
    match document {
        Json::Array(items) => forall|i: int|
            0 <= i < items@.len() ==> has_plain_types(#[trigger] items@[i]),
        Json::Object(members) => forall|i: int|
            0 <= i < members@.len() ==> has_plain_type(#[trigger] members@[i]),
        _ => true,
    }
}

/// Whether a member of an object, and all that it holds, passes for
/// `has_plain_types`.
pub open spec fn has_plain_type(member: JsonField) -> bool
    decreases member,
{
    &&& has_plain_types(member.value)
    &&& member.name@ == "type"@ ==> match member.value {
        Json::String(text) => is_plain_type(text@),
        _ => true,
    }
}

/// The event that an entry of an ABI describes: the one it decodes to where
/// all its parameter types are plain, and none where one is not.
pub open spec fn described_event(entry: Json) -> Option<Event> {
    if has_plain_types(entry) {
        event_of_json(entry)
    } else {
        None
    }
}

/// Decodes `entry` with `serde_json::from_value` into an event of
/// `ethers_core::abi`, and copies the event field by field, each parameter
/// type as the text that `Display` gives for it. The decoder reads every
/// string that it finds under the name `type` as a parameter type, and its
/// reader cuts such a text at its brackets, which may panic where they do not
/// pair. Trusted: on an entry whose parameter types are plain the call
/// returns, and the result is the event that the entry describes, or nothing
/// where decoding fails.
#[verifier::external_body]
fn decode_event(entry: &Json) -> (event: Option<Event>)
    requires
        has_plain_types(*entry),
    ensures
        event == event_of_json(*entry),
{
    let decoded = serde_json::from_value::<ethers_core::abi::Event>(value_of_json(entry)).ok()?;
    let copy = |input: ethers_core::abi::EventParam| {
        EventParam { name: input.name, kind: input.kind.to_string(), indexed: input.indexed }
    };
    let inputs = decoded.inputs.into_iter().map(copy).collect();
    Some(Event { name: decoded.name, inputs, anonymous: decoded.anonymous })
}

/// Hashes `bytes` with `ethers_core::utils::keccak256`. Trusted: the result
/// is the Keccak-256 hash of the bytes, which is 32 bytes long.
#[verifier::external_body]
fn keccak256(bytes: &[u8]) -> (hash: Vec<u8>)
    ensures
        hash@ == keccak256_of(bytes@),
        hash@.len() == 32,
{
    ethers_core::utils::keccak256(bytes).to_vec()
}

/// The parameter types `kinds`, written one after the other with commas
/// between them.
pub open spec fn joined(kinds: Seq<Seq<char>>) -> Seq<char>
    decreases kinds.len(),
{
    if kinds.len() == 0 {
        Seq::empty()
    } else if kinds.len() == 1 {
        kinds[0]
    } else {
        joined(kinds.drop_last()) + ","@ + kinds.last()
    }
}

/// The signature of an event with the given name and parameter types: the
/// name, and the types in brackets.
pub open spec fn signature_text(name: Seq<char>, kinds: Seq<Seq<char>>) -> Seq<char> {
    name + "("@ + joined(kinds) + ")"@
}

/// Whether `text` is plain enough to be read as a parameter type.
pub fn plain_type(text: &str) -> (plain: bool)
    ensures
        plain == is_plain_type(text@),
{
    let bytes = text.as_bytes();
    let mut inside = false;
    let mut i: usize = 0;
    assert(bytes@.take(0) =~= Seq::<u8>::empty());
    while i < bytes.len()
        invariant
            i <= bytes.len(),
            bytes@ == encode_utf8(text@),
            bracket_depth(bytes@.take(i as int)) == Some(
                if inside {
                    1nat
                } else {
                    0nat
                },
            ),
        decreases bytes.len() - i,
    {
        let byte = bytes[i];
        proof {
            assert(bytes@.take(i + 1).drop_last() =~= bytes@.take(i as int));
            assert(bytes@.take(i + 1).last() == byte);
        }
        if inside {
            if byte == 0x5d {
                inside = false;
            } else if !(0x30 <= byte && byte <= 0x39) {
                proof {
                    lemma_no_depth_stays(bytes@, i + 1);
                }
                return false;
            }
        } else {
            if byte == 0x5b {
                inside = true;
            } else if byte == 0x5d || byte == 0x28 || byte == 0x29 || byte >= 0x80 {
                proof {
                    lemma_no_depth_stays(bytes@, i + 1);
                }
                return false;
            }
        }
        i += 1;
    }
    assert(bytes@.take(i as int) =~= bytes@);
    !inside
}

/// A text whose beginning has no depth has none itself.
proof fn lemma_no_depth_stays(bytes: Seq<u8>, n: int)
    requires
        0 <= n <= bytes.len(),
        bracket_depth(bytes.take(n)) is None,
    ensures
        bracket_depth(bytes) is None,
    decreases bytes.len(),
{
    if n == bytes.len() {
        assert(bytes.take(n) =~= bytes);
    } else {
        assert(bytes.drop_last().take(n) =~= bytes.take(n));
        lemma_no_depth_stays(bytes.drop_last(), n);
    }
}

/// Whether every string that `document` holds under the name `type`, at any
/// depth, is plain enough to be read as a parameter type.
pub fn plain_types(document: &Json) -> (plain: bool)
    ensures
        plain == has_plain_types(*document),
    decreases document,
{
    match document {
        Json::Array(items) => plain_items(items),
        Json::Object(members) => plain_members(members),
        _ => true,
    }
}

/// Whether each of `items` passes for `has_plain_types`.
fn plain_items(items: &Vec<Json>) -> (plain: bool)
    ensures
        plain == (forall|i: int| 0 <= i < items@.len() ==> has_plain_types(#[trigger] items@[i])),
    decreases items,
{
    let mut i: usize = 0;
    while i < items.len()
        invariant
            i <= items.len(),
            forall|j: int| 0 <= j < i ==> has_plain_types(#[trigger] items@[j]),
        decreases items.len() - i,
    {
        if !plain_types(&items[i]) {
            return false;
        }
        i += 1;
    }
    true
}

/// Whether each of `members` passes for `has_plain_type`.
fn plain_members(members: &Vec<JsonField>) -> (plain: bool)
    ensures
        plain == (forall|i: int|
            0 <= i < members@.len() ==> has_plain_type(#[trigger] members@[i])),
    decreases members,
{
    let sought = String::from_str("type");
    let mut i: usize = 0;
    while i < members.len()
        invariant
            i <= members.len(),
            sought@ == "type"@,
            forall|j: int| 0 <= j < i ==> has_plain_type(#[trigger] members@[j]),
        decreases members.len() - i,
    {
        let member = &members[i];
        if !plain_types(&member.value) {
            return false;
        }
        if member.name == sought {
            match &member.value {
                Json::String(text) => {
                    if !plain_type(text.as_str()) {
                        return false;
                    }
                },
                _ => {},
            }
        }
        i += 1;
    }
    true
}

impl Event {
    /// The parameter types of the event, in order.
    pub open spec fn kinds(self) -> Seq<Seq<char>> {
        Seq::new(self.inputs@.len(), |i: int| self.inputs@[i].kind@)
    }

    /// The event that `entry` describes, if it describes one. An entry
    /// with a parameter type that is not plain describes none.
    pub fn from_json(entry: &Json) -> (event: Option<Event>)
        ensures
            event == described_event(*entry),
    {
        if plain_types(entry) {
            decode_event(entry)
        } else {
            None
        }
    }

    /// The signature of the event: its name, and its parameter types in
    /// brackets with commas between them. The types are taken as they are
    /// written.
    pub fn signature_text(&self) -> (text: String)
        ensures
            text@ == signature_text(self.name@, self.kinds()),
    {
        let mut text = self.name.clone();
        text.append("(");
        let ghost head = text@;
        let mut i: usize = 0;
        assert(self.kinds().take(0) =~= Seq::<Seq<char>>::empty());
        while i < self.inputs.len()
            invariant
                i <= self.inputs.len(),
                head == self.name@ + "("@,
                text@ == head + joined(self.kinds().take(i as int)),
            decreases self.inputs.len() - i,
        {
            let ghost before = self.kinds().take(i as int);
            let ghost after = self.kinds().take(i + 1);
            proof {
                assert(after.drop_last() =~= before);
                assert(after.last() == self.inputs@[i as int].kind@);
            }
            if i > 0 {
                text.append(",");
                text.append(self.inputs[i].kind.as_str());
                assert(text@ =~= head + joined(after));
            } else {
                text.append(self.inputs[i].kind.as_str());
                assert(text@ =~= head + joined(after));
            }
            i += 1;
        }
        assert(self.kinds().take(i as int) =~= self.kinds());
        text.append(")");
        text
    }

    /// The signature hash of the event, which is the first topic of its
    /// logs: the Keccak-256 hash of its signature in UTF-8.
    pub fn signature(&self) -> (topic: Vec<u8>)
        ensures
            topic@ == keccak256_of(encode_utf8(signature_text(self.name@, self.kinds()))),
            topic@.len() == 32,
    {
        let text = self.signature_text();
        keccak256(text.as_str().as_bytes())
    }
}

} // verus!
