//! The block explorer that serves contract ABIs: what is asked of it, and
//! what its answer holds.

use crate::event::{described_event, Event};
use crate::json::{json_of_text, Json};
use vstd::prelude::*;
use vstd::string::StringExecFns;

verus! {

/// Why an ABI could not be had from an answer.
#[derive(Clone, Debug, PartialEq, Eq)]
pub enum AbiError {
    /// The answer is not well-formed JSON; the parser's message.
    InvalidJson(String),
    /// The explorer knows no contract at the address.
    InvalidContractAddress,
}

impl AbiError {
    /// The message of the error.
    pub fn to_message(&self) -> (text: String)
        ensures
            match *self {
                AbiError::InvalidJson(message) => text@ == message@,
                AbiError::InvalidContractAddress => text@ == "Invalid contract address"@,
            },
    {
        match self {
            AbiError::InvalidJson(message) => message.clone(),
            AbiError::InvalidContractAddress => String::from_str("Invalid contract address"),
        }
    }
}

/// Whether an answer says that the request was turned down: an object whose
/// status is the string "0".
pub open spec fn is_refusal(document: Json) -> bool {
    document.says("status"@, "0"@)
}

/// Whether an entry of an ABI is marked as an event.
pub open spec fn is_event_entry(entry: Json) -> bool {
    entry.says("type"@, "event"@)
}

/// The events among `entries`, in order: of the entries marked as events,
/// those that describe one.
pub open spec fn events_of_entries(entries: Seq<Json>) -> Seq<Event>
    decreases entries.len(),
{
    if entries.len() == 0 {
        Seq::empty()
    } else {
        events_of_entries(entries.drop_last()) + match described_event(entries.last()) {
            Some(event) if is_event_entry(entries.last()) => seq![event],
            _ => Seq::empty(),
        }
    }
}

/// The events that an answer holds: those of its entries where it is an
/// array, and none where it is anything else.
pub open spec fn events_of_document(document: Json) -> Seq<Event> {
    match document {
        Json::Array(entries) => events_of_entries(entries@),
        _ => Seq::empty(),
    }
}

/// The events of an ABI as the explorer answered it. Fails where the answer
/// says that the request was turned down.
pub fn events_of_answer(document: &Json) -> (result: Result<Vec<Event>, AbiError>)
    ensures
        match result {
            Ok(events) => !is_refusal(*document) && events@ == events_of_document(*document),
            Err(error) => is_refusal(*document) && error == AbiError::InvalidContractAddress,
        },
{
    if document.has_text("status", "0") {
        return Err(AbiError::InvalidContractAddress);
    }
    let mut events: Vec<Event> = Vec::new();
    match document {
        Json::Array(entries) => {
            let mut i: usize = 0;
            assert(entries@.take(0) =~= Seq::<Json>::empty());
            while i < entries.len()
                invariant
                    i <= entries.len(),
                    events@ == events_of_entries(entries@.take(i as int)),
                decreases entries.len() - i,
            {
                let entry = &entries[i];
                proof {
                    assert(entries@.take(i + 1).drop_last() =~= entries@.take(i as int));
                    assert(entries@.take(i + 1).last() == *entry);
                }
                if entry.has_text("type", "event") {
                    match Event::from_json(entry) {
                        Some(event) => {
                            events.push(event);
                        },
                        None => {},
                    }
                }
                i += 1;
            }
            assert(entries@.take(i as int) =~= entries@);
        },
        _ => {},
    }
    Ok(events)
}

/// The client of the block explorer.
#[derive(Clone, Debug, PartialEq, Eq)]
pub struct EtherscanClient {
    base_url: String,
    api_key: String,
}

impl EtherscanClient {
    /// The address of the explorer's API.
    pub closed spec fn base_url(self) -> Seq<char> {
        self.base_url@
    }

    /// The key under which the client asks.
    pub closed spec fn api_key(self) -> Seq<char> {
        self.api_key@
    }

    /// The address that serves the ABI of the contract at `contract_address`.
    pub open spec fn abi_url(self, contract_address: Seq<char>) -> Seq<char> {
        self.base_url() + "?module=contract&action=getabi&address="@ + contract_address
            + "&format=raw&apikey="@ + self.api_key()
    }

    /// A client of the public explorer that asks under `api_key`.
    pub fn new(api_key: String) -> (client: EtherscanClient)
        ensures
            client.base_url() == "https://api.etherscan.io/api"@,
            client.api_key() == api_key@,
    {
        EtherscanClient { base_url: String::from_str("https://api.etherscan.io/api"), api_key }
    }

    /// The address that serves the ABI of the contract at `contract_address`.
    pub fn get_abi_url(&self, contract_address: &str) -> (url: String)
        ensures
            url@ == self.abi_url(contract_address@),
    {
        let mut url = self.base_url.clone();
        url.append("?module=contract&action=getabi&address=");
        url.append(contract_address);
        url.append("&format=raw&apikey=");
        url.append(self.api_key.as_str());
        url
    }

    /// The events of the ABI in the explorer's answer `resp`. Fails where
    /// the answer is not well-formed JSON, and where it says that the
    /// request was turned down.
    pub fn get_abi_events(resp: &str) -> (result: Result<Vec<Event>, AbiError>)
        ensures
            match json_of_text(resp@) {
                Some(document) => if is_refusal(document) {
                    result == Err::<Vec<Event>, AbiError>(AbiError::InvalidContractAddress)
                } else {
                    result matches Ok(events) && events@ == events_of_document(document)
                },
                None => result matches Err(AbiError::InvalidJson(_)),
            },
    {
        match Json::parse(resp) {
            Ok(document) => events_of_answer(&document),
            Err(message) => Err(AbiError::InvalidJson(message)),
        }
    }
}

} // verus!
