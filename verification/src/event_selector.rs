//! The choice of one event out of a list, by the line that a user typed.

use crate::event::Event;
use vstd::prelude::*;
use vstd::string::StringExecFns;

verus! {

/// A text without the whitespace at its two ends.
pub uninterp spec fn trimmed(text: Seq<char>) -> Seq<char>;

/// The number that a text writes, if it writes one that fits.
pub uninterp spec fn parsed_usize(text: Seq<char>) -> Option<usize>;

/// Strips `text` with `str::trim`. Trusted: the result is the text without
/// the whitespace at its two ends.
#[verifier::external_body]
fn trim(text: &str) -> (rest: &str)
    ensures
        rest@ == trimmed(text@),
{
    text.trim()
}

/// Reads `text` with `str::parse` as a `usize`. Trusted: the result is the
/// number that the text writes, and nothing where it writes none.
#[verifier::external_body]
fn parse_usize(text: &str) -> (number: Option<usize>)
    ensures
        number == parsed_usize(text@),
{
    text.parse::<usize>().ok()
}

/// The choice that a line stands for: the number it holds between
/// whitespace.
pub open spec fn choice_of(input: Seq<char>) -> Option<usize> {
    parsed_usize(trimmed(input))
}

/// Picks one event out of a list.
pub struct EventSelector;

impl EventSelector {
    /// The event with the number `choice`, counted from one. Fails where
    /// the list has no event with that number.
    pub fn event_at(events: &[Event], choice: usize) -> (result: Result<&Event, String>)
        ensures
            if 1 <= choice <= events@.len() {
                result == Ok::<&Event, String>(&events@[choice - 1])
            } else {
                result matches Err(message) && message@ == "Event not found"@
            },
    {
        if 1 <= choice && choice <= events.len() {
            Ok(&events[choice - 1])
        } else {
            Err(String::from_str("Event not found"))
        }
    }

    /// The event that the line `input` chooses. Fails where the line holds
    /// no number, and where the list has no event with that number.
    pub fn select_event<'a>(events: &'a [Event], input: &str) -> (result: Result<&'a Event, String>)
        ensures
            match choice_of(input@) {
                Some(choice) => if 1 <= choice <= events@.len() {
                    result == Ok::<&Event, String>(&events@[choice - 1])
                } else {
                    result matches Err(message) && message@ == "Event not found"@
                },
                None => result matches Err(message) && message@ == "Invalid input"@,
            },
    {
        match parse_usize(trim(input)) {
            Some(choice) => EventSelector::event_at(events, choice),
            None => Err(String::from_str("Invalid input")),
        }
    }
}

} // verus!
