//! The events that are injected into the hardware while the emulation runs.
//!
//! An event file holds one event per line, `@<TIME> <DEVICE>: <PAYLOAD>`, with
//! the time in hexadecimal nanoseconds.

use crate::text::{parse_hex, parsed_hex, trim, trimmed};
use regex::Regex;
use vstd::prelude::*;

verus! {

/// The pattern of an event line: the time, the device and the payload are
/// its three groups.
pub const EVENT_PATTERN: &'static str = "@([0-9A-Fa-f]+)\\s+(.+):\\s+(.+)";

/// An event for a hardware model.
pub struct Event {
    /// The time in nanoseconds at which the event is due.
    pub time: u64,
    /// The name of the hardware model that the event is for.
    pub device: String,
    pub event: String,
}

/// The three groups of one match of the event pattern.
pub struct Captured {
    pub time: String,
    pub device: String,
    pub payload: String,
}

/// What `regex` finds in a text for a pattern, if the pattern is a regular
/// expression: for each of the successive non-overlapping matches, the text
/// of the first three groups (empty where a group took no part).
pub uninterp spec fn event_captures(pattern: Seq<char>, text: Seq<char>) -> Option<Seq<Captured>>;

/// Searches a text with `regex::Regex::new` and `Regex::captures_iter`, and
/// copies the first three groups of each match. Trusted to be a function of
/// the pattern and the text alone, and to return `None` exactly when the
/// pattern is rejected.
#[verifier::external_body]
pub(crate) fn find_events(pattern: &str, text: &str) -> (found: Option<Vec<Captured>>)
    ensures
        found matches Some(list) ==> event_captures(pattern@, text@) == Some(list@),
        found is None ==> event_captures(pattern@, text@) is None,
{
    let re = Regex::new(pattern).ok()?;
    Some(re.captures_iter(text).map(|c| Captured {
        time: c.get(1).map_or(String::new(), |m| m.as_str().to_string()),
        device: c.get(2).map_or(String::new(), |m| m.as_str().to_string()),
        payload: c.get(3).map_or(String::new(), |m| m.as_str().to_string()),
    }).collect())
}

/// What an event says: its time, and the characters of its device name and
/// of its payload.
pub struct EventModel {
    pub time: u64,
    pub device: Seq<char>,
    pub event: Seq<char>,
}

impl View for Event {
    type V = EventModel;

    open spec fn view(&self) -> EventModel {
        EventModel { time: self.time, device: self.device@, event: self.event@ }
    }
}

/// The events that the first `n` matches stand for, in order. A match gives
/// an event if its time is a hexadecimal number of at most 64 bits; the
/// device name and the payload are taken without the white space around
/// them. Other matches are passed over.
pub open spec fn events_of(captures: Seq<Captured>, n: int) -> Seq<EventModel>
    decreases n,
{
    if n <= 0 {
        Seq::empty()
    } else {
        let before = events_of(captures, n - 1);
        match parsed_hex(captures[n - 1].time@, u64::MAX) {
            Some(time) => before.push(
                EventModel {
                    time,
                    device: trimmed(captures[n - 1].device@),
                    event: trimmed(captures[n - 1].payload@),
                },
            ),
            None => before,
        }
    }
}

/// The models of a list of events.
pub open spec fn models(events: Seq<Event>) -> Seq<EventModel> {
    Seq::new(events.len(), |i: int| events[i]@)
}

impl Event {
    /// The events that a list of matches stands for.
    pub fn from_captures(captures: &Vec<Captured>) -> (events: Vec<Event>)
        ensures
            models(events@) == events_of(captures@, captures@.len() as int),
    {
        let mut events: Vec<Event> = Vec::new();
        let mut i: usize = 0;
        while i < captures.len()
            invariant
                i <= captures@.len(),
                models(events@) == events_of(captures@, i as int),
            decreases captures@.len() - i,
        {
            let ghost before = events@;
            match parse_hex(captures[i].time.as_str(), u64::MAX) {
                Some(time) => {
                    events.push(
                        Event {
                            time,
                            device: trim(captures[i].device.as_str()),
                            event: trim(captures[i].payload.as_str()),
                        },
                    );
                    proof {
                        assert(models(events@) =~= models(before).push(events@.last()@));
                    }
                },
                None => {},
            }
            i += 1;
        }
        events
    }

    /// Reads the events out of the text of an event file. What matches the
    /// pattern of an event line is found by `regex`; see `from_captures` for
    /// what is done with the matches.
    pub fn from_text(text: &str) -> (events: Vec<Event>)
        ensures
            match event_captures(EVENT_PATTERN@, text@) {
                Some(captures) => models(events@) == events_of(captures, captures.len() as int),
                None => events@.len() == 0,
            },
    {
        match find_events(EVENT_PATTERN, text) {
            Some(captures) => Event::from_captures(&captures),
            None => Vec::new(),
        }
    }
}

} // verus!
