//! Activity events: what the agent reports of one sample.

use vstd::prelude::*;
use vstd::string::*;
use crate::json::{json_entries, json_object_get_string, json_object_insert_string, json_object_new};
use crate::label::DesktopLabel;

verus! {

/// Nanoseconds in a second.
pub const NANOS_PER_SEC: u32 = 1_000_000_000;

/// The span, in seconds, that every sample is taken to cover.
pub const PULSE_WIDTH_SECS: u32 = 12;

/// The seconds between two samples.
pub const POLL_INTERVAL_SECS: u32 = 8;

/// The gap, in seconds, that the collector is asked to tolerate between the
/// end of the latest stored event and a new one of the same state.
pub const PULSETIME_SECS: u32 = 10;

/// The key of the payload entry that tells one state from another.
pub open spec fn state_key() -> Seq<char> {
    "vdesktop"@
}

/// The key of the payload entry that repeats the label for display.
pub open spec fn title_key() -> Seq<char> {
    "title"@
}

/// The two keys of the payload are not the same.
pub proof fn lemma_keys_differ()
    ensures
        state_key() != title_key(),
{
    reveal_strlit("vdesktop");
    reveal_strlit("title");
    assert(state_key().len() != title_key().len());
}

/// The payload of an event for the desktop labelled `label`.
pub open spec fn payload(label: Seq<char>) -> Map<Seq<char>, Option<Seq<char>>> {
    Map::empty().insert(state_key(), Some(label)).insert(title_key(), Some(label))
}

/// An instant in UTC: whole seconds since the Unix epoch and the nanoseconds
/// into that second.
#[derive(Clone, Copy, Debug, PartialEq, Eq, Structural)]
pub struct Timestamp {
    secs: i64,
    nanos: u32,
}

impl View for Timestamp {
    type V = int;

    /// Nanoseconds since the Unix epoch.
    open spec fn view(&self) -> int {
        self.secs() * NANOS_PER_SEC + self.subsec_nanos()
    }
}

impl Timestamp {
    #[verifier::type_invariant]
    spec fn within_second(self) -> bool {
        self.nanos < NANOS_PER_SEC
    }

    /// Whole seconds since the epoch.
    pub closed spec fn spec_secs(&self) -> i64 {
        self.secs
    }

    /// Nanoseconds since the last whole second.
    pub closed spec fn spec_subsec_nanos(&self) -> u32 {
        self.nanos
    }

    /// The instant `nanos` nanoseconds after the whole second `secs`. There
    /// is none where `nanos` makes a second or more.
    pub fn new(secs: i64, nanos: u32) -> (made: Option<Timestamp>)
        ensures
            made is Some <==> nanos < NANOS_PER_SEC,
            made matches Some(t) ==> t.secs() == secs && t.subsec_nanos() == nanos,
    {
        if nanos < NANOS_PER_SEC {
            Some(Timestamp { secs, nanos })
        } else {
            None
        }
    }

    /// The instant at the whole second `secs`.
    pub fn from_secs(secs: i64) -> (t: Timestamp)
        ensures
            t.secs() == secs,
            t.subsec_nanos() == 0,
    {
        Timestamp { secs, nanos: 0 }
    }

    /// Whole seconds since the epoch.
    #[verifier::when_used_as_spec(spec_secs)]
    pub fn secs(&self) -> (s: i64)
        ensures
            s == self.secs(),
    {
        self.secs
    }

    /// Nanoseconds since the last whole second; less than a second.
    #[verifier::when_used_as_spec(spec_subsec_nanos)]
    pub fn subsec_nanos(&self) -> (n: u32)
        ensures
            n == self.subsec_nanos(),
            n < NANOS_PER_SEC,
    {
        proof {
            use_type_invariant(self);
        }
        self.nanos
    }

    /// Nanoseconds since the epoch.
    pub fn total_nanos(&self) -> (n: i128)
        ensures
            n == self@,
            self.subsec_nanos() < NANOS_PER_SEC,
    {
        proof {
            use_type_invariant(self);
        }
        self.secs as i128 * 1_000_000_000 + self.nanos as i128
    }
}

/// An event as a mathematical value.
pub struct EventView {
    /// The instant of the sample, in nanoseconds since the epoch.
    pub timestamp: int,
    /// The span that the sample is taken to cover, in nanoseconds.
    pub duration: int,
    /// The payload.
    pub data: Map<Seq<char>, Option<Seq<char>>>,
}

impl EventView {
    /// The label that the event reports.
    pub open spec fn label(self) -> Seq<char> {
        self.data[state_key()]->0
    }

    /// The instant at which the span of the event ends.
    pub open spec fn end(self) -> int {
        self.timestamp + self.duration
    }
}

/// The event for a sample of the desktop labelled `label` taken at `now`.
pub open spec fn built(label: Seq<char>, now: int) -> EventView {
    EventView {
        timestamp: now,
        duration: PULSE_WIDTH_SECS as int * NANOS_PER_SEC as int,
        data: payload(label),
    }
}

/// One sample as reported to the collector. It has no identity of its own and
/// is never changed once built.
#[derive(Debug)]
pub struct ActivityEvent {
    timestamp: Timestamp,
    duration_secs: u32,
    data: serde_json::Map<String, serde_json::Value>,
}

impl View for ActivityEvent {
    type V = EventView;

    closed spec fn view(&self) -> EventView {
        EventView {
            timestamp: self.timestamp@,
            duration: self.duration_secs as int * NANOS_PER_SEC as int,
            data: json_entries(self.data),
        }
    }
}

impl ActivityEvent {
    #[verifier::type_invariant]
    spec fn well_formed(self) -> bool {
        &&& json_entries(self.data).contains_key(state_key())
        &&& json_entries(self.data)[state_key()] matches Some(label) && label.len() > 0
    }

    /// The event for a sample of the desktop labelled `label` taken at `now`.
    pub fn build(label: DesktopLabel, now: Timestamp) -> (event: ActivityEvent)
        ensures
            event@ == built(label@, now@),
    {
        proof {
            lemma_keys_differ();
        }
        let state = label.to_text();
        let title = label.to_text();
        let mut data = json_object_new();
        json_object_insert_string(&mut data, "vdesktop".to_owned(), state);
        json_object_insert_string(&mut data, "title".to_owned(), title);
        assert(json_entries(data) =~= payload(label@));
        ActivityEvent { timestamp: now, duration_secs: PULSE_WIDTH_SECS, data }
    }

    /// The instant of the sample.
    pub fn timestamp(&self) -> (t: Timestamp)
        ensures
            t@ == self@.timestamp,
    {
        self.timestamp
    }

    /// The span that the sample is taken to cover, in whole seconds.
    pub fn duration_secs(&self) -> (d: u32)
        ensures
            d as int * NANOS_PER_SEC as int == self@.duration,
    {
        self.duration_secs
    }

    /// The label that the event reports. It is not empty.
    pub fn label(&self) -> (text: String)
        ensures
            self@.data.contains_key(state_key()),
            self@.data[state_key()] == Some(text@),
            text@ == self@.label(),
            text@.len() > 0,
    {
        proof {
            use_type_invariant(self);
        }
        let found = json_object_get_string(&self.data, "vdesktop");
        found.unwrap()
    }

    /// The payload as the JSON object that is sent to the collector.
    pub fn data(&self) -> (object: &serde_json::Map<String, serde_json::Value>)
        ensures
            json_entries(*object) == self@.data,
    {
        &self.data
    }
}

} // verus!
