//! A model of the collector, as far as the agent relies on it.
//!
//! The collector keeps buckets by id. A request to make a bucket whose id is
//! taken changes nothing. A heartbeat either extends the latest event of the
//! bucket, where the new event reports the same state and starts no later
//! than the tolerated gap after that event ends, or is appended as a new
//! event. The model keeps everything in memory and can stand in for the
//! collector wherever a fixed sequence of answers is wanted.

use vstd::prelude::*;
use crate::bucket::{bucket_result, BucketError, BucketInfo, BucketView, CreateReply};
use crate::event::{ActivityEvent, EventView, NANOS_PER_SEC};
use crate::report::{report_result, ClientFailure, ReportError};

verus! {

/// The HTTP status with which a heartbeat to an unknown bucket is answered.
pub const STATUS_NOT_FOUND: u16 = 404;

/// A stored event as a mathematical value: a state and the span of time, in
/// nanoseconds since the epoch, over which it was reported.
pub struct StoredView {
    /// The label that tells the state.
    pub label: Seq<char>,
    /// The instant at which the span begins.
    pub start: int,
    /// The instant at which the span ends.
    pub end: int,
}

impl StoredView {
    /// The length of the span.
    pub open spec fn duration(self) -> int {
        self.end - self.start
    }
}

/// The event as it is stored when it begins a new span.
pub open spec fn stored_from(event: EventView) -> StoredView {
    StoredView { label: event.label(), start: event.timestamp, end: event.end() }
}

/// Whether `event` extends the stored event `prev`: it reports the same state
/// and begins no later than `pulsetime_secs` seconds after `prev` ends.
pub open spec fn within_pulse(prev: StoredView, event: EventView, pulsetime_secs: nat) -> bool {
    &&& prev.label == event.label()
    &&& event.timestamp - prev.end <= pulsetime_secs * NANOS_PER_SEC
}

/// The stored event `prev` extended by `event`: it ends where the later of
/// the two ends.
pub open spec fn extended(prev: StoredView, event: EventView) -> StoredView {
    StoredView { end: if event.end() > prev.end { event.end() } else { prev.end }, ..prev }
}

/// The events of a bucket after a heartbeat.
pub open spec fn beat(events: Seq<StoredView>, event: EventView, pulsetime_secs: nat) -> Seq<
    StoredView,
> {
    if events.len() > 0 && within_pulse(events.last(), event, pulsetime_secs) {
        events.update(events.len() - 1, extended(events.last(), event))
    } else {
        events.push(stored_from(event))
    }
}

/// An event as the collector keeps it.
#[derive(Debug)]
pub struct StoredEvent {
    label: String,
    start: i128,
    end: i128,
}

/// A bound on the instants that a stored event can hold, in nanoseconds.
spec fn horizon() -> int {
    0x1_0000_0000_0000_0000_0000_0000
}

impl View for StoredEvent {
    type V = StoredView;

    closed spec fn view(&self) -> StoredView {
        StoredView { label: self.label@, start: self.start as int, end: self.end as int }
    }
}

impl StoredEvent {
    #[verifier::type_invariant]
    spec fn bounded(self) -> bool {
        &&& -horizon() <= self.start <= horizon()
        &&& -horizon() <= self.end <= horizon()
    }

    /// The label that tells the state.
    pub fn label(&self) -> (text: &str)
        ensures
            text@ == self@.label,
    {
        self.label.as_str()
    }

    /// The instant at which the span begins, in nanoseconds since the epoch.
    pub fn start_nanos(&self) -> (n: i128)
        ensures
            n == self@.start,
    {
        self.start
    }

    /// The instant at which the span ends, in nanoseconds since the epoch.
    pub fn end_nanos(&self) -> (n: i128)
        ensures
            n == self@.end,
    {
        self.end
    }

    /// The length of the span, in nanoseconds.
    pub fn duration_nanos(&self) -> (n: i128)
        ensures
            n == self@.duration(),
    {
        proof {
            use_type_invariant(self);
        }
        self.end - self.start
    }
}

/// The events of one bucket, oldest first.
#[derive(Debug)]
pub struct Timeline {
    events: Vec<StoredEvent>,
}

impl View for Timeline {
    type V = Seq<StoredView>;

    closed spec fn view(&self) -> Seq<StoredView> {
        Seq::new(self.events@.len(), |i: int| self.events@[i]@)
    }
}

impl Timeline {
    /// A timeline without events.
    pub fn new() -> (timeline: Timeline)
        ensures
            timeline@ == Seq::<StoredView>::empty(),
    {
        let timeline = Timeline { events: Vec::new() };
        assert(timeline@ =~= Seq::<StoredView>::empty());
        timeline
    }

    /// The number of events.
    pub fn len(&self) -> (n: usize)
        ensures
            n == self@.len(),
    {
        self.events.len()
    }

    /// The event at position `i`, counted from the oldest.
    pub fn get(&self, i: usize) -> (found: Option<&StoredEvent>)
        ensures
            found is Some <==> i < self@.len(),
            found matches Some(stored) ==> stored@ == self@[i as int],
    {
        if i < self.events.len() {
            Some(&self.events[i])
        } else {
            None
        }
    }

    /// The latest event.
    pub fn latest(&self) -> (found: Option<&StoredEvent>)
        ensures
            found is Some <==> self@.len() > 0,
            found matches Some(stored) ==> stored@ == self@.last(),
    {
        let n = self.events.len();
        if n > 0 {
            Some(&self.events[n - 1])
        } else {
            None
        }
    }

    /// Takes in a heartbeat. The result tells whether the latest event was
    /// extended; otherwise the heartbeat was appended as a new event.
    pub fn heartbeat(&mut self, event: &ActivityEvent, pulsetime_secs: u32) -> (merged: bool)
        ensures
            final(self)@ == beat(old(self)@, event@, pulsetime_secs as nat),
            merged == (old(self)@.len() > 0 && within_pulse(
                old(self)@.last(),
                event@,
                pulsetime_secs as nat,
            )),
    {
        let label = event.label();
        let begin: i128 = event.timestamp().total_nanos();
        let width: i128 = event.duration_secs() as i128 * 1_000_000_000;
        let end: i128 = begin + width;
        let tolerance: i128 = pulsetime_secs as i128 * 1_000_000_000;
        let n = self.events.len();
        if n > 0 {
            let prev = &self.events[n - 1];
            proof {
                use_type_invariant(prev);
            }
            if prev.label == label && begin - prev.end <= tolerance {
                let later: i128 = if end > prev.end {
                    end
                } else {
                    prev.end
                };
                let start: i128 = prev.start;
                self.events.pop();
                self.events.push(StoredEvent { label, start, end: later });
                assert(self@ =~= beat(old(self)@, event@, pulsetime_secs as nat));
                return true;
            }
        }
        self.events.push(StoredEvent { label, start: begin, end });
        assert(self@ =~= beat(old(self)@, event@, pulsetime_secs as nat));
        false
    }
}

/// A bucket as a mathematical value: its description and its events, oldest
/// first.
pub struct BucketState {
    /// The description with which the bucket was made.
    pub info: BucketView,
    /// The events of the bucket.
    pub events: Seq<StoredView>,
}

/// The buckets of a collector, by id.
pub type Buckets = Map<Seq<char>, BucketState>;

/// The answer to a request to make the bucket described by `info`.
pub open spec fn create_reply(buckets: Buckets, info: BucketView) -> CreateReply {
    if buckets.contains_key(info.id) {
        CreateReply::AlreadyExists
    } else {
        CreateReply::Created
    }
}

/// The buckets after a request to make the bucket described by `info`: a
/// bucket whose id is taken stays as it is, description and events.
pub open spec fn after_create(buckets: Buckets, info: BucketView) -> Buckets {
    if buckets.contains_key(info.id) {
        buckets
    } else {
        buckets.insert(info.id, BucketState { info, events: Seq::empty() })
    }
}

/// The answer to a heartbeat for the bucket `id`.
pub open spec fn heartbeat_reply(buckets: Buckets, id: Seq<char>) -> Result<(), ClientFailure> {
    if buckets.contains_key(id) {
        Ok(())
    } else {
        Err(ClientFailure::Status(STATUS_NOT_FOUND))
    }
}

/// The buckets after a heartbeat for the bucket `id`.
pub open spec fn after_heartbeat(
    buckets: Buckets,
    id: Seq<char>,
    event: EventView,
    pulsetime_secs: nat,
) -> Buckets {
    if buckets.contains_key(id) {
        buckets.insert(
            id,
            BucketState { events: beat(buckets[id].events, event, pulsetime_secs), ..buckets[id] },
        )
    } else {
        buckets
    }
}

/// A bucket as the collector keeps it.
#[derive(Debug)]
struct StoredBucket {
    info: BucketInfo,
    timeline: Timeline,
}

/// A collector that keeps its buckets in memory.
#[derive(Debug)]
pub struct Collector {
    buckets: Vec<StoredBucket>,
}

impl View for Collector {
    type V = Buckets;

    closed spec fn view(&self) -> Buckets {
        Map::new(|id: Seq<char>| self.holds(id), |id: Seq<char>| self.state_at(self.position(id)))
    }
}

impl Collector {
    spec fn id_at(&self, i: int) -> Seq<char> {
        self.buckets@[i].info@.id
    }

    spec fn state_at(&self, i: int) -> BucketState {
        BucketState { info: self.buckets@[i].info@, events: self.buckets@[i].timeline@ }
    }

    /// Whether the first bucket with the id `id` is the one at position `i`.
    spec fn first_at(&self, id: Seq<char>, i: int) -> bool {
        &&& 0 <= i < self.buckets@.len()
        &&& self.id_at(i) == id
        &&& forall|k: int| 0 <= k < i ==> #[trigger] self.id_at(k) != id
    }

    spec fn holds(&self, id: Seq<char>) -> bool {
        exists|i: int| 0 <= i < self.buckets@.len() && #[trigger] self.id_at(i) == id
    }

    /// Some bucket with the id `id`, where there is one.
    spec fn some_position(&self, id: Seq<char>) -> int {
        choose|i: int| 0 <= i < self.buckets@.len() && #[trigger] self.id_at(i) == id
    }

    /// Among the buckets with one id there is a first.
    proof fn lemma_first(&self, id: Seq<char>, j: int) -> (i: int)
        requires
            0 <= j < self.buckets@.len(),
            self.id_at(j) == id,
        ensures
            self.first_at(id, i),
            i <= j,
        decreases j,
    {
        if exists|k: int| 0 <= k < j && #[trigger] self.id_at(k) == id {
            let k = choose|k: int| 0 <= k < j && #[trigger] self.id_at(k) == id;
            self.lemma_first(id, k)
        } else {
            j
        }
    }

    /// The first bucket with the id `id`, where the collector has that id.
    proof fn lemma_position(&self, id: Seq<char>) -> (i: int)
        requires
            self@.contains_key(id),
        ensures
            self.first_at(id, i),
            self@[id] == self.state_at(i),
    {
        let i = self.lemma_first(id, self.some_position(id));
        self.lemma_found_at(id, i);
        i
    }

    spec fn position(&self, id: Seq<char>) -> int {
        choose|i: int| self.first_at(id, i)
    }

    /// The bucket found under an id is the first one that has it.
    proof fn lemma_found_at(&self, id: Seq<char>, i: int)
        requires
            self.first_at(id, i),
        ensures
            self@.contains_key(id),
            self@[id] == self.state_at(i),
    {
        assert(self.id_at(i) == id);
        let j = self.position(id);
        assert(self.first_at(id, j));
        assert(i == j);
    }

    /// A collector without buckets.
    pub fn new() -> (collector: Collector)
        ensures
            collector@ == Map::<Seq<char>, BucketState>::empty(),
    {
        let collector = Collector { buckets: Vec::new() };
        assert(collector@ =~= Map::<Seq<char>, BucketState>::empty());
        collector
    }

    /// The position of the first bucket with the id `id`.
    fn find(&self, id: &String) -> (found: Option<usize>)
        ensures
            match found {
                Some(i) => self.first_at(id@, i as int),
                None => !self.holds(id@),
            },
    {
        let mut i: usize = 0;
        while i < self.buckets.len()
            invariant
                i <= self.buckets@.len(),
                forall|k: int| 0 <= k < i ==> #[trigger] self.id_at(k) != id@,
            decreases self.buckets@.len() - i,
        {
            if self.buckets[i].info.has_id(id) {
                return Some(i);
            }
            i += 1;
        }
        None
    }

    /// Answers a request to make the bucket described by `info`. A bucket
    /// whose id is taken is left as it is.
    pub fn create_bucket(&mut self, info: BucketInfo) -> (reply: CreateReply)
        ensures
            reply == create_reply(old(self)@, info@),
            final(self)@ == after_create(old(self)@, info@),
    {
        let key = info.id().to_owned();
        match self.find(&key) {
            Some(i) => {
                proof {
                    self.lemma_found_at(key@, i as int);
                }
                CreateReply::AlreadyExists
            },
            None => {
                let ghost before = *self;
                let ghost n = self.buckets@.len() as int;
                let ghost made = BucketState { info: info@, events: Seq::empty() };
                self.buckets.push(StoredBucket { info, timeline: Timeline::new() });
                proof {
                    assert(self.state_at(n) == made);
                    assert forall|k: int| 0 <= k < n implies #[trigger] self.id_at(k)
                        == before.id_at(k) && self.state_at(k) == before.state_at(k) by {}
                    assert(self.first_at(key@, n));
                    assert forall|id: Seq<char>| id == key@ || before@.contains_key(id) implies #[trigger]
                        self@.contains_key(id) && self@[id] == before@.insert(key@, made)[id] by {
                        if id == key@ {
                            self.lemma_found_at(id, n);
                        } else {
                            let k = before.lemma_position(id);
                            assert(self.first_at(id, k));
                            self.lemma_found_at(id, k);
                        }
                    }
                    assert forall|id: Seq<char>| #[trigger]
                        self@.contains_key(id) implies id == key@ || before@.contains_key(id) by {
                        let k = self.lemma_position(id);
                        if k < n {
                            assert(before.id_at(k) == id);
                        }
                    }
                    assert(self@ =~= before@.insert(key@, made));
                }
                CreateReply::Created
            },
        }
    }

    /// Makes sure that the bucket described by `info` is there. The model
    /// always answers, so this always succeeds.
    pub fn ensure_bucket(&mut self, info: BucketInfo) -> (outcome: Result<(), BucketError>)
        ensures
            outcome is Ok,
            final(self)@ == after_create(old(self)@, info@),
    {
        let reply = self.create_bucket(info);
        bucket_result(reply)
    }

    /// Answers a heartbeat for the bucket `bucket_id`. A heartbeat for a
    /// bucket that is not there fails and changes nothing.
    pub fn heartbeat(&mut self, bucket_id: &str, event: &ActivityEvent, pulsetime_secs: u32) -> (reply:
        Result<(), ClientFailure>)
        ensures
            reply == heartbeat_reply(old(self)@, bucket_id@),
            final(self)@ == after_heartbeat(
                old(self)@,
                bucket_id@,
                event@,
                pulsetime_secs as nat,
            ),
    {
        let key = bucket_id.to_owned();
        match self.find(&key) {
            Some(i) => {
                let ghost before = *self;
                let ghost n = self.buckets@.len() as int;
                self.buckets[i].timeline.heartbeat(event, pulsetime_secs);
                proof {
                    let changed = BucketState {
                        events: beat(before@[key@].events, event@, pulsetime_secs as nat),
                        ..before@[key@]
                    };
                    before.lemma_found_at(key@, i as int);
                    assert(self.buckets@.len() == n);
                    assert forall|k: int| 0 <= k < n implies #[trigger] self.id_at(k)
                        == before.id_at(k) by {}
                    assert forall|k: int| 0 <= k < n && k != i implies self.state_at(k)
                        == before.state_at(k) by {}
                    assert(self.state_at(i as int) == changed);
                    assert forall|id: Seq<char>|
                        #![auto]
                        before@.contains_key(id) implies self@.contains_key(id) && self@[id]
                        == before@.insert(key@, changed)[id] by {
                        let k = before.lemma_position(id);
                        assert(self.first_at(id, k));
                        self.lemma_found_at(id, k);
                    }
                    assert forall|id: Seq<char>|
                        #![auto]
                        self@.contains_key(id) implies before@.contains_key(id) by {
                        let k = self.lemma_position(id);
                        assert(before.id_at(k) == id);
                    }
                    assert(self@ =~= before@.insert(key@, changed));
                }
                Ok(())
            },
            None => Err(ClientFailure::Status(STATUS_NOT_FOUND)),
        }
    }

    /// Reports `event` to the bucket `bucket_id`, as the agent does.
    pub fn report(&mut self, bucket_id: &str, event: &ActivityEvent, pulsetime_secs: u32) -> (outcome:
        Result<(), ReportError>)
        ensures
            outcome is Ok <==> old(self)@.contains_key(bucket_id@),
            outcome is Err ==> outcome == Err::<(), ReportError>(ReportError::Fatal),
            final(self)@ == after_heartbeat(
                old(self)@,
                bucket_id@,
                event@,
                pulsetime_secs as nat,
            ),
    {
        let reply = self.heartbeat(bucket_id, event, pulsetime_secs);
        report_result(reply)
    }

    /// The description of the bucket `bucket_id`.
    pub fn bucket(&self, bucket_id: &str) -> (found: Option<&BucketInfo>)
        ensures
            found is Some <==> self@.contains_key(bucket_id@),
            found matches Some(info) ==> info@ == self@[bucket_id@].info,
    {
        let key = bucket_id.to_owned();
        match self.find(&key) {
            Some(i) => {
                proof {
                    self.lemma_found_at(key@, i as int);
                }
                Some(&self.buckets[i].info)
            },
            None => None,
        }
    }

    /// The events of the bucket `bucket_id`.
    pub fn events(&self, bucket_id: &str) -> (found: Option<&Timeline>)
        ensures
            found is Some <==> self@.contains_key(bucket_id@),
            found matches Some(timeline) ==> timeline@ == self@[bucket_id@].events,
    {
        let key = bucket_id.to_owned();
        match self.find(&key) {
            Some(i) => {
                proof {
                    self.lemma_found_at(key@, i as int);
                }
                Some(&self.buckets[i].timeline)
            },
            None => None,
        }
    }
}

} // verus!
