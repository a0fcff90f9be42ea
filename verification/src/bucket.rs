//! The bucket: the collector's stream of events from this agent on one
//! machine.

use vstd::prelude::*;
use vstd::string::*;
use crate::report::ClientFailure;

verus! {

/// The name of the watcher, followed by the sign that parts it from the
/// hostname in a bucket's id.
pub open spec fn bucket_id_prefix() -> Seq<char> {
    "aw-watcher-win-vdesktop_"@
}

/// The type of the events in the bucket, spelled as the buckets of this
/// watcher are on record.
pub open spec fn bucket_kind() -> Seq<char> {
    "vdestkop-name"@
}

/// The name under which the agent presents itself to the collector, spelled
/// as the buckets of this watcher are on record.
pub open spec fn client_name() -> Seq<char> {
    "aw-watcher-win-vdestkop"@
}

/// The id of the bucket for the machine called `hostname`.
pub open spec fn bucket_id_of(hostname: Seq<char>) -> Seq<char> {
    bucket_id_prefix() + hostname
}

/// A bucket's description as a mathematical value.
pub struct BucketView {
    /// The id, by which the collector knows the bucket.
    pub id: Seq<char>,
    /// The type of the events in the bucket.
    pub kind: Seq<char>,
    /// The client that made the bucket.
    pub client: Seq<char>,
    /// The machine that the events are from.
    pub hostname: Seq<char>,
}

/// The description of the bucket for the machine called `hostname`.
pub open spec fn described(hostname: Seq<char>) -> BucketView {
    BucketView {
        id: bucket_id_of(hostname),
        kind: bucket_kind(),
        client: client_name(),
        hostname,
    }
}

/// A bucket's description: its id and what is recorded of it when it is made.
#[derive(Debug, PartialEq, Eq)]
pub struct BucketInfo {
    id: String,
    kind: String,
    client: String,
    hostname: String,
}

impl View for BucketInfo {
    type V = BucketView;

    closed spec fn view(&self) -> BucketView {
        BucketView {
            id: self.id@,
            kind: self.kind@,
            client: self.client@,
            hostname: self.hostname@,
        }
    }
}

/// The name under which the agent presents itself to the collector.
pub fn client_name_text() -> (name: &'static str)
    ensures
        name@ == client_name(),
{
    "aw-watcher-win-vdestkop"
}

/// The id of the bucket for the machine called `hostname`.
pub fn bucket_id(hostname: &str) -> (id: String)
    ensures
        id@ == bucket_id_of(hostname@),
{
    let mut id = "aw-watcher-win-vdesktop_".to_owned();
    id.append(hostname);
    id
}

impl BucketInfo {
    /// The description of the bucket for the machine called `hostname`.
    pub fn describe(hostname: &str) -> (info: BucketInfo)
        ensures
            info@ == described(hostname@),
    {
        BucketInfo {
            id: bucket_id(hostname),
            kind: "vdestkop-name".to_owned(),
            client: client_name_text().to_owned(),
            hostname: hostname.to_owned(),
        }
    }

    /// A description with the given parts.
    pub fn new(id: String, kind: String, client: String, hostname: String) -> (info: BucketInfo)
        ensures
            info@ == (BucketView { id: id@, kind: kind@, client: client@, hostname: hostname@ }),
    {
        BucketInfo { id, kind, client, hostname }
    }

    /// The id, by which the collector knows the bucket.
    pub fn id(&self) -> (text: &str)
        ensures
            text@ == self@.id,
    {
        self.id.as_str()
    }

    /// The type of the events in the bucket.
    pub fn kind(&self) -> (text: &str)
        ensures
            text@ == self@.kind,
    {
        self.kind.as_str()
    }

    /// The client that made the bucket.
    pub fn client(&self) -> (text: &str)
        ensures
            text@ == self@.client,
    {
        self.client.as_str()
    }

    /// The machine that the events are from.
    pub fn hostname(&self) -> (text: &str)
        ensures
            text@ == self@.hostname,
    {
        self.hostname.as_str()
    }

    /// Whether the bucket has the id `id`.
    pub fn has_id(&self, id: &String) -> (same: bool)
        ensures
            same == (self@.id == id@),
    {
        self.id == *id
    }

    /// A copy of the description.
    pub fn duplicate(&self) -> (copy: BucketInfo)
        ensures
            copy@ == self@,
    {
        BucketInfo {
            id: self.id.clone(),
            kind: self.kind.clone(),
            client: self.client.clone(),
            hostname: self.hostname.clone(),
        }
    }
}

/// How the collector answered a request to make a bucket.
#[derive(Clone, Copy, Debug, PartialEq, Eq, Structural)]
pub enum CreateReply {
    /// The bucket was made.
    Created,
    /// A bucket with this id was there already, and was left as it was.
    AlreadyExists,
    /// The request failed.
    Failed(ClientFailure),
}

/// The bucket could not be made ready.
#[derive(Clone, Copy, Debug, PartialEq, Eq, Structural)]
pub struct BucketError {
    /// The failure of the request to make the bucket.
    pub cause: ClientFailure,
}

/// Whether the bucket is ready after the collector answered `reply`: it is
/// where it was just made and where it was there before; any failure is
/// handed on.
pub open spec fn bucket_outcome(reply: CreateReply) -> Result<(), BucketError> {
    match reply {
        CreateReply::Created => Ok(()),
        CreateReply::AlreadyExists => Ok(()),
        CreateReply::Failed(cause) => Err(BucketError { cause }),
    }
}

/// Whether the bucket is ready after the collector answered `reply`.
pub fn bucket_result(reply: CreateReply) -> (outcome: Result<(), BucketError>)
    ensures
        outcome == bucket_outcome(reply),
{
    match reply {
        CreateReply::Created => Ok(()),
        CreateReply::AlreadyExists => Ok(()),
        CreateReply::Failed(cause) => Err(BucketError { cause }),
    }
}

} // verus!
