//! The messages that travel, serialized, as the bodies of packets.
//!
//! The library carries each message as the bytes of its serialized form
//! (see `Packet`); these types are what those bytes stand for.
use vstd::prelude::*;

verus! {

/// The identifier of an item or of a garbage collection generation.
#[derive(Debug, Clone, Copy, PartialEq, Eq)]
pub struct Xid {
    pub bytes: [u8; 16],
}

/// What a client means to do with the repository it opens.
#[derive(Debug, Clone, Copy, PartialEq, Eq)]
pub enum LockHint {
    Read,
    Write,
    Gc,
}

/// A request to open a repository.
#[derive(Debug, PartialEq)]
pub struct TOpenRepository {
    pub lock_hint: LockHint,
    pub repository_protocol_version: String,
}

/// The answer to `TOpenRepository`: the server's time, as seconds since the
/// Unix epoch and the nanoseconds past that second.
#[derive(Debug, PartialEq)]
pub struct ROpenRepository {
    pub now_unix_secs: i64,
    pub now_subsec_nanos: u32,
}

/// A request to begin sending data, maybe as part of a known delta.
#[derive(Debug, PartialEq)]
pub struct TBeginSend {
    pub delta_id: Option<Xid>,
}

/// The answer to `TBeginSend`.
#[derive(Debug, PartialEq)]
pub struct RBeginSend {
    pub gc_generation: Xid,
    pub has_delta_id: bool,
}

/// A request for the metadata of an item.
#[derive(Debug, PartialEq)]
pub struct TRequestMetadata {
    pub id: Xid,
}

/// A request for the index of an item.
#[derive(Debug, PartialEq)]
pub struct RequestIndex {
    pub id: Xid,
}

/// A request to collect garbage.
#[derive(Debug, PartialEq)]
pub struct TGc {}

/// A request for the item log operations after a given one.
#[derive(Debug, PartialEq)]
pub struct TRequestItemSync {
    pub after: i64,
    pub gc_generation: Option<Xid>,
}

/// The answer to `TRequestItemSync`.
#[derive(Debug, PartialEq)]
pub struct RRequestItemSync {
    pub gc_generation: Xid,
}

/// A request to connect to a storage engine.
#[derive(Debug, PartialEq)]
pub struct StorageConnect {
    pub protocol: String,
    pub path: String,
}

/// Progress reports from the remote.
#[derive(Debug, PartialEq)]
pub enum Progress {
    Notice(String),
    SetMessage(String),
}

/// The remote gives up, with a message and maybe a code.
#[derive(Debug, PartialEq)]
pub struct Abort {
    pub message: String,
    pub code: Option<u64>,
}

/// The answer to `TRestoreRemoved`: how many items were restored.
#[derive(Debug, PartialEq)]
pub struct RRestoreRemoved {
    pub n_restored: u64,
}

/// A request to a storage engine to begin collecting garbage, given the path
/// of the database of reachable chunks.
#[derive(Debug, PartialEq)]
pub struct StorageBeginGC {
    pub reachability_db_path: String,
}

} // verus!
