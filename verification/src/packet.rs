//! Packets as they travel: a kind and a body.
use vstd::prelude::*;
use crate::kinds::{
    PACKET_KIND_T_OPEN_REPOSITORY,
    PACKET_KIND_R_OPEN_REPOSITORY,
    PACKET_KIND_T_INIT_REPOSITORY,
    PACKET_KIND_R_INIT_REPOSITORY,
    PACKET_KIND_T_BEGIN_SEND,
    PACKET_KIND_R_BEGIN_SEND,
    PACKET_KIND_CHUNK,
    PACKET_KIND_T_SEND_SYNC,
    PACKET_KIND_R_SEND_SYNC,
    PACKET_KIND_T_ADD_ITEM,
    PACKET_KIND_R_ADD_ITEM,
    PACKET_KIND_T_RM_ITEMS,
    PACKET_KIND_R_RM_ITEMS,
    PACKET_KIND_T_REQUEST_METADATA,
    PACKET_KIND_R_REQUEST_METADATA,
    PACKET_KIND_REQUEST_DATA,
    PACKET_KIND_T_GC,
    PACKET_KIND_R_GC,
    PACKET_KIND_T_REQUEST_ITEM_SYNC,
    PACKET_KIND_R_REQUEST_ITEM_SYNC,
    PACKET_KIND_SYNC_LOG_OPS,
    PACKET_KIND_T_REQUEST_CHUNK_DATA,
    PACKET_KIND_R_REQUEST_CHUNK_DATA,
    PACKET_KIND_PROGRESS,
    PACKET_KIND_ABORT,
    PACKET_KIND_T_RESTORE_REMOVED,
    PACKET_KIND_R_RESTORE_REMOVED,
    PACKET_KIND_REQUEST_INDEX,
    PACKET_KIND_T_STORAGE_WRITE_BARRIER,
    PACKET_KIND_R_STORAGE_WRITE_BARRIER,
    PACKET_KIND_STORAGE_CONNECT,
    PACKET_KIND_T_STORAGE_PREPARE_FOR_GC,
    PACKET_KIND_R_STORAGE_PREPARE_FOR_GC,
    PACKET_KIND_STORAGE_BEGIN_GC,
    PACKET_KIND_STORAGE_GC_COMPLETE,
    PACKET_KIND_T_STORAGE_AWAIT_GC_COMPLETION,
    PACKET_KIND_R_STORAGE_AWAIT_GC_COMPLETION,
    PACKET_KIND_END_OF_TRANSMISSION,
};

verus! {

/// Number of bytes in a chunk address.
pub const ADDRESS_SZ: usize = 32;

/// The content address of a chunk.
#[derive(Debug, Clone, Copy, PartialEq, Eq)]
pub struct Address {
    pub bytes: [u8; 32],
}

/// A chunk of data together with its address.
#[derive(Debug, PartialEq)]
pub struct Chunk {
    pub address: Address,
    pub data: Vec<u8>,
}

/// One packet of the protocol.
///
/// Packets that carry a message hold it in its serialized form, the bytes
/// that travel as the packet's body; a chunk holds its address and data, and
/// the answer to a chunk request holds the chunk data as it is. The library
/// does not look inside a serialized message: whether its bytes deserialize
/// into the message its kind carries is for the caller to check.
#[non_exhaustive]
#[derive(Debug, PartialEq)]
pub enum Packet {
    /// A request to open a repository: a serialized `TOpenRepository`.
    TOpenRepository(Vec<u8>),
    /// The answer to `TOpenRepository`: the serialized server time.
    ROpenRepository(Vec<u8>),
    /// A request to initialize a repository: a serialized optional storage engine specification.
    TInitRepository(Vec<u8>),
    /// The answer to `TInitRepository`.
    RInitRepository,
    /// A serialized `TBeginSend`.
    TBeginSend(Vec<u8>),
    /// A serialized `RBeginSend`.
    RBeginSend(Vec<u8>),
    /// A chunk to store.
    Chunk(Chunk),
    /// A request to make what was sent durable.
    TSendSync,
    /// The answer to `TSendSync`.
    RSendSync,
    /// A request to add an item: its serialized generation and metadata.
    TAddItem(Vec<u8>),
    /// The answer to `TAddItem`: the serialized `Xid` of the new item.
    RAddItem(Vec<u8>),
    /// A request to remove items: their serialized list of `Xid`s.
    TRmItems(Vec<u8>),
    /// The answer to `TRmItems`.
    RRmItems,
    /// A serialized `TRequestMetadata`.
    TRequestMetadata(Vec<u8>),
    /// The answer to `TRequestMetadata`: the serialized optional item metadata.
    RRequestMetadata(Vec<u8>),
    /// A request for item data: its serialized `Xid` and optional ranges.
    RequestData(Vec<u8>),
    /// A serialized `TGc`.
    TGc(Vec<u8>),
    /// The answer to `TGc`: the serialized collection statistics.
    RGc(Vec<u8>),
    /// A serialized `TRequestItemSync`.
    TRequestItemSync(Vec<u8>),
    /// A serialized `RRequestItemSync`.
    RRequestItemSync(Vec<u8>),
    /// A serialized list of item log operations.
    SyncLogOps(Vec<u8>),
    /// A request for the data of a chunk: its serialized `Address`.
    TRequestChunkData(Vec<u8>),
    /// The data of a requested chunk, as it is.
    RRequestChunkData(Vec<u8>),
    /// A serialized `Progress`.
    Progress(Vec<u8>),
    /// A serialized `Abort`.
    Abort(Vec<u8>),
    /// A request to restore removed items.
    TRestoreRemoved,
    /// A serialized `RRestoreRemoved`.
    RRestoreRemoved(Vec<u8>),
    /// A serialized `RequestIndex`.
    RequestIndex(Vec<u8>),
    /// A request to a storage engine to make what was written durable.
    TStorageWriteBarrier,
    /// The answer to `TStorageWriteBarrier`.
    RStorageWriteBarrier,
    /// A serialized `StorageConnect`.
    StorageConnect(Vec<u8>),
    /// A request to a storage engine to prepare for collection: a serialized `Xid`.
    TStoragePrepareForGC(Vec<u8>),
    /// The answer to `TStoragePrepareForGC`.
    RStoragePrepareForGC,
    /// A serialized `StorageBeginGC`.
    StorageBeginGC(Vec<u8>),
    /// The serialized statistics of a finished collection.
    StorageGCComplete(Vec<u8>),
    /// A request to wait for a collection to end: a serialized `Xid`.
    TStorageAwaitGCCompletion(Vec<u8>),
    /// The answer to `TStorageAwaitGCCompletion`.
    RStorageAwaitGCCompletion,
    /// The end of a stream of packets.
    EndOfTransmission,
}

impl Packet {
    /// The kind byte that announces this packet.
    pub open spec fn spec_kind(&self) -> u8 {
        match self {
            Packet::TOpenRepository(_) => PACKET_KIND_T_OPEN_REPOSITORY,
            Packet::ROpenRepository(_) => PACKET_KIND_R_OPEN_REPOSITORY,
            Packet::TInitRepository(_) => PACKET_KIND_T_INIT_REPOSITORY,
            Packet::RInitRepository => PACKET_KIND_R_INIT_REPOSITORY,
            Packet::TBeginSend(_) => PACKET_KIND_T_BEGIN_SEND,
            Packet::RBeginSend(_) => PACKET_KIND_R_BEGIN_SEND,
            Packet::Chunk(_) => PACKET_KIND_CHUNK,
            Packet::TSendSync => PACKET_KIND_T_SEND_SYNC,
            Packet::RSendSync => PACKET_KIND_R_SEND_SYNC,
            Packet::TAddItem(_) => PACKET_KIND_T_ADD_ITEM,
            Packet::RAddItem(_) => PACKET_KIND_R_ADD_ITEM,
            Packet::TRmItems(_) => PACKET_KIND_T_RM_ITEMS,
            Packet::RRmItems => PACKET_KIND_R_RM_ITEMS,
            Packet::TRequestMetadata(_) => PACKET_KIND_T_REQUEST_METADATA,
            Packet::RRequestMetadata(_) => PACKET_KIND_R_REQUEST_METADATA,
            Packet::RequestData(_) => PACKET_KIND_REQUEST_DATA,
            Packet::TGc(_) => PACKET_KIND_T_GC,
            Packet::RGc(_) => PACKET_KIND_R_GC,
            Packet::TRequestItemSync(_) => PACKET_KIND_T_REQUEST_ITEM_SYNC,
            Packet::RRequestItemSync(_) => PACKET_KIND_R_REQUEST_ITEM_SYNC,
            Packet::SyncLogOps(_) => PACKET_KIND_SYNC_LOG_OPS,
            Packet::TRequestChunkData(_) => PACKET_KIND_T_REQUEST_CHUNK_DATA,
            Packet::RRequestChunkData(_) => PACKET_KIND_R_REQUEST_CHUNK_DATA,
            Packet::Progress(_) => PACKET_KIND_PROGRESS,
            Packet::Abort(_) => PACKET_KIND_ABORT,
            Packet::TRestoreRemoved => PACKET_KIND_T_RESTORE_REMOVED,
            Packet::RRestoreRemoved(_) => PACKET_KIND_R_RESTORE_REMOVED,
            Packet::RequestIndex(_) => PACKET_KIND_REQUEST_INDEX,
            Packet::TStorageWriteBarrier => PACKET_KIND_T_STORAGE_WRITE_BARRIER,
            Packet::RStorageWriteBarrier => PACKET_KIND_R_STORAGE_WRITE_BARRIER,
            Packet::StorageConnect(_) => PACKET_KIND_STORAGE_CONNECT,
            Packet::TStoragePrepareForGC(_) => PACKET_KIND_T_STORAGE_PREPARE_FOR_GC,
            Packet::RStoragePrepareForGC => PACKET_KIND_R_STORAGE_PREPARE_FOR_GC,
            Packet::StorageBeginGC(_) => PACKET_KIND_STORAGE_BEGIN_GC,
            Packet::StorageGCComplete(_) => PACKET_KIND_STORAGE_GC_COMPLETE,
            Packet::TStorageAwaitGCCompletion(_) => PACKET_KIND_T_STORAGE_AWAIT_GC_COMPLETION,
            Packet::RStorageAwaitGCCompletion => PACKET_KIND_R_STORAGE_AWAIT_GC_COMPLETION,
            Packet::EndOfTransmission => PACKET_KIND_END_OF_TRANSMISSION,
        }
    }

    /// The body that follows this packet's header.
    pub open spec fn spec_body(&self) -> Seq<u8> {
        match self {
            Packet::Chunk(c) => c.address.bytes@ + c.data@,
            Packet::TOpenRepository(b) => b@,
            Packet::ROpenRepository(b) => b@,
            Packet::TInitRepository(b) => b@,
            Packet::TBeginSend(b) => b@,
            Packet::RBeginSend(b) => b@,
            Packet::TAddItem(b) => b@,
            Packet::RAddItem(b) => b@,
            Packet::TRmItems(b) => b@,
            Packet::TRequestMetadata(b) => b@,
            Packet::RRequestMetadata(b) => b@,
            Packet::RequestData(b) => b@,
            Packet::TGc(b) => b@,
            Packet::RGc(b) => b@,
            Packet::TRequestItemSync(b) => b@,
            Packet::RRequestItemSync(b) => b@,
            Packet::SyncLogOps(b) => b@,
            Packet::TRequestChunkData(b) => b@,
            Packet::RRequestChunkData(b) => b@,
            Packet::Progress(b) => b@,
            Packet::Abort(b) => b@,
            Packet::RRestoreRemoved(b) => b@,
            Packet::RequestIndex(b) => b@,
            Packet::StorageConnect(b) => b@,
            Packet::TStoragePrepareForGC(b) => b@,
            Packet::StorageBeginGC(b) => b@,
            Packet::StorageGCComplete(b) => b@,
            Packet::TStorageAwaitGCCompletion(b) => b@,
            _ => Seq::empty(),
        }
    }

    /// The kind byte that announces this packet.
    pub fn kind(&self) -> (k: u8)
        ensures
            k == self.spec_kind(),
    {
        match self {
            Packet::TOpenRepository(_) => PACKET_KIND_T_OPEN_REPOSITORY,
            Packet::ROpenRepository(_) => PACKET_KIND_R_OPEN_REPOSITORY,
            Packet::TInitRepository(_) => PACKET_KIND_T_INIT_REPOSITORY,
            Packet::RInitRepository => PACKET_KIND_R_INIT_REPOSITORY,
            Packet::TBeginSend(_) => PACKET_KIND_T_BEGIN_SEND,
            Packet::RBeginSend(_) => PACKET_KIND_R_BEGIN_SEND,
            Packet::Chunk(_) => PACKET_KIND_CHUNK,
            Packet::TSendSync => PACKET_KIND_T_SEND_SYNC,
            Packet::RSendSync => PACKET_KIND_R_SEND_SYNC,
            Packet::TAddItem(_) => PACKET_KIND_T_ADD_ITEM,
            Packet::RAddItem(_) => PACKET_KIND_R_ADD_ITEM,
            Packet::TRmItems(_) => PACKET_KIND_T_RM_ITEMS,
            Packet::RRmItems => PACKET_KIND_R_RM_ITEMS,
            Packet::TRequestMetadata(_) => PACKET_KIND_T_REQUEST_METADATA,
            Packet::RRequestMetadata(_) => PACKET_KIND_R_REQUEST_METADATA,
            Packet::RequestData(_) => PACKET_KIND_REQUEST_DATA,
            Packet::TGc(_) => PACKET_KIND_T_GC,
            Packet::RGc(_) => PACKET_KIND_R_GC,
            Packet::TRequestItemSync(_) => PACKET_KIND_T_REQUEST_ITEM_SYNC,
            Packet::RRequestItemSync(_) => PACKET_KIND_R_REQUEST_ITEM_SYNC,
            Packet::SyncLogOps(_) => PACKET_KIND_SYNC_LOG_OPS,
            Packet::TRequestChunkData(_) => PACKET_KIND_T_REQUEST_CHUNK_DATA,
            Packet::RRequestChunkData(_) => PACKET_KIND_R_REQUEST_CHUNK_DATA,
            Packet::Progress(_) => PACKET_KIND_PROGRESS,
            Packet::Abort(_) => PACKET_KIND_ABORT,
            Packet::TRestoreRemoved => PACKET_KIND_T_RESTORE_REMOVED,
            Packet::RRestoreRemoved(_) => PACKET_KIND_R_RESTORE_REMOVED,
            Packet::RequestIndex(_) => PACKET_KIND_REQUEST_INDEX,
            Packet::TStorageWriteBarrier => PACKET_KIND_T_STORAGE_WRITE_BARRIER,
            Packet::RStorageWriteBarrier => PACKET_KIND_R_STORAGE_WRITE_BARRIER,
            Packet::StorageConnect(_) => PACKET_KIND_STORAGE_CONNECT,
            Packet::TStoragePrepareForGC(_) => PACKET_KIND_T_STORAGE_PREPARE_FOR_GC,
            Packet::RStoragePrepareForGC => PACKET_KIND_R_STORAGE_PREPARE_FOR_GC,
            Packet::StorageBeginGC(_) => PACKET_KIND_STORAGE_BEGIN_GC,
            Packet::StorageGCComplete(_) => PACKET_KIND_STORAGE_GC_COMPLETE,
            Packet::TStorageAwaitGCCompletion(_) => PACKET_KIND_T_STORAGE_AWAIT_GC_COMPLETION,
            Packet::RStorageAwaitGCCompletion => PACKET_KIND_R_STORAGE_AWAIT_GC_COMPLETION,
            Packet::EndOfTransmission => PACKET_KIND_END_OF_TRANSMISSION,
        }
    }
}

impl View for Packet {
    /// A packet is seen as its kind and its body.
    type V = (u8, Seq<u8>);

    open spec fn view(&self) -> (u8, Seq<u8>) {
        (self.spec_kind(), self.spec_body())
    }
}

} // verus!
