//! Packet kind numbers, the byte that ends every packet header.
use vstd::prelude::*;

verus! {

/// The largest packet body that a reader accepts unless told otherwise.
pub const DEFAULT_MAX_PACKET_SIZE: usize = 16777216;

pub const PACKET_KIND_T_OPEN_REPOSITORY: u8 = 0;
pub const PACKET_KIND_R_OPEN_REPOSITORY: u8 = 1;
pub const PACKET_KIND_T_INIT_REPOSITORY: u8 = 2;
pub const PACKET_KIND_R_INIT_REPOSITORY: u8 = 3;
pub const PACKET_KIND_T_BEGIN_SEND: u8 = 4;
pub const PACKET_KIND_R_BEGIN_SEND: u8 = 5;
pub const PACKET_KIND_T_SEND_SYNC: u8 = 6;
pub const PACKET_KIND_R_SEND_SYNC: u8 = 7;
pub const PACKET_KIND_CHUNK: u8 = 8;
pub const PACKET_KIND_T_ADD_ITEM: u8 = 9;
pub const PACKET_KIND_R_ADD_ITEM: u8 = 10;
pub const PACKET_KIND_T_RM_ITEMS: u8 = 11;
pub const PACKET_KIND_R_RM_ITEMS: u8 = 12;
pub const PACKET_KIND_REQUEST_DATA: u8 = 13;
pub const PACKET_KIND_T_GC: u8 = 15;
pub const PACKET_KIND_R_GC: u8 = 16;
pub const PACKET_KIND_T_REQUEST_ITEM_SYNC: u8 = 17;
pub const PACKET_KIND_R_REQUEST_ITEM_SYNC: u8 = 18;
pub const PACKET_KIND_SYNC_LOG_OPS: u8 = 19;
pub const PACKET_KIND_T_REQUEST_CHUNK_DATA: u8 = 20;
pub const PACKET_KIND_R_REQUEST_CHUNK_DATA: u8 = 21;
pub const PACKET_KIND_PROGRESS: u8 = 22;
pub const PACKET_KIND_ABORT: u8 = 23;
pub const PACKET_KIND_T_RESTORE_REMOVED: u8 = 24;
pub const PACKET_KIND_R_RESTORE_REMOVED: u8 = 25;
pub const PACKET_KIND_REQUEST_INDEX: u8 = 26;
pub const PACKET_KIND_T_REQUEST_METADATA: u8 = 28;
pub const PACKET_KIND_R_REQUEST_METADATA: u8 = 29;

// Backend storage protocol messages.
pub const PACKET_KIND_T_STORAGE_WRITE_BARRIER: u8 = 100;
pub const PACKET_KIND_R_STORAGE_WRITE_BARRIER: u8 = 101;
pub const PACKET_KIND_STORAGE_CONNECT: u8 = 102;
pub const PACKET_KIND_T_STORAGE_PREPARE_FOR_GC: u8 = 103;
pub const PACKET_KIND_R_STORAGE_PREPARE_FOR_GC: u8 = 104;
pub const PACKET_KIND_STORAGE_BEGIN_GC: u8 = 105;
pub const PACKET_KIND_STORAGE_GC_COMPLETE: u8 = 107;
pub const PACKET_KIND_T_STORAGE_AWAIT_GC_COMPLETION: u8 = 108;
pub const PACKET_KIND_R_STORAGE_AWAIT_GC_COMPLETION: u8 = 109;

pub const PACKET_KIND_END_OF_TRANSMISSION: u8 = 255;

/// Kinds whose packets carry nothing: whatever body such a packet arrives
/// with is read and dropped.
pub open spec fn is_empty_kind(k: u8) -> bool {
    ||| k == PACKET_KIND_R_INIT_REPOSITORY
    ||| k == PACKET_KIND_T_SEND_SYNC
    ||| k == PACKET_KIND_R_SEND_SYNC
    ||| k == PACKET_KIND_R_RM_ITEMS
    ||| k == PACKET_KIND_T_RESTORE_REMOVED
    ||| k == PACKET_KIND_T_STORAGE_WRITE_BARRIER
    ||| k == PACKET_KIND_R_STORAGE_WRITE_BARRIER
    ||| k == PACKET_KIND_R_STORAGE_PREPARE_FOR_GC
    ||| k == PACKET_KIND_R_STORAGE_AWAIT_GC_COMPLETION
    ||| k == PACKET_KIND_END_OF_TRANSMISSION
}

/// Kinds whose body is the serialized form of a message.
pub open spec fn is_message_kind(k: u8) -> bool {
    ||| k == PACKET_KIND_T_OPEN_REPOSITORY
    ||| k == PACKET_KIND_R_OPEN_REPOSITORY
    ||| k == PACKET_KIND_T_INIT_REPOSITORY
    ||| k == PACKET_KIND_T_BEGIN_SEND
    ||| k == PACKET_KIND_R_BEGIN_SEND
    ||| k == PACKET_KIND_T_ADD_ITEM
    ||| k == PACKET_KIND_R_ADD_ITEM
    ||| k == PACKET_KIND_T_RM_ITEMS
    ||| k == PACKET_KIND_T_REQUEST_METADATA
    ||| k == PACKET_KIND_R_REQUEST_METADATA
    ||| k == PACKET_KIND_REQUEST_DATA
    ||| k == PACKET_KIND_REQUEST_INDEX
    ||| k == PACKET_KIND_T_GC
    ||| k == PACKET_KIND_R_GC
    ||| k == PACKET_KIND_T_REQUEST_ITEM_SYNC
    ||| k == PACKET_KIND_R_REQUEST_ITEM_SYNC
    ||| k == PACKET_KIND_SYNC_LOG_OPS
    ||| k == PACKET_KIND_T_REQUEST_CHUNK_DATA
    ||| k == PACKET_KIND_PROGRESS
    ||| k == PACKET_KIND_ABORT
    ||| k == PACKET_KIND_R_RESTORE_REMOVED
    ||| k == PACKET_KIND_STORAGE_CONNECT
    ||| k == PACKET_KIND_T_STORAGE_PREPARE_FOR_GC
    ||| k == PACKET_KIND_STORAGE_BEGIN_GC
    ||| k == PACKET_KIND_STORAGE_GC_COMPLETE
    ||| k == PACKET_KIND_T_STORAGE_AWAIT_GC_COMPLETION
}

/// Kinds whose body is taken as it is: a chunk (its address, then its data)
/// and the data of a requested chunk.
pub open spec fn is_raw_kind(k: u8) -> bool {
    k == PACKET_KIND_CHUNK || k == PACKET_KIND_R_REQUEST_CHUNK_DATA
}

/// The kinds that a reader accepts.
pub open spec fn is_known_kind(k: u8) -> bool {
    is_empty_kind(k) || is_message_kind(k) || is_raw_kind(k)
}

} // verus!
