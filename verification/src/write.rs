//! Writing packets: a header, then the body.
use vstd::prelude::*;
use crate::error::ProtocolError;
use crate::header::{encode_header, header_bytes};
use crate::packet::{Address, Packet, ADDRESS_SZ};
use crate::kinds::{
    PACKET_KIND_ABORT,
    PACKET_KIND_END_OF_TRANSMISSION,
    PACKET_KIND_PROGRESS,
    PACKET_KIND_REQUEST_DATA,
    PACKET_KIND_REQUEST_INDEX,
    PACKET_KIND_R_ADD_ITEM,
    PACKET_KIND_R_BEGIN_SEND,
    PACKET_KIND_R_GC,
    PACKET_KIND_R_INIT_REPOSITORY,
    PACKET_KIND_R_OPEN_REPOSITORY,
    PACKET_KIND_R_REQUEST_CHUNK_DATA,
    PACKET_KIND_R_REQUEST_ITEM_SYNC,
    PACKET_KIND_R_REQUEST_METADATA,
    PACKET_KIND_R_RESTORE_REMOVED,
    PACKET_KIND_R_RM_ITEMS,
    PACKET_KIND_R_SEND_SYNC,
    PACKET_KIND_R_STORAGE_AWAIT_GC_COMPLETION,
    PACKET_KIND_R_STORAGE_PREPARE_FOR_GC,
    PACKET_KIND_R_STORAGE_WRITE_BARRIER,
    PACKET_KIND_STORAGE_BEGIN_GC,
    PACKET_KIND_STORAGE_CONNECT,
    PACKET_KIND_STORAGE_GC_COMPLETE,
    PACKET_KIND_SYNC_LOG_OPS,
    PACKET_KIND_T_ADD_ITEM,
    PACKET_KIND_T_BEGIN_SEND,
    PACKET_KIND_T_GC,
    PACKET_KIND_T_INIT_REPOSITORY,
    PACKET_KIND_T_OPEN_REPOSITORY,
    PACKET_KIND_T_REQUEST_CHUNK_DATA,
    PACKET_KIND_T_REQUEST_ITEM_SYNC,
    PACKET_KIND_T_REQUEST_METADATA,
    PACKET_KIND_T_RESTORE_REMOVED,
    PACKET_KIND_T_RM_ITEMS,
    PACKET_KIND_T_SEND_SYNC,
    PACKET_KIND_T_STORAGE_AWAIT_GC_COMPLETION,
    PACKET_KIND_T_STORAGE_PREPARE_FOR_GC,
    PACKET_KIND_T_STORAGE_WRITE_BARRIER,
    PACKET_KIND_CHUNK,
};

verus! {

/// The bytes that carry a packet of kind `kind` with body `body`: the header
/// announcing the body's size, then the body.
pub open spec fn frame(kind: u8, body: Seq<u8>) -> Seq<u8>
    recommends
        body.len() <= u32::MAX,
{
    header_bytes(kind, body.len() as u32) + body
}

/// Appends `buf` to the stream `w`.
pub fn write_to_remote(w: &mut Vec<u8>, buf: &[u8])
    ensures
        final(w)@ == old(w)@ + buf@,
{
    let mut i: usize = 0;
    while i < buf.len()
        invariant
            i <= buf@.len(),
            w@ == old(w)@ + buf@.take(i as int),
        decreases buf@.len() - i,
    {
        w.push(buf[i]);
        i = i + 1;
        assert(buf@.take(i as int) =~= buf@.take(i - 1).push(buf@[i - 1]));
    }
    assert(buf@.take(i as int) =~= buf@);
}

/// Appends the header of a packet of kind `kind` whose body is `sz` bytes long.
pub fn send_hdr(w: &mut Vec<u8>, kind: u8, sz: u32)
    ensures
        final(w)@ == old(w)@ + header_bytes(kind, sz),
{
    let hdr = encode_header(kind, sz);
    write_to_remote(w, hdr.as_slice());
}

/// Appends a packet of kind `kind` with body `body`; fails, writing nothing,
/// where the body's size does not fit a header.
pub fn write_frame(w: &mut Vec<u8>, kind: u8, body: &[u8]) -> (r: Result<(), ProtocolError>)
    ensures
        body@.len() <= u32::MAX ==> r is Ok && final(w)@ == old(w)@ + frame(kind, body@),
        body@.len() > u32::MAX ==> r == Err::<(), ProtocolError>(ProtocolError::SizeOutOfRange)
            && final(w)@ == old(w)@,
{
    if body.len() > 0xffff_ffff {
        return Err(ProtocolError::SizeOutOfRange);
    }
    send_hdr(w, kind, body.len() as u32);
    write_to_remote(w, body);
    assert(w@ =~= old(w)@ + frame(kind, body@));
    Ok(())
}

/// Appends a chunk packet made of `address` and `data`, the same bytes that
/// writing the packet `Packet::Chunk` of that address and data appends;
/// fails, writing nothing, where the chunk does not fit a header's size.
pub fn write_chunk(w: &mut Vec<u8>, address: &Address, data: &[u8]) -> (r: Result<(), ProtocolError>)
    ensures
        data@.len() + ADDRESS_SZ <= u32::MAX ==> r is Ok && final(w)@ == old(w)@ + frame(
            PACKET_KIND_CHUNK,
            address.bytes@ + data@,
        ),
        data@.len() + ADDRESS_SZ > u32::MAX ==> r == Err::<(), ProtocolError>(
            ProtocolError::SizeOutOfRange,
        ) && final(w)@ == old(w)@,
{
    if data.len() > 0xffff_ffff - ADDRESS_SZ {
        return Err(ProtocolError::SizeOutOfRange);
    }
    send_hdr(w, PACKET_KIND_CHUNK, (data.len() + ADDRESS_SZ) as u32);
    write_to_remote(w, address.bytes.as_slice());
    write_to_remote(w, data);
    assert(w@ =~= old(w)@ + frame(PACKET_KIND_CHUNK, address.bytes@ + data@));
    Ok(())
}

/// Appends the packet `pkt`: its header, then its body; fails, writing
/// nothing, where the body does not fit a header's size.
pub fn write_packet(w: &mut Vec<u8>, pkt: &Packet) -> (r: Result<(), ProtocolError>)
    ensures
        pkt@.1.len() <= u32::MAX ==> r is Ok && final(w)@ == old(w)@ + frame(pkt@.0, pkt@.1),
        pkt@.1.len() > u32::MAX ==> r == Err::<(), ProtocolError>(ProtocolError::SizeOutOfRange)
            && final(w)@ == old(w)@,
{
    match pkt {
        Packet::TOpenRepository(b) => write_frame(w, PACKET_KIND_T_OPEN_REPOSITORY, b.as_slice()),
        Packet::ROpenRepository(b) => write_frame(w, PACKET_KIND_R_OPEN_REPOSITORY, b.as_slice()),
        Packet::TInitRepository(b) => write_frame(w, PACKET_KIND_T_INIT_REPOSITORY, b.as_slice()),
        Packet::RInitRepository => {
            send_hdr(w, PACKET_KIND_R_INIT_REPOSITORY, 0);
            assert(w@ =~= old(w)@ + frame(PACKET_KIND_R_INIT_REPOSITORY, Seq::empty()));
            Ok(())
        },
        Packet::TBeginSend(b) => write_frame(w, PACKET_KIND_T_BEGIN_SEND, b.as_slice()),
        Packet::RBeginSend(b) => write_frame(w, PACKET_KIND_R_BEGIN_SEND, b.as_slice()),
        Packet::Chunk(c) => write_chunk(w, &c.address, c.data.as_slice()),
        Packet::TSendSync => {
            send_hdr(w, PACKET_KIND_T_SEND_SYNC, 0);
            assert(w@ =~= old(w)@ + frame(PACKET_KIND_T_SEND_SYNC, Seq::empty()));
            Ok(())
        },
        Packet::RSendSync => {
            send_hdr(w, PACKET_KIND_R_SEND_SYNC, 0);
            assert(w@ =~= old(w)@ + frame(PACKET_KIND_R_SEND_SYNC, Seq::empty()));
            Ok(())
        },
        Packet::TAddItem(b) => write_frame(w, PACKET_KIND_T_ADD_ITEM, b.as_slice()),
        Packet::RAddItem(b) => write_frame(w, PACKET_KIND_R_ADD_ITEM, b.as_slice()),
        Packet::TRmItems(b) => write_frame(w, PACKET_KIND_T_RM_ITEMS, b.as_slice()),
        Packet::RRmItems => {
            send_hdr(w, PACKET_KIND_R_RM_ITEMS, 0);
            assert(w@ =~= old(w)@ + frame(PACKET_KIND_R_RM_ITEMS, Seq::empty()));
            Ok(())
        },
        Packet::TRequestMetadata(b) => write_frame(w, PACKET_KIND_T_REQUEST_METADATA, b.as_slice()),
        Packet::RRequestMetadata(b) => write_frame(w, PACKET_KIND_R_REQUEST_METADATA, b.as_slice()),
        Packet::RequestData(b) => write_frame(w, PACKET_KIND_REQUEST_DATA, b.as_slice()),
        Packet::TGc(b) => write_frame(w, PACKET_KIND_T_GC, b.as_slice()),
        Packet::RGc(b) => write_frame(w, PACKET_KIND_R_GC, b.as_slice()),
        Packet::TRequestItemSync(b) => write_frame(w, PACKET_KIND_T_REQUEST_ITEM_SYNC, b.as_slice()),
        Packet::RRequestItemSync(b) => write_frame(w, PACKET_KIND_R_REQUEST_ITEM_SYNC, b.as_slice()),
        Packet::SyncLogOps(b) => write_frame(w, PACKET_KIND_SYNC_LOG_OPS, b.as_slice()),
        Packet::TRequestChunkData(b) => write_frame(w, PACKET_KIND_T_REQUEST_CHUNK_DATA, b.as_slice()),
        Packet::RRequestChunkData(b) => write_frame(w, PACKET_KIND_R_REQUEST_CHUNK_DATA, b.as_slice()),
        Packet::Progress(b) => write_frame(w, PACKET_KIND_PROGRESS, b.as_slice()),
        Packet::Abort(b) => write_frame(w, PACKET_KIND_ABORT, b.as_slice()),
        Packet::TRestoreRemoved => {
            send_hdr(w, PACKET_KIND_T_RESTORE_REMOVED, 0);
            assert(w@ =~= old(w)@ + frame(PACKET_KIND_T_RESTORE_REMOVED, Seq::empty()));
            Ok(())
        },
        Packet::RRestoreRemoved(b) => write_frame(w, PACKET_KIND_R_RESTORE_REMOVED, b.as_slice()),
        Packet::RequestIndex(b) => write_frame(w, PACKET_KIND_REQUEST_INDEX, b.as_slice()),
        Packet::TStorageWriteBarrier => {
            send_hdr(w, PACKET_KIND_T_STORAGE_WRITE_BARRIER, 0);
            assert(w@ =~= old(w)@ + frame(PACKET_KIND_T_STORAGE_WRITE_BARRIER, Seq::empty()));
            Ok(())
        },
        Packet::RStorageWriteBarrier => {
            send_hdr(w, PACKET_KIND_R_STORAGE_WRITE_BARRIER, 0);
            assert(w@ =~= old(w)@ + frame(PACKET_KIND_R_STORAGE_WRITE_BARRIER, Seq::empty()));
            Ok(())
        },
        Packet::StorageConnect(b) => write_frame(w, PACKET_KIND_STORAGE_CONNECT, b.as_slice()),
        Packet::TStoragePrepareForGC(b) => write_frame(w, PACKET_KIND_T_STORAGE_PREPARE_FOR_GC, b.as_slice()),
        Packet::RStoragePrepareForGC => {
            send_hdr(w, PACKET_KIND_R_STORAGE_PREPARE_FOR_GC, 0);
            assert(w@ =~= old(w)@ + frame(PACKET_KIND_R_STORAGE_PREPARE_FOR_GC, Seq::empty()));
            Ok(())
        },
        Packet::StorageBeginGC(b) => write_frame(w, PACKET_KIND_STORAGE_BEGIN_GC, b.as_slice()),
        Packet::StorageGCComplete(b) => write_frame(w, PACKET_KIND_STORAGE_GC_COMPLETE, b.as_slice()),
        Packet::TStorageAwaitGCCompletion(b) => write_frame(w, PACKET_KIND_T_STORAGE_AWAIT_GC_COMPLETION, b.as_slice()),
        Packet::RStorageAwaitGCCompletion => {
            send_hdr(w, PACKET_KIND_R_STORAGE_AWAIT_GC_COMPLETION, 0);
            assert(w@ =~= old(w)@ + frame(PACKET_KIND_R_STORAGE_AWAIT_GC_COMPLETION, Seq::empty()));
            Ok(())
        },
        Packet::EndOfTransmission => {
            send_hdr(w, PACKET_KIND_END_OF_TRANSMISSION, 0);
            assert(w@ =~= old(w)@ + frame(PACKET_KIND_END_OF_TRANSMISSION, Seq::empty()));
            Ok(())
        },
    }
}

} // verus!
