//! What holds across reading and writing.
use vstd::prelude::*;
use crate::header::{header_bytes, lemma_header_roundtrip, HEADER_SZ};
use crate::kinds::{is_empty_kind, is_known_kind, PACKET_KIND_CHUNK};
use crate::packet::{Chunk, Packet, ADDRESS_SZ};
use crate::error::ProtocolError;
use crate::read::spec_read_packet_raw;
use crate::write::frame;

verus! {

/// Whether `p` and `q` are the same variant with the same contents.
pub open spec fn same_packet(p: Packet, q: Packet) -> bool {
    match (p, q) {
        (Packet::TOpenRepository(a), Packet::TOpenRepository(b)) => a@ == b@,
        (Packet::ROpenRepository(a), Packet::ROpenRepository(b)) => a@ == b@,
        (Packet::TInitRepository(a), Packet::TInitRepository(b)) => a@ == b@,
        (Packet::RInitRepository, Packet::RInitRepository) => true,
        (Packet::TBeginSend(a), Packet::TBeginSend(b)) => a@ == b@,
        (Packet::RBeginSend(a), Packet::RBeginSend(b)) => a@ == b@,
        (Packet::Chunk(a), Packet::Chunk(b)) => a.address.bytes@ == b.address.bytes@ && a.data@ == b.data@,
        (Packet::TSendSync, Packet::TSendSync) => true,
        (Packet::RSendSync, Packet::RSendSync) => true,
        (Packet::TAddItem(a), Packet::TAddItem(b)) => a@ == b@,
        (Packet::RAddItem(a), Packet::RAddItem(b)) => a@ == b@,
        (Packet::TRmItems(a), Packet::TRmItems(b)) => a@ == b@,
        (Packet::RRmItems, Packet::RRmItems) => true,
        (Packet::TRequestMetadata(a), Packet::TRequestMetadata(b)) => a@ == b@,
        (Packet::RRequestMetadata(a), Packet::RRequestMetadata(b)) => a@ == b@,
        (Packet::RequestData(a), Packet::RequestData(b)) => a@ == b@,
        (Packet::TGc(a), Packet::TGc(b)) => a@ == b@,
        (Packet::RGc(a), Packet::RGc(b)) => a@ == b@,
        (Packet::TRequestItemSync(a), Packet::TRequestItemSync(b)) => a@ == b@,
        (Packet::RRequestItemSync(a), Packet::RRequestItemSync(b)) => a@ == b@,
        (Packet::SyncLogOps(a), Packet::SyncLogOps(b)) => a@ == b@,
        (Packet::TRequestChunkData(a), Packet::TRequestChunkData(b)) => a@ == b@,
        (Packet::RRequestChunkData(a), Packet::RRequestChunkData(b)) => a@ == b@,
        (Packet::Progress(a), Packet::Progress(b)) => a@ == b@,
        (Packet::Abort(a), Packet::Abort(b)) => a@ == b@,
        (Packet::TRestoreRemoved, Packet::TRestoreRemoved) => true,
        (Packet::RRestoreRemoved(a), Packet::RRestoreRemoved(b)) => a@ == b@,
        (Packet::RequestIndex(a), Packet::RequestIndex(b)) => a@ == b@,
        (Packet::TStorageWriteBarrier, Packet::TStorageWriteBarrier) => true,
        (Packet::RStorageWriteBarrier, Packet::RStorageWriteBarrier) => true,
        (Packet::StorageConnect(a), Packet::StorageConnect(b)) => a@ == b@,
        (Packet::TStoragePrepareForGC(a), Packet::TStoragePrepareForGC(b)) => a@ == b@,
        (Packet::RStoragePrepareForGC, Packet::RStoragePrepareForGC) => true,
        (Packet::StorageBeginGC(a), Packet::StorageBeginGC(b)) => a@ == b@,
        (Packet::StorageGCComplete(a), Packet::StorageGCComplete(b)) => a@ == b@,
        (Packet::TStorageAwaitGCCompletion(a), Packet::TStorageAwaitGCCompletion(b)) => a@ == b@,
        (Packet::RStorageAwaitGCCompletion, Packet::RStorageAwaitGCCompletion) => true,
        (Packet::EndOfTransmission, Packet::EndOfTransmission) => true,
        _ => false,
    }
}

/// Every packet has a kind that readers know; a packet of a kind that
/// carries nothing has an empty body; a chunk's body holds its address.
pub proof fn lemma_packet_well_formed(p: Packet)
    ensures
        is_known_kind(p@.0),
        is_empty_kind(p@.0) ==> p@.1 == Seq::<u8>::empty(),
        p@.0 == PACKET_KIND_CHUNK ==> p@.1.len() >= ADDRESS_SZ,
{
}

/// A packet is determined by its kind and its body: two packets with the
/// same kind and body are the same variant with the same contents.
pub proof fn law_kind_and_body_determine_packet(p: Packet, q: Packet)
    ensures
        p@ == q@ <==> same_packet(p, q),
{
    if let Packet::Chunk(a) = p {
        if let Packet::Chunk(b) = q {
            if p@ == q@ {
                assert(a.address.bytes@ =~= (a.address.bytes@ + a.data@).take(ADDRESS_SZ as int));
                assert(b.address.bytes@ =~= (b.address.bytes@ + b.data@).take(ADDRESS_SZ as int));
                assert(a.data@ =~= (a.address.bytes@ + a.data@).skip(ADDRESS_SZ as int));
                assert(b.data@ =~= (b.address.bytes@ + b.data@).skip(ADDRESS_SZ as int));
            }
        }
    }
}

/// Reading what a write of the packet `p` put at the front of a stream gives
/// `p` back and takes exactly the bytes written, whatever follows them,
/// where the reader accepts a body of that size; otherwise the reader
/// refuses the packet as too large.
pub proof fn law_read_after_write(p: Packet, rest: Seq<u8>, max_packet_size: nat)
    requires
        p@.1.len() <= u32::MAX,
    ensures
        p@.1.len() <= max_packet_size ==> spec_read_packet_raw(
            frame(p@.0, p@.1) + rest,
            max_packet_size,
        ) == Ok::<((u8, Seq<u8>), nat), ProtocolError>((p@, frame(p@.0, p@.1).len())),
        p@.1.len() > max_packet_size ==> spec_read_packet_raw(
            frame(p@.0, p@.1) + rest,
            max_packet_size,
        ) == Err::<((u8, Seq<u8>), nat), ProtocolError>(ProtocolError::PacketTooLarge),
{
    lemma_packet_well_formed(p);
    let (kind, body) = p@;
    let sz = body.len() as u32;
    lemma_header_roundtrip(kind, sz);
    let input = frame(kind, body) + rest;
    let hdr = header_bytes(kind, sz);
    assert(input.take(HEADER_SZ as int) =~= hdr);
    assert(input.subrange(HEADER_SZ as int, HEADER_SZ + body.len()) =~= body);
}

/// Reading is not disturbed by what follows a packet: where a packet can be
/// read from the front of `input`, it is read the same from the front of
/// `input` followed by anything.
pub proof fn law_read_ignores_what_follows(input: Seq<u8>, rest: Seq<u8>, max_packet_size: nat)
    requires
        spec_read_packet_raw(input, max_packet_size) is Ok,
    ensures
        spec_read_packet_raw(input + rest, max_packet_size) == spec_read_packet_raw(
            input,
            max_packet_size,
        ),
{
    let whole = input + rest;
    assert(whole.take(HEADER_SZ as int) =~= input.take(HEADER_SZ as int));
    let hdr = input.take(HEADER_SZ as int);
    let sz = crate::header::header_size(hdr);
    assert(whole.subrange(HEADER_SZ as int, HEADER_SZ + sz) =~= input.subrange(
        HEADER_SZ as int,
        HEADER_SZ + sz,
    ));
}

/// `write_chunk` writes the chunk packet of its address and data: its kind
/// and body are those of `Packet::Chunk` of that chunk.
pub proof fn law_chunk_packet_view(c: Chunk)
    ensures
        Packet::Chunk(c)@ == (PACKET_KIND_CHUNK, c.address.bytes@ + c.data@),
{
}

/// Each packet travels under its own number from the protocol's table of
/// kinds, whatever it carries: a repository open request under 0, its answer
/// under 1, and so on to the end of transmission under 255. Writing a packet
/// puts this number in the header's last byte, and reading a header with this
/// number gives back a packet of this variant.
pub proof fn law_packet_kind_numbers(b: Vec<u8>, c: Chunk)
    ensures
        Packet::TOpenRepository(b)@.0 == 0u8,
        Packet::ROpenRepository(b)@.0 == 1u8,
        Packet::TInitRepository(b)@.0 == 2u8,
        Packet::RInitRepository@.0 == 3u8,
        Packet::TBeginSend(b)@.0 == 4u8,
        Packet::RBeginSend(b)@.0 == 5u8,
        Packet::Chunk(c)@.0 == 8u8,
        Packet::TSendSync@.0 == 6u8,
        Packet::RSendSync@.0 == 7u8,
        Packet::TAddItem(b)@.0 == 9u8,
        Packet::RAddItem(b)@.0 == 10u8,
        Packet::TRmItems(b)@.0 == 11u8,
        Packet::RRmItems@.0 == 12u8,
        Packet::TRequestMetadata(b)@.0 == 28u8,
        Packet::RRequestMetadata(b)@.0 == 29u8,
        Packet::RequestData(b)@.0 == 13u8,
        Packet::TGc(b)@.0 == 15u8,
        Packet::RGc(b)@.0 == 16u8,
        Packet::TRequestItemSync(b)@.0 == 17u8,
        Packet::RRequestItemSync(b)@.0 == 18u8,
        Packet::SyncLogOps(b)@.0 == 19u8,
        Packet::TRequestChunkData(b)@.0 == 20u8,
        Packet::RRequestChunkData(b)@.0 == 21u8,
        Packet::Progress(b)@.0 == 22u8,
        Packet::Abort(b)@.0 == 23u8,
        Packet::TRestoreRemoved@.0 == 24u8,
        Packet::RRestoreRemoved(b)@.0 == 25u8,
        Packet::RequestIndex(b)@.0 == 26u8,
        Packet::TStorageWriteBarrier@.0 == 100u8,
        Packet::RStorageWriteBarrier@.0 == 101u8,
        Packet::StorageConnect(b)@.0 == 102u8,
        Packet::TStoragePrepareForGC(b)@.0 == 103u8,
        Packet::RStoragePrepareForGC@.0 == 104u8,
        Packet::StorageBeginGC(b)@.0 == 105u8,
        Packet::StorageGCComplete(b)@.0 == 107u8,
        Packet::TStorageAwaitGCCompletion(b)@.0 == 108u8,
        Packet::RStorageAwaitGCCompletion@.0 == 109u8,
        Packet::EndOfTransmission@.0 == 255u8,
{
}

/// The byte that follows the size in a written packet's header is the
/// packet's kind, and the body follows the header unchanged.
pub proof fn law_frame_layout(p: Packet)
    requires
        p@.1.len() <= u32::MAX,
    ensures
        frame(p@.0, p@.1).len() == HEADER_SZ + p@.1.len(),
        frame(p@.0, p@.1)[4] == p@.0,
        frame(p@.0, p@.1).skip(HEADER_SZ as int) == p@.1,
        crate::header::header_size(frame(p@.0, p@.1)) == p@.1.len(),
{
    lemma_header_roundtrip(p@.0, p@.1.len() as u32);
    assert(frame(p@.0, p@.1).skip(HEADER_SZ as int) =~= p@.1);
    assert(frame(p@.0, p@.1).take(4) =~= header_bytes(p@.0, p@.1.len() as u32).take(4));
}

} // verus!
