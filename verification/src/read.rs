//! Reading packets from the bytes a remote sends.
use vstd::prelude::*;
use crate::error::ProtocolError;
use crate::header::{decode_header, header_kind, header_size, HEADER_SZ};
use crate::packet::{Address, Chunk, Packet, ADDRESS_SZ};
use crate::kinds::{
    is_empty_kind,
    is_known_kind,
    PACKET_KIND_T_OPEN_REPOSITORY,
    PACKET_KIND_R_OPEN_REPOSITORY,
    PACKET_KIND_T_INIT_REPOSITORY,
    PACKET_KIND_R_INIT_REPOSITORY,
    PACKET_KIND_T_BEGIN_SEND,
    PACKET_KIND_R_BEGIN_SEND,
    PACKET_KIND_CHUNK,
    PACKET_KIND_T_SEND_SYNC,
    PACKET_KIND_R_SEND_SYNC,
    PACKET_KIND_T_ADD_ITEM,
    PACKET_KIND_R_ADD_ITEM,
    PACKET_KIND_T_RM_ITEMS,
    PACKET_KIND_R_RM_ITEMS,
    PACKET_KIND_T_REQUEST_METADATA,
    PACKET_KIND_R_REQUEST_METADATA,
    PACKET_KIND_REQUEST_DATA,
    PACKET_KIND_T_GC,
    PACKET_KIND_R_GC,
    PACKET_KIND_T_REQUEST_ITEM_SYNC,
    PACKET_KIND_R_REQUEST_ITEM_SYNC,
    PACKET_KIND_SYNC_LOG_OPS,
    PACKET_KIND_T_REQUEST_CHUNK_DATA,
    PACKET_KIND_R_REQUEST_CHUNK_DATA,
    PACKET_KIND_PROGRESS,
    PACKET_KIND_ABORT,
    PACKET_KIND_T_RESTORE_REMOVED,
    PACKET_KIND_R_RESTORE_REMOVED,
    PACKET_KIND_REQUEST_INDEX,
    PACKET_KIND_T_STORAGE_WRITE_BARRIER,
    PACKET_KIND_R_STORAGE_WRITE_BARRIER,
    PACKET_KIND_STORAGE_CONNECT,
    PACKET_KIND_T_STORAGE_PREPARE_FOR_GC,
    PACKET_KIND_R_STORAGE_PREPARE_FOR_GC,
    PACKET_KIND_STORAGE_BEGIN_GC,
    PACKET_KIND_STORAGE_GC_COMPLETE,
    PACKET_KIND_T_STORAGE_AWAIT_GC_COMPLETION,
    PACKET_KIND_R_STORAGE_AWAIT_GC_COMPLETION,
    PACKET_KIND_END_OF_TRANSMISSION,
};

verus! {

/// What a reader concludes from a packet header, given the largest body it
/// accepts: the body size and the kind, or why it stops there.
pub open spec fn spec_check_header(hdr: Seq<u8>, max_packet_size: nat) -> Result<(nat, u8), ProtocolError> {
    let sz = header_size(hdr);
    let kind = header_kind(hdr);
    if sz > max_packet_size {
        Err(ProtocolError::PacketTooLarge)
    } else if kind == PACKET_KIND_CHUNK && sz < ADDRESS_SZ {
        Err(ProtocolError::PacketSmallerThanAddress)
    } else {
        Ok((sz, kind))
    }
}

/// The packet, as its kind and body, that a body of kind `kind` stands for,
/// or why there is none. A packet kind that carries nothing drops its body.
pub open spec fn spec_decode_packet(kind: u8, body: Seq<u8>) -> Result<(u8, Seq<u8>), ProtocolError> {
    if kind == PACKET_KIND_CHUNK && body.len() < ADDRESS_SZ {
        Err(ProtocolError::PacketSmallerThanAddress)
    } else if !is_known_kind(kind) {
        Err(ProtocolError::UnknownPacketKind)
    } else if is_empty_kind(kind) {
        Ok((kind, Seq::empty()))
    } else {
        Ok((kind, body))
    }
}

/// Reading one packet from the start of `input`: the packet, as its kind and
/// body, and the number of bytes it took; or why it failed.
pub open spec fn spec_read_packet_raw(input: Seq<u8>, max_packet_size: nat) -> Result<((u8, Seq<u8>), nat), ProtocolError> {
    if input.len() < HEADER_SZ {
        Err(ProtocolError::RemoteDisconnected)
    } else {
        match spec_check_header(input.take(HEADER_SZ as int), max_packet_size) {
            Err(e) => Err(e),
            Ok((sz, kind)) => if input.len() < HEADER_SZ + sz {
                Err(ProtocolError::RemoteDisconnected)
            } else {
                match spec_decode_packet(kind, input.subrange(HEADER_SZ as int, HEADER_SZ + sz)) {
                    Ok(p) => Ok((p, (HEADER_SZ + sz) as nat)),
                    Err(e) => Err(e),
                }
            },
        }
    }
}

/// The `n` bytes of `input` that start at `pos`, or `RemoteDisconnected`
/// where `input` ends before them.
pub fn read_from_remote(input: &[u8], pos: usize, n: usize) -> (r: Result<Vec<u8>, ProtocolError>)
    ensures
        pos + n <= input@.len() ==> r is Ok && r->Ok_0@ == input@.subrange(pos as int, pos + n),
        pos + n > input@.len() ==> r == Err::<Vec<u8>, ProtocolError>(
            ProtocolError::RemoteDisconnected,
        ),
{
    if pos > input.len() || n > input.len() - pos {
        return Err(ProtocolError::RemoteDisconnected);
    }
    let mut out: Vec<u8> = Vec::new();
    let mut i: usize = 0;
    while i < n
        invariant
            i <= n,
            pos + n <= input.len(),
            out@ == input@.subrange(pos as int, pos + i),
        decreases n - i,
    {
        out.push(input[pos + i]);
        i = i + 1;
        assert(out@ =~= input@.subrange(pos as int, pos + i));
    }
    Ok(out)
}

/// The body size and kind that the header `hdr` announces, where a reader
/// that accepts bodies of at most `max_packet_size` bytes goes on.
pub fn check_header(hdr: &[u8], max_packet_size: usize) -> (r: Result<(usize, u8), ProtocolError>)
    requires
        hdr@.len() >= HEADER_SZ,
    ensures
        match r {
            Ok((sz, kind)) => spec_check_header(hdr@, max_packet_size as nat) == Ok::<
                (nat, u8),
                ProtocolError,
            >((sz as nat, kind)),
            Err(e) => spec_check_header(hdr@, max_packet_size as nat) == Err::<
                (nat, u8),
                ProtocolError,
            >(e),
        },
{
    let (sz, kind) = decode_header(hdr);
    if sz > max_packet_size {
        return Err(ProtocolError::PacketTooLarge);
    }
    if kind == PACKET_KIND_CHUNK && sz < ADDRESS_SZ {
        return Err(ProtocolError::PacketSmallerThanAddress);
    }
    Ok((sz, kind))
}

/// The chunk whose address is the first `ADDRESS_SZ` bytes of `body` and
/// whose data is the rest.
fn split_chunk(body: &[u8]) -> (c: Chunk)
    requires
        body@.len() >= ADDRESS_SZ,
    ensures
        c.address.bytes@ == body@.take(ADDRESS_SZ as int),
        c.data@ == body@.skip(ADDRESS_SZ as int),
{
    let mut bytes: [u8; 32] = [0; 32];
    let mut i: usize = 0;
    while i < ADDRESS_SZ
        invariant
            i <= ADDRESS_SZ,
            body@.len() >= ADDRESS_SZ,
            bytes@.len() == ADDRESS_SZ,
            forall|j: int| 0 <= j < i ==> bytes@[j] == body@[j],
        decreases ADDRESS_SZ - i,
    {
        bytes[i] = body[i];
        i = i + 1;
    }
    assert(bytes@ =~= body@.take(ADDRESS_SZ as int));
    let mut data: Vec<u8> = Vec::new();
    let mut k: usize = ADDRESS_SZ;
    while k < body.len()
        invariant
            ADDRESS_SZ <= k <= body@.len(),
            data@ == body@.subrange(ADDRESS_SZ as int, k as int),
        decreases body@.len() - k,
    {
        data.push(body[k]);
        k = k + 1;
        assert(data@ =~= body@.subrange(ADDRESS_SZ as int, k as int));
    }
    assert(data@ =~= body@.skip(ADDRESS_SZ as int));
    Chunk { address: Address { bytes }, data }
}

/// The packet of kind `kind` whose body is `body`. The body of a message
/// kind is kept as it is, unchecked: whether it deserializes into the
/// message that the kind carries is for the caller to check.
pub fn decode_packet(kind: u8, body: Vec<u8>) -> (r: Result<Packet, ProtocolError>)
    ensures
        match r {
            Ok(p) => spec_decode_packet(kind, body@) == Ok::<(u8, Seq<u8>), ProtocolError>(p@),
            Err(e) => spec_decode_packet(kind, body@) == Err::<(u8, Seq<u8>), ProtocolError>(e),
        },
{
    if kind == PACKET_KIND_CHUNK {
        if body.len() < ADDRESS_SZ {
            return Err(ProtocolError::PacketSmallerThanAddress);
        }
        let c = split_chunk(body.as_slice());
        assert(c.address.bytes@ + c.data@ =~= body@);
        return Ok(Packet::Chunk(c));
    }
    let packet = match kind {
        PACKET_KIND_T_OPEN_REPOSITORY => Packet::TOpenRepository(body),
        PACKET_KIND_R_OPEN_REPOSITORY => Packet::ROpenRepository(body),
        PACKET_KIND_T_INIT_REPOSITORY => Packet::TInitRepository(body),
        PACKET_KIND_R_INIT_REPOSITORY => Packet::RInitRepository,
        PACKET_KIND_T_BEGIN_SEND => Packet::TBeginSend(body),
        PACKET_KIND_R_BEGIN_SEND => Packet::RBeginSend(body),
        PACKET_KIND_T_SEND_SYNC => Packet::TSendSync,
        PACKET_KIND_R_SEND_SYNC => Packet::RSendSync,
        PACKET_KIND_T_ADD_ITEM => Packet::TAddItem(body),
        PACKET_KIND_R_ADD_ITEM => Packet::RAddItem(body),
        PACKET_KIND_T_RM_ITEMS => Packet::TRmItems(body),
        PACKET_KIND_R_RM_ITEMS => Packet::RRmItems,
        PACKET_KIND_T_REQUEST_METADATA => Packet::TRequestMetadata(body),
        PACKET_KIND_R_REQUEST_METADATA => Packet::RRequestMetadata(body),
        PACKET_KIND_REQUEST_DATA => Packet::RequestData(body),
        PACKET_KIND_T_GC => Packet::TGc(body),
        PACKET_KIND_R_GC => Packet::RGc(body),
        PACKET_KIND_T_REQUEST_ITEM_SYNC => Packet::TRequestItemSync(body),
        PACKET_KIND_R_REQUEST_ITEM_SYNC => Packet::RRequestItemSync(body),
        PACKET_KIND_SYNC_LOG_OPS => Packet::SyncLogOps(body),
        PACKET_KIND_T_REQUEST_CHUNK_DATA => Packet::TRequestChunkData(body),
        PACKET_KIND_R_REQUEST_CHUNK_DATA => Packet::RRequestChunkData(body),
        PACKET_KIND_PROGRESS => Packet::Progress(body),
        PACKET_KIND_ABORT => Packet::Abort(body),
        PACKET_KIND_T_RESTORE_REMOVED => Packet::TRestoreRemoved,
        PACKET_KIND_R_RESTORE_REMOVED => Packet::RRestoreRemoved(body),
        PACKET_KIND_REQUEST_INDEX => Packet::RequestIndex(body),
        PACKET_KIND_T_STORAGE_WRITE_BARRIER => Packet::TStorageWriteBarrier,
        PACKET_KIND_R_STORAGE_WRITE_BARRIER => Packet::RStorageWriteBarrier,
        PACKET_KIND_STORAGE_CONNECT => Packet::StorageConnect(body),
        PACKET_KIND_T_STORAGE_PREPARE_FOR_GC => Packet::TStoragePrepareForGC(body),
        PACKET_KIND_R_STORAGE_PREPARE_FOR_GC => Packet::RStoragePrepareForGC,
        PACKET_KIND_STORAGE_BEGIN_GC => Packet::StorageBeginGC(body),
        PACKET_KIND_STORAGE_GC_COMPLETE => Packet::StorageGCComplete(body),
        PACKET_KIND_T_STORAGE_AWAIT_GC_COMPLETION => Packet::TStorageAwaitGCCompletion(body),
        PACKET_KIND_R_STORAGE_AWAIT_GC_COMPLETION => Packet::RStorageAwaitGCCompletion,
        PACKET_KIND_END_OF_TRANSMISSION => Packet::EndOfTransmission,
        _ => {
            return Err(ProtocolError::UnknownPacketKind);
        },
    };
    Ok(packet)
}

/// Reads one packet from the start of `input`, the bytes that the remote
/// sends, accepting bodies of at most `max_packet_size` bytes; gives the
/// packet and the number of bytes it took. A message body is kept in its
/// serialized form and is not checked to deserialize; that is for the
/// caller.
pub fn read_packet_raw(input: &[u8], max_packet_size: usize) -> (r: Result<(Packet, usize), ProtocolError>)
    ensures
        match r {
            Ok((p, n)) => spec_read_packet_raw(input@, max_packet_size as nat) == Ok::<
                ((u8, Seq<u8>), nat),
                ProtocolError,
            >((p@, n as nat)),
            Err(e) => spec_read_packet_raw(input@, max_packet_size as nat) == Err::<
                ((u8, Seq<u8>), nat),
                ProtocolError,
            >(e),
        },
{
    let hdr = read_from_remote(input, 0, HEADER_SZ)?;
    assert(hdr@ == input@.take(HEADER_SZ as int));
    let (sz, kind) = check_header(hdr.as_slice(), max_packet_size)?;
    let body = read_from_remote(input, HEADER_SZ, sz)?;
    assert(HEADER_SZ + sz <= input.len());
    let packet = decode_packet(kind, body)?;
    Ok((packet, HEADER_SZ + sz))
}

/// The packet `pkt` itself, or, where the remote sent an abort, the error
/// that carries the abort message's serialized form.
pub fn check_abort(pkt: Packet) -> (r: Result<Packet, ProtocolError>)
    ensures
        pkt@.0 == PACKET_KIND_ABORT ==> (r matches Err(ProtocolError::RemoteError(b)) && b@
            == pkt@.1),
        pkt@.0 != PACKET_KIND_ABORT ==> (r matches Ok(q) && q@ == pkt@),
{
    match pkt {
        Packet::Abort(b) => Err(ProtocolError::RemoteError(b)),
        other => Ok(other),
    }
}

/// Reads one packet as `read_packet_raw` does, and turns an abort sent by
/// the remote into an error that carries the abort message's serialized form,
/// which, like every message body, is not checked to deserialize.
pub fn read_packet(input: &[u8], max_packet_size: usize) -> (r: Result<(Packet, usize), ProtocolError>)
    ensures
        match spec_read_packet_raw(input@, max_packet_size as nat) {
            Ok((v, n)) => if v.0 == PACKET_KIND_ABORT {
                r matches Err(ProtocolError::RemoteError(b)) && b@ == v.1
            } else {
                r is Ok && r->Ok_0.0@ == v && r->Ok_0.1 == n
            },
            Err(e) => r == Err::<(Packet, usize), ProtocolError>(e),
        },
{
    let (pkt, n) = read_packet_raw(input, max_packet_size)?;
    let pkt = check_abort(pkt)?;
    Ok((pkt, n))
}

} // verus!
