use bupstash_protocol::header::{decode_header, encode_header};
use bupstash_protocol::{
    check_abort, read_packet, read_packet_raw, write_chunk, write_packet, Address, Chunk, Packet,
    ProtocolError, DEFAULT_MAX_PACKET_SIZE,
};

fn written(p: &Packet) -> Vec<u8> {
    let mut w = Vec::new();
    write_packet(&mut w, p).unwrap();
    w
}

fn every_packet() -> Vec<Packet> {
    let b = |n: u8| vec![n, n.wrapping_add(1), n.wrapping_add(2)];
    vec![
        Packet::TOpenRepository(b(1)),
        Packet::ROpenRepository(b(2)),
        Packet::TInitRepository(b(3)),
        Packet::RInitRepository,
        Packet::TBeginSend(b(4)),
        Packet::RBeginSend(b(5)),
        Packet::Chunk(Chunk { address: Address { bytes: [9; 32] }, data: b(6) }),
        Packet::TSendSync,
        Packet::RSendSync,
        Packet::TAddItem(b(7)),
        Packet::RAddItem(b(8)),
        Packet::TRmItems(b(9)),
        Packet::RRmItems,
        Packet::TRequestMetadata(b(10)),
        Packet::RRequestMetadata(b(11)),
        Packet::RequestData(b(12)),
        Packet::TGc(vec![]),
        Packet::RGc(b(13)),
        Packet::TRequestItemSync(b(14)),
        Packet::RRequestItemSync(b(15)),
        Packet::SyncLogOps(b(16)),
        Packet::TRequestChunkData(vec![3; 32]),
        Packet::RRequestChunkData(b(17)),
        Packet::Progress(b(18)),
        Packet::Abort(b(19)),
        Packet::TRestoreRemoved,
        Packet::RRestoreRemoved(b(20)),
        Packet::RequestIndex(b(21)),
        Packet::TStorageWriteBarrier,
        Packet::RStorageWriteBarrier,
        Packet::StorageConnect(b(22)),
        Packet::TStoragePrepareForGC(b(23)),
        Packet::RStoragePrepareForGC,
        Packet::StorageBeginGC(b(24)),
        Packet::StorageGCComplete(b(25)),
        Packet::TStorageAwaitGCCompletion(b(26)),
        Packet::RStorageAwaitGCCompletion,
        Packet::EndOfTransmission,
    ]
}

#[test]
fn header_is_little_endian_size_then_kind() {
    assert_eq!(encode_header(10, 0x0102_0304), [4, 3, 2, 1, 10]);
    assert_eq!(decode_header(&[4, 3, 2, 1, 10]), (0x0102_0304, 10));
    assert_eq!(decode_header(&[0xff, 0xff, 0xff, 0xff, 255]), (0xffff_ffff, 255));
}

#[test]
fn empty_packets_have_empty_bodies() {
    assert_eq!(written(&Packet::EndOfTransmission), vec![0, 0, 0, 0, 255]);
    assert_eq!(written(&Packet::RInitRepository), vec![0, 0, 0, 0, 3]);
    assert_eq!(written(&Packet::TStorageWriteBarrier), vec![0, 0, 0, 0, 100]);
}

#[test]
fn message_packet_is_header_then_payload() {
    let p = Packet::RAddItem(vec![7; 16]);
    let mut expect = vec![16, 0, 0, 0, 10];
    expect.extend_from_slice(&[7; 16]);
    assert_eq!(written(&p), expect);
}

#[test]
fn chunk_packet_is_address_then_data() {
    let p = Packet::Chunk(Chunk { address: Address { bytes: [1; 32] }, data: vec![5, 6] });
    let mut expect = vec![34, 0, 0, 0, 8];
    expect.extend_from_slice(&[1; 32]);
    expect.extend_from_slice(&[5, 6]);
    assert_eq!(written(&p), expect);
}

#[test]
fn write_chunk_writes_the_chunk_packet() {
    let address = Address { bytes: [42; 32] };
    let data = vec![1, 2, 3, 4];
    let mut w = vec![0xaa];
    write_chunk(&mut w, &address, &data).unwrap();
    let mut expect = vec![0xaa];
    expect.extend(written(&Packet::Chunk(Chunk { address, data })));
    assert_eq!(w, expect);
}

#[test]
fn writes_append_to_the_stream() {
    let mut w = vec![1, 2];
    write_packet(&mut w, &Packet::TSendSync).unwrap();
    assert_eq!(w, vec![1, 2, 0, 0, 0, 0, 6]);
}

#[test]
fn every_packet_reads_back_as_written() {
    for p in every_packet() {
        let mut w = written(&p);
        let n = w.len();
        w.extend_from_slice(&[0xde, 0xad]);
        let (q, m) = read_packet_raw(&w, DEFAULT_MAX_PACKET_SIZE).unwrap();
        assert_eq!(q, p);
        assert_eq!(m, n);
    }
}

#[test]
fn packets_read_one_after_another() {
    let mut w = Vec::new();
    write_packet(&mut w, &Packet::Progress(vec![1, 2, 3])).unwrap();
    write_packet(&mut w, &Packet::EndOfTransmission).unwrap();
    let (p1, n1) = read_packet_raw(&w, 100).unwrap();
    assert_eq!(p1, Packet::Progress(vec![1, 2, 3]));
    let (p2, n2) = read_packet_raw(&w[n1..], 100).unwrap();
    assert_eq!(p2, Packet::EndOfTransmission);
    assert_eq!(n1 + n2, w.len());
}

#[test]
fn short_header_is_a_disconnect() {
    assert_eq!(read_packet_raw(&[1, 0, 0, 0], 100), Err(ProtocolError::RemoteDisconnected));
    assert_eq!(read_packet_raw(&[], 100), Err(ProtocolError::RemoteDisconnected));
}

#[test]
fn short_body_is_a_disconnect() {
    assert_eq!(read_packet_raw(&[3, 0, 0, 0, 10, 1, 2], 100), Err(ProtocolError::RemoteDisconnected));
    // The body is read before the kind is looked at.
    assert_eq!(read_packet_raw(&[3, 0, 0, 0, 14, 1], 100), Err(ProtocolError::RemoteDisconnected));
}

#[test]
fn too_large_packets_are_refused() {
    assert_eq!(read_packet_raw(&[101, 0, 0, 0, 10], 100), Err(ProtocolError::PacketTooLarge));
    // The size is checked before the chunk's size is.
    assert_eq!(read_packet_raw(&[10, 0, 0, 0, 8], 5), Err(ProtocolError::PacketTooLarge));
    let mut at_limit = vec![100, 0, 0, 0, 21];
    at_limit.extend_from_slice(&[0; 100]);
    assert_eq!(read_packet_raw(&at_limit, 100), Ok((Packet::RRequestChunkData(vec![0; 100]), 105)));
}

#[test]
fn default_max_packet_size_is_sixteen_mebibytes() {
    assert_eq!(DEFAULT_MAX_PACKET_SIZE, 16 * 1024 * 1024);
    let sz = DEFAULT_MAX_PACKET_SIZE + 1;
    let hdr = [(sz & 0xff) as u8, (sz >> 8) as u8, (sz >> 16) as u8, (sz >> 24) as u8, 21];
    assert_eq!(read_packet_raw(&hdr, DEFAULT_MAX_PACKET_SIZE), Err(ProtocolError::PacketTooLarge));
}

#[test]
fn chunk_smaller_than_address_is_refused() {
    let mut input = vec![31, 0, 0, 0, 8];
    input.extend_from_slice(&[0; 31]);
    assert_eq!(read_packet_raw(&input, 100), Err(ProtocolError::PacketSmallerThanAddress));
    let mut input = vec![32, 0, 0, 0, 8];
    input.extend_from_slice(&[4; 32]);
    assert_eq!(
        read_packet_raw(&input, 100),
        Ok((Packet::Chunk(Chunk { address: Address { bytes: [4; 32] }, data: vec![] }), 37))
    );
}

#[test]
fn unknown_kinds_are_refused() {
    for kind in [14u8, 27, 30, 99, 106, 110, 254] {
        assert_eq!(read_packet_raw(&[0, 0, 0, 0, kind], 100), Err(ProtocolError::UnknownPacketKind));
    }
}

#[test]
fn empty_kinds_drop_their_body() {
    assert_eq!(read_packet_raw(&[3, 0, 0, 0, 7, 1, 2, 3], 100), Ok((Packet::RSendSync, 8)));
}

#[test]
fn read_packet_turns_abort_into_error() {
    let w = written(&Packet::Abort(vec![4, 5]));
    assert_eq!(read_packet(&w, 100), Err(ProtocolError::RemoteError(vec![4, 5])));
    assert_eq!(read_packet_raw(&w, 100), Ok((Packet::Abort(vec![4, 5]), 7)));
}

#[test]
fn read_packet_passes_other_packets_and_errors() {
    let w = written(&Packet::TRmItems(vec![1]));
    assert_eq!(read_packet(&w, 100), Ok((Packet::TRmItems(vec![1]), 6)));
    assert_eq!(read_packet(&[0, 0, 0], 100), Err(ProtocolError::RemoteDisconnected));
}

#[test]
fn check_abort_keeps_other_packets() {
    assert_eq!(check_abort(Packet::TGc(vec![])), Ok(Packet::TGc(vec![])));
    assert_eq!(check_abort(Packet::Abort(vec![1])), Err(ProtocolError::RemoteError(vec![1])));
}
