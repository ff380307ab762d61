//! Wire format of the bupstash client/server protocol: packet framing,
//! packet kinds, and the reading and writing of whole packets over a byte
//! stream.

pub mod error;
pub mod header;
pub mod kinds;
pub mod laws;
pub mod messages;
pub mod packet;
pub mod read;
pub mod write;

pub use error::ProtocolError;
pub use kinds::DEFAULT_MAX_PACKET_SIZE;
pub use messages::{
    Abort, LockHint, Progress, RBeginSend, ROpenRepository, RRequestItemSync, RRestoreRemoved, RequestIndex,
    StorageBeginGC, StorageConnect, TBeginSend, TGc, TOpenRepository, TRequestItemSync,
    TRequestMetadata, Xid,
};
pub use packet::{Address, Chunk, Packet, ADDRESS_SZ};
pub use read::{check_abort, check_header, decode_packet, read_from_remote, read_packet, read_packet_raw};
pub use write::{send_hdr, write_chunk, write_frame, write_packet, write_to_remote};
