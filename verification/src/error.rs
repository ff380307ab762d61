//! Why reading or writing a packet failed.
use vstd::prelude::*;

verus! {

/// Why reading or writing a packet failed.
#[derive(Debug, PartialEq, Eq)]
pub enum ProtocolError {
    /// The stream ended before the packet did.
    RemoteDisconnected,
    /// The header announced a body larger than the reader accepts.
    PacketTooLarge,
    /// The header announced a chunk whose body cannot even hold its address.
    PacketSmallerThanAddress,
    /// The header carried a kind that the protocol does not have.
    UnknownPacketKind,
    /// The body to be written does not fit the 32-bit size of a header.
    SizeOutOfRange,
    /// The remote sent an abort packet; this is its body, the serialized
    /// abort message.
    RemoteError(Vec<u8>),
}

} // verus!
