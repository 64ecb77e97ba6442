//! UDX: reliable, multiplexed and congestion-controlled streams over UDP.
//!
//! This crate holds the protocol's data structures and rules with their
//! contracts: the sequence-indexed circular buffer, the packet queue, the
//! packet header format, the cubic congestion controller, stream setup and
//! socket bookkeeping.
pub mod cirbuf;
pub mod clock;
pub mod congestion;
pub mod constants;
pub mod error;
pub mod packet;
pub mod queue;
pub mod socket;
pub mod stream;

pub use error::UdxError;
pub use stream::{Stream, UdxStream};

use constants::HEADER_SIZE;
use packet::{header_from_bytes, PacketHeader};
use vstd::prelude::*;

verus! {

/// Magic byte of the UDX wire protocol (`'u'`).
pub const UDX_MAGIC_BYTE: u8 = 0x75;
/// Version of the UDX wire protocol.
pub const UDX_VERSION: u8 = 0x01;

/// Stream state bit: ended.
pub const UDX_STREAM_ENDED: u32 = 0b000100000;
/// Stream state bit: the remote side has ended.
pub const UDX_STREAM_ENDED_REMOTE: u32 = 0b001000000;
/// Stream state bit: being destroyed.
pub const UDX_STREAM_DESTROYING: u32 = 0b010000000;
/// Stream state bit: closed.
pub const UDX_STREAM_CLOSED: u32 = 0b100000000;
/// Both sides have ended.
pub const UDX_STREAM_ALL_ENDED: u32 = UDX_STREAM_ENDED | UDX_STREAM_ENDED_REMOTE;
/// The stream is being destroyed or closed.
pub const UDX_STREAM_DEAD: u32 = UDX_STREAM_DESTROYING | UDX_STREAM_CLOSED;

/// Packet type flag: carries data.
pub const UDX_HEADER_DATA: u8 = 0x01;
/// Packet type flag: ends the stream.
pub const UDX_HEADER_END: u8 = 0x02;
/// Packet type flag: carries selective acknowledgements.
pub const UDX_HEADER_SACK: u8 = 0x04;
/// Packet type flag: destroys the stream.
pub const UDX_HEADER_DESTROY: u8 = 0x08;
/// Packet type flag: carries a message.
pub const UDX_HEADER_MESSAGE: u8 = 0x10;

/// Default IP time-to-live.
pub const UDX_DEFAULT_TTL: u8 = 64;
/// Default socket buffer size in bytes.
pub const UDX_DEFAULT_BUFFER_SIZE: usize = 212992;
/// Retransmission timeouts after which a stream gives up.
pub const UDX_MAX_RTO_TIMEOUTS: u32 = 6;

/// Cubic constant C = 0.4, as its inverse scaled by 1000.
pub const UDX_CONG_C: u32 = 400;
/// Scale of the cubic term: (ms per s)^3 times the scale of `UDX_CONG_C`.
pub const UDX_CONG_C_SCALE: u64 = 1_000_000_000_000;
/// Multiplicative decrease factor 1 - 0.3, scaled by 1024.
pub const UDX_CONG_BETA: u32 = 731;
/// Unit of `UDX_CONG_BETA`.
pub const UDX_CONG_BETA_UNIT: u32 = 1024;
/// Congestion window of a new stream, in packets.
pub const UDX_CONG_INIT_CWND: u32 = 10;
/// Largest congestion window, in packets.
pub const UDX_CONG_MAX_CWND: u32 = 65536;

/// Data written to a stream and not yet fully acknowledged.
#[derive(Debug)]
pub struct WriteBuffer {
    data: Vec<u8>,
    offset: usize,
    acked: usize,
}

/// Reads the header at the start of `packet`; a packet shorter than a
/// header is invalid.
pub fn parse_header(packet: &[u8]) -> (r: Result<PacketHeader, UdxError>)
    ensures
        packet@.len() < HEADER_SIZE ==> r matches Err(UdxError::InvalidPacket),
        packet@.len() >= HEADER_SIZE ==> (r matches Ok(h) && h == header_from_bytes(packet@)),
{
    if packet.len() < HEADER_SIZE {
        return Err(UdxError::InvalidPacket);
    }
    Ok(PacketHeader::from_bytes(packet))
}

} // verus!
