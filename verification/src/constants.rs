//! Protocol-wide constants: header sizes, MTU probing bounds, congestion-control
//! tuning and the stream state bits.
use vstd::prelude::*;

verus! {

/// Size in bytes of the fixed packet header.
pub const HEADER_SIZE: usize = 20;
/// Header overhead of a packet sent over IPv4 (IP + UDP + protocol header).
pub const IPV4_HEADER_SIZE: usize = 20 + 8 + HEADER_SIZE;
/// Header overhead of a packet sent over IPv6 (IP + UDP + protocol header).
pub const IPV6_HEADER_SIZE: usize = 40 + 8 + HEADER_SIZE;

/// MTU every path is assumed to support.
pub const MTU_BASE: u16 = 1200;
/// Number of probes sent for one MTU size before giving up on it.
pub const MTU_MAX_PROBES: u8 = 3;
/// Largest MTU that probing tries.
pub const MTU_MAX: u16 = 1500;
/// Increment between successive MTU probes.
pub const MTU_STEP: u16 = 32;

/// First byte of every packet built by `Packet::new`.
pub const MAGIC_BYTE: u8 = 0xFF;
/// Protocol version written by `Packet::new`.
pub const VERSION: u8 = 1;

/// Default IP time-to-live of a socket.
pub const DEFAULT_TTL: u8 = 64;
/// Default socket buffer size in bytes.
pub const DEFAULT_BUFFER_SIZE: usize = 212992;

/// Cubic constant C = 0.4, as its inverse scaled by 1000.
pub const CONG_C: u32 = 400;
/// Scale of the cubic term: (ms per s)^3 times the scale of `CONG_C`.
pub const CONG_C_SCALE: u64 = 1_000_000_000_000;
/// Multiplicative decrease factor 1 - 0.3, scaled by 1024.
pub const CONG_BETA: u32 = 731;
/// Unit of `CONG_BETA`.
pub const CONG_BETA_UNIT: u32 = 1024;
/// Congestion window of a new stream, in packets.
pub const CONG_INIT_CWND: u32 = 10;
/// Largest congestion window, in packets.
pub const CONG_MAX_CWND: u32 = 65536;

/// Stream state bit: connected.
pub const STREAM_CONNECTED: u32 = 0b000000001;
/// Stream state bit: receiving.
pub const STREAM_RECEIVING: u32 = 0b000000010;
/// Stream state bit: reading.
pub const STREAM_READING: u32 = 0b000000100;
/// Stream state bit: ending.
pub const STREAM_ENDING: u32 = 0b000001000;
/// Stream state bit: the remote side is ending.
pub const STREAM_ENDING_REMOTE: u32 = 0b000010000;
/// Stream state bit: ended.
pub const STREAM_ENDED: u32 = 0b000100000;
/// Stream state bit: the remote side has ended.
pub const STREAM_ENDED_REMOTE: u32 = 0b001000000;
/// Stream state bit: being destroyed.
pub const STREAM_DESTROYING: u32 = 0b010000000;
/// Stream state bit: closed.
pub const STREAM_CLOSED: u32 = 0b100000000;

} // verus!
