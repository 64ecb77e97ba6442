//! The packet header, its wire format, and outgoing packets.
use crate::clock::instant_now;
use crate::constants::{HEADER_SIZE, MAGIC_BYTE, VERSION};
use std::time::Instant;
use vstd::prelude::*;

verus! {

/// The four bytes of `x`, least significant first.
pub open spec fn u32_le_bytes(x: u32) -> Seq<u8> {
    seq![
        (x % 256) as u8,
        (x / 256 % 256) as u8,
        (x / 65536 % 256) as u8,
        (x / 16777216) as u8,
    ]
}

/// The number whose bytes, least significant first, are `b[at..at + 4]`.
pub open spec fn u32_from_le(b: Seq<u8>, at: int) -> u32 {
    (b[at] + 256 * b[at + 1] + 65536 * b[at + 2] + 16777216 * b[at + 3]) as u32
}

/// The fixed packet header.
#[derive(Debug, Clone, Copy)]
pub struct PacketHeader {
    /// Protocol magic byte.
    pub magic: u8,
    /// Protocol version.
    pub version: u8,
    /// Packet type flags.
    pub type_: u8,
    /// Extension flags.
    pub extensions: u8,
    /// Stream id at the receiving side.
    pub remote_id: u32,
    /// Receive window of the sender.
    pub recv_window: u32,
    /// Sequence number.
    pub seq: u32,
    /// Acknowledged sequence number.
    pub ack: u32,
}

/// The header's `HEADER_SIZE` bytes on the wire: the four single-byte fields
/// in order, then the four 32-bit fields, each least significant byte first.
pub open spec fn header_bytes(h: PacketHeader) -> Seq<u8> {
    seq![h.magic, h.version, h.type_, h.extensions] + u32_le_bytes(h.remote_id) + u32_le_bytes(
        h.recv_window,
    ) + u32_le_bytes(h.seq) + u32_le_bytes(h.ack)
}

/// The header that the first `HEADER_SIZE` bytes of `b` encode.
pub open spec fn header_from_bytes(b: Seq<u8>) -> PacketHeader {
    PacketHeader {
        magic: b[0],
        version: b[1],
        type_: b[2],
        extensions: b[3],
        remote_id: u32_from_le(b, 4),
        recv_window: u32_from_le(b, 8),
        seq: u32_from_le(b, 12),
        ack: u32_from_le(b, 16),
    }
}

/// Decoding the four bytes of a number gives the number back.
proof fn lemma_u32_le_roundtrip(x: u32)
    ensures
        u32_from_le(u32_le_bytes(x), 0) == x,
{
    assert(((x % 256) as u8) + 256 * ((x / 256 % 256) as u8) + 65536 * ((x / 65536 % 256) as u8)
        + 16777216 * ((x / 16777216) as u8) == x) by (bit_vector);
}

/// Encoding the number that four bytes decode to gives the bytes back.
proof fn lemma_u32_bytes_roundtrip(b0: u8, b1: u8, b2: u8, b3: u8)
    ensures
        u32_le_bytes(u32_from_le(seq![b0, b1, b2, b3], 0)) == seq![b0, b1, b2, b3],
{
    let s = seq![b0, b1, b2, b3];
    assert(s[0] == b0 && s[1] == b1 && s[2] == b2 && s[3] == b3);
    let x: u32 = (b0 + 256 * b1 + 65536 * b2 + 16777216 * b3) as u32;
    assert(u32_from_le(s, 0) == x);
    assert(x == b0 + 256 * b1 + 65536 * b2 + 16777216 * b3);
    assert((x % 256) as u8 == b0 && (x / 256 % 256) as u8 == b1 && (x / 65536 % 256) as u8 == b2
        && (x / 16777216) as u8 == b3) by (bit_vector)
        requires
            x == b0 + 256 * b1 + 65536 * b2 + 16777216 * b3,
    ;
    assert(u32_le_bytes(x) =~= s);
}

/// Appends the four bytes of `x`, least significant first.
fn push_u32_le(bytes: &mut Vec<u8>, x: u32)
    ensures
        final(bytes)@ == old(bytes)@ + u32_le_bytes(x),
{
    bytes.push((x % 256) as u8);
    bytes.push((x / 256 % 256) as u8);
    bytes.push((x / 65536 % 256) as u8);
    bytes.push((x / 16777216) as u8);
    assert(final(bytes)@ =~= old(bytes)@ + u32_le_bytes(x));
}

/// Reads the number stored least significant byte first at `b[at..at + 4]`.
fn read_u32_le(b: &[u8], at: usize) -> (x: u32)
    requires
        at + 4 <= b@.len(),
    ensures
        x == u32_from_le(b@, at as int),
{
    let x = b[at] as u32 + 256 * (b[at + 1] as u32) + 65536 * (b[at + 2] as u32) + 16777216 * (
    b[at + 3] as u32);
    x
}

impl PacketHeader {
    /// The header's bytes on the wire.
    pub fn to_bytes(&self) -> (bytes: Vec<u8>)
        ensures
            bytes@ == header_bytes(*self),
    {
        let mut bytes: Vec<u8> = Vec::new();
        bytes.push(self.magic);
        bytes.push(self.version);
        bytes.push(self.type_);
        bytes.push(self.extensions);
        push_u32_le(&mut bytes, self.remote_id);
        push_u32_le(&mut bytes, self.recv_window);
        push_u32_le(&mut bytes, self.seq);
        push_u32_le(&mut bytes, self.ack);
        assert(bytes@ =~= header_bytes(*self));
        bytes
    }

    /// Decodes the header held in the first `HEADER_SIZE` bytes of `b`.
    pub(crate) fn from_bytes(b: &[u8]) -> (h: PacketHeader)
        requires
            b@.len() >= HEADER_SIZE,
        ensures
            h == header_from_bytes(b@),
    {
        PacketHeader {
            magic: b[0],
            version: b[1],
            type_: b[2],
            extensions: b[3],
            remote_id: read_u32_le(b, 4),
            recv_window: read_u32_le(b, 8),
            seq: read_u32_le(b, 12),
            ack: read_u32_le(b, 16),
        }
    }
}

/// An outgoing packet with its transmission bookkeeping.
#[derive(Clone, Debug)]
pub struct Packet {
    /// The header sent on the wire.
    pub header: PacketHeader,
    /// The payload sent after the header.
    pub data: Vec<u8>,
    /// How often the packet has been sent.
    pub transmits: u8,
    /// Sequence number.
    pub seq: u32,
    /// When the packet was last sent.
    pub time_sent: Instant,
    /// Whether the packet is considered lost.
    pub lost: bool,
    /// Whether the packet has been sent again.
    pub retransmitted: bool,
    /// Whether the packet probes the path MTU.
    pub is_mtu_probe: bool,
    /// Size on the wire in bytes.
    pub size: u16,
}

impl Packet {
    /// A packet of type `type_` for stream `remote_id`, with no payload and a
    /// header of this protocol's magic byte and version; its send time is the
    /// current time.
    pub fn new(type_: u8, remote_id: u32, seq: u32, ack: u32, recv_window: u32) -> (p: Self)
        ensures
            p.header == (PacketHeader {
                magic: MAGIC_BYTE,
                version: VERSION,
                type_,
                extensions: 0,
                remote_id,
                recv_window,
                seq,
                ack,
            }),
            p.data@ == Seq::<u8>::empty(),
            p.transmits == 0,
            p.seq == seq,
            !p.lost,
            !p.retransmitted,
            !p.is_mtu_probe,
            p.size == HEADER_SIZE,
    {
        Packet {
            header: PacketHeader {
                magic: MAGIC_BYTE,
                version: VERSION,
                type_,
                extensions: 0,
                remote_id,
                recv_window,
                seq,
                ack,
            },
            data: Vec::new(),
            transmits: 0,
            seq,
            time_sent: instant_now(),
            lost: false,
            retransmitted: false,
            is_mtu_probe: false,
            size: HEADER_SIZE as u16,
        }
    }

    /// The packet's bytes on the wire: the header, then the payload.
    pub fn to_bytes(&self) -> (bytes: Vec<u8>)
        ensures
            bytes@ == header_bytes(self.header) + self.data@,
    {
        let mut bytes = self.header.to_bytes();
        let mut i: usize = 0;
        while i < self.data.len()
            invariant
                i <= self.data@.len(),
                bytes@ == header_bytes(self.header) + self.data@.take(i as int),
            decreases self.data@.len() - i,
        {
            bytes.push(self.data[i]);
            i = i + 1;
            assert(bytes@ =~= header_bytes(self.header) + self.data@.take(i as int));
        }
        assert(self.data@.take(i as int) =~= self.data@);
        bytes
    }
}

/// A header survives encoding: decoding its `HEADER_SIZE` bytes, with or
/// without a payload behind them, gives it back.
pub proof fn law_header_roundtrip(h: PacketHeader, payload: Seq<u8>)
    ensures
        header_bytes(h).len() == HEADER_SIZE,
        header_from_bytes(header_bytes(h)) == h,
        header_from_bytes(header_bytes(h) + payload) == h,
{
    lemma_u32_le_roundtrip(h.remote_id);
    lemma_u32_le_roundtrip(h.recv_window);
    lemma_u32_le_roundtrip(h.seq);
    lemma_u32_le_roundtrip(h.ack);
    let b = header_bytes(h);
    let c = header_bytes(h) + payload;
    assert(b.subrange(4, 8) =~= u32_le_bytes(h.remote_id));
    assert(b.subrange(8, 12) =~= u32_le_bytes(h.recv_window));
    assert(b.subrange(12, 16) =~= u32_le_bytes(h.seq));
    assert(b.subrange(16, 20) =~= u32_le_bytes(h.ack));
    assert(u32_from_le(b, 4) == u32_from_le(u32_le_bytes(h.remote_id), 0));
    assert(u32_from_le(b, 8) == u32_from_le(u32_le_bytes(h.recv_window), 0));
    assert(u32_from_le(b, 12) == u32_from_le(u32_le_bytes(h.seq), 0));
    assert(u32_from_le(b, 16) == u32_from_le(u32_le_bytes(h.ack), 0));
    assert(header_from_bytes(b) == h);
    assert(forall|i: int| 0 <= i < 20 ==> c[i] == b[i]);
    assert(header_from_bytes(c) == header_from_bytes(b));
}

/// Bytes survive decoding: encoding the header that the first
/// `HEADER_SIZE` bytes decode to gives those bytes back.
pub proof fn law_bytes_roundtrip(b: Seq<u8>)
    requires
        b.len() >= HEADER_SIZE,
    ensures
        header_bytes(header_from_bytes(b)) == b.take(HEADER_SIZE as int),
{
    lemma_u32_bytes_roundtrip(b[4], b[5], b[6], b[7]);
    lemma_u32_bytes_roundtrip(b[8], b[9], b[10], b[11]);
    lemma_u32_bytes_roundtrip(b[12], b[13], b[14], b[15]);
    lemma_u32_bytes_roundtrip(b[16], b[17], b[18], b[19]);
    let h = header_from_bytes(b);
    assert(h.remote_id == u32_from_le(seq![b[4], b[5], b[6], b[7]], 0));
    assert(h.recv_window == u32_from_le(seq![b[8], b[9], b[10], b[11]], 0));
    assert(h.seq == u32_from_le(seq![b[12], b[13], b[14], b[15]], 0));
    assert(h.ack == u32_from_le(seq![b[16], b[17], b[18], b[19]], 0));
    assert(header_bytes(h) =~= b.take(HEADER_SIZE as int));
}

/// Where each field sits in the header's bytes: the four single-byte fields
/// at offsets 0 to 3, then `remote_id`, `recv_window`, `seq` and `ack` at
/// offsets 4, 8, 12 and 16, each as four bytes with the least significant
/// first (the field's value is `b0 + 256 * b1 + 65536 * b2 + 16777216 * b3`).
pub proof fn law_header_layout(h: PacketHeader)
    ensures
        ({
            let b = header_bytes(h);
            &&& b.len() == HEADER_SIZE
            &&& b[0] == h.magic
            &&& b[1] == h.version
            &&& b[2] == h.type_
            &&& b[3] == h.extensions
            &&& h.remote_id == b[4] + 256 * b[5] + 65536 * b[6] + 16777216 * b[7]
            &&& h.recv_window == b[8] + 256 * b[9] + 65536 * b[10] + 16777216 * b[11]
            &&& h.seq == b[12] + 256 * b[13] + 65536 * b[14] + 16777216 * b[15]
            &&& h.ack == b[16] + 256 * b[17] + 65536 * b[18] + 16777216 * b[19]
        }),
{
    let b = header_bytes(h);
    law_header_roundtrip(h, Seq::<u8>::empty());
    let d = header_from_bytes(b);
    assert(d == h);
    assert(b[4] + 256 * b[5] + 65536 * b[6] + 16777216 * b[7] <= u32::MAX);
    assert(b[8] + 256 * b[9] + 65536 * b[10] + 16777216 * b[11] <= u32::MAX);
    assert(b[12] + 256 * b[13] + 65536 * b[14] + 16777216 * b[15] <= u32::MAX);
    assert(b[16] + 256 * b[17] + 65536 * b[18] + 16777216 * b[19] <= u32::MAX);
}

/// Reading a header takes each field from its place: the single-byte fields
/// from offsets 0 to 3, and the 32-bit fields from offsets 4, 8, 12 and 16,
/// least significant byte first.
pub proof fn law_parse_layout(b: Seq<u8>)
    requires
        b.len() >= HEADER_SIZE,
    ensures
        ({
            let h = header_from_bytes(b);
            &&& h.magic == b[0]
            &&& h.version == b[1]
            &&& h.type_ == b[2]
            &&& h.extensions == b[3]
            &&& h.remote_id == b[4] + 256 * b[5] + 65536 * b[6] + 16777216 * b[7]
            &&& h.recv_window == b[8] + 256 * b[9] + 65536 * b[10] + 16777216 * b[11]
            &&& h.seq == b[12] + 256 * b[13] + 65536 * b[14] + 16777216 * b[15]
            &&& h.ack == b[16] + 256 * b[17] + 65536 * b[18] + 16777216 * b[19]
        }),
{
}

} // verus!
