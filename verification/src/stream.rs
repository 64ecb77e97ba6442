//! A stream's state and its setup.
use crate::cirbuf::{is_power_of_two, CircularBuffer};
use crate::congestion::CongestionControl;
use crate::constants::{CONG_INIT_CWND, MTU_BASE};
use crate::packet::Packet;
use crate::queue::Queue;
use crate::WriteBuffer;
use vstd::arithmetic::power2::pow2;
use vstd::prelude::*;

verus! {

/// Slots of a new stream's send and receive buffers.
pub const STREAM_BUFFER_SLOTS: u32 = 16;

/// Initial retransmission timeout of a stream, in ms.
pub const INITIAL_RTO: u32 = 1000;

/// Connection status of a stream.
#[derive(Debug)]
pub struct StreamState {
    /// Whether the stream is connected to a remote stream.
    pub connected: bool,
    /// Whether the stream has been destroyed.
    pub destroyed: bool,
    /// Whether the remote side is ending the stream.
    pub remote_ending: bool,
    /// Whether this side is ending the stream.
    pub local_ending: bool,
}

/// Phase of path-MTU discovery.
#[derive(Debug, Clone, Copy, PartialEq)]
pub enum MtuState {
    /// Using the base MTU.
    Base,
    /// Probing larger sizes.
    Search,
    /// Probing failed.
    Error,
    /// Probing finished.
    SearchComplete,
}

impl MtuState {
    /// The number that identifies the phase: 1 for `Base`, 2 for `Search`,
    /// 3 for `Error`, 4 for `SearchComplete`.
    pub fn code(&self) -> (n: u8)
        ensures
            n == (match *self {
                MtuState::Base => 1u8,
                MtuState::Search => 2u8,
                MtuState::Error => 3u8,
                MtuState::SearchComplete => 4u8,
            }),
    {
        match self {
            MtuState::Base => 1,
            MtuState::Search => 2,
            MtuState::Error => 3,
            MtuState::SearchComplete => 4,
        }
    }
}

/// Path-MTU discovery state.
#[derive(Debug)]
pub struct Mtu {
    /// MTU in use.
    pub current: u16,
    /// Size being probed.
    pub probe_size: u16,
    /// Probes sent for `probe_size`.
    pub probe_count: u8,
    /// Discovery phase.
    pub state: MtuState,
}

/// Traffic counters of a stream.
pub struct StreamStats {
    /// Bytes received.
    pub bytes_rx: u64,
    /// Bytes sent.
    pub bytes_tx: u64,
    /// Packets received.
    pub packets_rx: u64,
    /// Packets sent.
    pub packets_tx: u64,
}

/// The plain-valued part of a stream.
pub struct StreamView {
    /// This side's stream id.
    pub local_id: u32,
    /// The remote side's stream id.
    pub remote_id: u32,
    /// Connection status.
    pub state: StreamState,
    /// Path-MTU discovery state.
    pub mtu: Mtu,
    /// Traffic counters.
    pub stats: StreamStats,
    /// Congestion window, in packets.
    pub cwnd: u32,
    /// Retransmission timeout, in ms.
    pub rto: u32,
}

/// One reliable stream: its ids, status, congestion control, MTU discovery,
/// buffers of packets in flight and received, and data waiting to be sent.
pub struct UdxStream {
    local_id: u32,
    remote_id: u32,
    state: StreamState,
    congestion: CongestionControl,
    mtu: Mtu,
    outgoing: CircularBuffer<Packet>,
    incoming: CircularBuffer<Packet>,
    write_queue: Queue<WriteBuffer>,
    stats: StreamStats,
    cwnd: u32,
    rto: u32,
}

/// Another name for `UdxStream`.
pub type Stream = UdxStream;

impl View for UdxStream {
    type V = StreamView;

    closed spec fn view(&self) -> StreamView {
        StreamView {
            local_id: self.local_id,
            remote_id: self.remote_id,
            state: self.state,
            mtu: self.mtu,
            stats: self.stats,
            cwnd: self.cwnd,
            rto: self.rto,
        }
    }
}

impl UdxStream {
    /// The stream's congestion controller.
    pub closed spec fn congestion(&self) -> CongestionControl {
        self.congestion
    }

    /// Packets sent and not yet acknowledged, by sequence number.
    pub closed spec fn outgoing(&self) -> CircularBuffer<Packet> {
        self.outgoing
    }

    /// Packets received out of order, by sequence number.
    pub closed spec fn incoming(&self) -> CircularBuffer<Packet> {
        self.incoming
    }

    /// Data waiting to be sent.
    pub closed spec fn write_queue(&self) -> Queue<WriteBuffer> {
        self.write_queue
    }

    /// A new, unconnected stream with id `local_id`: base MTU, the initial
    /// congestion window and retransmission timeout, empty buffers of
    /// `STREAM_BUFFER_SLOTS` slots, nothing queued and zero counters.
    pub fn new(local_id: u32) -> (s: Self)
        ensures
            s@.local_id == local_id,
            s@.remote_id == 0,
            s@.cwnd == CONG_INIT_CWND,
            s@.rto == INITIAL_RTO,
            s@.state == (StreamState {
                connected: false,
                destroyed: false,
                remote_ending: false,
                local_ending: false,
            }),
            s@.mtu == (Mtu {
                current: MTU_BASE,
                probe_size: MTU_BASE,
                probe_count: 0,
                state: MtuState::Base,
            }),
            s@.stats == (StreamStats { bytes_rx: 0, bytes_tx: 0, packets_rx: 0, packets_tx: 0 }),
            s.congestion().wf(),
            s.congestion()@ == CongestionControl::new_state(),
            s.outgoing().wf(),
            s.outgoing()@ == Seq::new(STREAM_BUFFER_SLOTS as nat, |i: int| None::<Packet>),
            s.incoming().wf(),
            s.incoming()@ == Seq::new(STREAM_BUFFER_SLOTS as nat, |i: int| None::<Packet>),
            s.write_queue().wf(),
            s.write_queue()@ == Seq::<WriteBuffer>::empty(),
    {
        proof {
            vstd::arithmetic::power2::lemma2_to64();
            assert(STREAM_BUFFER_SLOTS == pow2(4));
            assert(is_power_of_two(STREAM_BUFFER_SLOTS));
        }
        UdxStream {
            local_id,
            remote_id: 0,
            state: StreamState {
                connected: false,
                destroyed: false,
                remote_ending: false,
                local_ending: false,
            },
            congestion: CongestionControl::new(),
            mtu: Mtu {
                current: MTU_BASE,
                probe_size: MTU_BASE,
                probe_count: 0,
                state: MtuState::Base,
            },
            outgoing: CircularBuffer::new(STREAM_BUFFER_SLOTS),
            incoming: CircularBuffer::new(STREAM_BUFFER_SLOTS),
            write_queue: Queue::new(),
            stats: StreamStats { bytes_rx: 0, bytes_tx: 0, packets_rx: 0, packets_tx: 0 },
            cwnd: CONG_INIT_CWND,
            rto: INITIAL_RTO,
        }
    }

    /// This side's stream id.
    pub fn local_id(&self) -> (id: u32)
        ensures
            id == self@.local_id,
    {
        self.local_id
    }

    /// The congestion window, in packets.
    pub fn cwnd(&self) -> (w: u32)
        ensures
            w == self@.cwnd,
    {
        self.cwnd
    }

    /// The retransmission timeout, in ms.
    pub fn rto(&self) -> (t: u32)
        ensures
            t == self@.rto,
    {
        self.rto
    }
}

} // verus!
