//! Bookkeeping of a UDP socket: its settings and its traffic counters.
use crate::constants::DEFAULT_TTL;
use vstd::prelude::*;

verus! {

/// Settings and status of a socket.
#[derive(Debug, Clone)]
pub struct SocketState {
    /// Whether packets are being received.
    pub receiving: bool,
    /// Whether the socket is bound.
    pub bound: bool,
    /// Whether the socket is closed.
    pub closed: bool,
    /// IP time-to-live of outgoing packets.
    pub ttl: u8,
    /// Address family: 4 for IPv4, 6 for IPv6.
    pub family: u8,
}

impl SocketState {
    /// The state of a freshly bound socket: default time-to-live, and the
    /// family of its address.
    pub fn new(is_ipv4: bool) -> (s: Self)
        ensures
            s == (SocketState {
                receiving: false,
                bound: false,
                closed: false,
                ttl: DEFAULT_TTL,
                family: if is_ipv4 {
                    4
                } else {
                    6
                },
            }),
    {
        SocketState {
            ttl: DEFAULT_TTL,
            family: if is_ipv4 {
                4
            } else {
                6
            },
            ..Self::default()
        }
    }
}

impl Default for SocketState {
    /// Everything false or zero.
    fn default() -> (s: Self)
        ensures
            s == (SocketState { receiving: false, bound: false, closed: false, ttl: 0, family: 0 }),
    {
        SocketState { receiving: false, bound: false, closed: false, ttl: 0, family: 0 }
    }
}

/// Traffic counters of a socket.
#[derive(Debug, Clone)]
pub struct SocketStats {
    /// Bytes received.
    pub bytes_rx: u64,
    /// Bytes sent.
    pub bytes_tx: u64,
    /// Packets received.
    pub packets_rx: u64,
    /// Packets sent.
    pub packets_tx: u64,
}

impl SocketStats {
    /// Counts one received packet of `n` bytes.
    pub fn record_received(&mut self, n: usize)
        requires
            old(self).bytes_rx + n <= u64::MAX,
            old(self).packets_rx < u64::MAX,
        ensures
            *final(self) == (SocketStats {
                bytes_rx: (old(self).bytes_rx + n) as u64,
                packets_rx: (old(self).packets_rx + 1) as u64,
                ..*old(self)
            }),
    {
        self.bytes_rx = self.bytes_rx + n as u64;
        self.packets_rx = self.packets_rx + 1;
    }

    /// Counts one sent packet of `n` bytes.
    pub fn record_sent(&mut self, n: usize)
        requires
            old(self).bytes_tx + n <= u64::MAX,
            old(self).packets_tx < u64::MAX,
        ensures
            *final(self) == (SocketStats {
                bytes_tx: (old(self).bytes_tx + n) as u64,
                packets_tx: (old(self).packets_tx + 1) as u64,
                ..*old(self)
            }),
    {
        self.bytes_tx = self.bytes_tx + n as u64;
        self.packets_tx = self.packets_tx + 1;
    }
}

impl Default for SocketStats {
    /// All counters at zero.
    fn default() -> (s: Self)
        ensures
            s == (SocketStats { bytes_rx: 0, bytes_tx: 0, packets_rx: 0, packets_tx: 0 }),
    {
        SocketStats { bytes_rx: 0, bytes_tx: 0, packets_rx: 0, packets_tx: 0 }
    }
}

/// What one attempt to receive a datagram gave.
#[derive(Debug, Clone, Copy)]
pub enum RecvOutcome {
    /// A datagram of this many bytes arrived.
    Received(usize),
    /// Nothing was ready.
    WouldBlock,
    /// Receiving failed otherwise.
    Failed,
}

/// What the receive loop does after an attempt.
#[derive(Debug, Clone, Copy, PartialEq, Eq)]
pub enum RecvAction {
    /// Hand the datagram on.
    Deliver,
    /// Wait a moment and try again.
    RetryLater,
    /// Stop receiving.
    Stop,
}

/// What one attempt to send a datagram gave.
#[derive(Debug, Clone, Copy)]
pub enum SendOutcome {
    /// This many bytes were sent.
    Sent(usize),
    /// The socket was not ready.
    WouldBlock,
    /// Sending failed otherwise.
    Failed,
}

/// What a send does after its attempt.
#[derive(Debug, Clone, Copy, PartialEq, Eq)]
pub enum SendAction {
    /// The packet is out.
    Done,
    /// Keep the packet in the send queue for later.
    Queue,
    /// Report the error.
    Fail,
}

impl SocketStats {
    /// One step of the receive loop: a datagram of `n` bytes is counted and
    /// delivered; when nothing is ready the loop waits and tries again; any
    /// other error stops it.
    pub fn receive_step(&mut self, outcome: RecvOutcome) -> (a: RecvAction)
        requires
            outcome matches RecvOutcome::Received(n) ==> old(self).bytes_rx + n <= u64::MAX
                && old(self).packets_rx < u64::MAX,
        ensures
            (match outcome {
                RecvOutcome::Received(n) => a == RecvAction::Deliver && *final(self) == (
                SocketStats {
                    bytes_rx: (old(self).bytes_rx + n) as u64,
                    packets_rx: (old(self).packets_rx + 1) as u64,
                    ..*old(self)
                }),
                RecvOutcome::WouldBlock => a == RecvAction::RetryLater && *final(self) == *old(
                    self,
                ),
                RecvOutcome::Failed => a == RecvAction::Stop && *final(self) == *old(self),
            }),
    {
        match outcome {
            RecvOutcome::Received(n) => {
                self.record_received(n);
                RecvAction::Deliver
            },
            RecvOutcome::WouldBlock => RecvAction::RetryLater,
            RecvOutcome::Failed => RecvAction::Stop,
        }
    }

    /// What a send does after its attempt: `n` bytes sent are counted; a
    /// socket that is not ready keeps the packet queued; any other error is
    /// reported.
    pub fn send_step(&mut self, outcome: SendOutcome) -> (a: SendAction)
        requires
            outcome matches SendOutcome::Sent(n) ==> old(self).bytes_tx + n <= u64::MAX
                && old(self).packets_tx < u64::MAX,
        ensures
            (match outcome {
                SendOutcome::Sent(n) => a == SendAction::Done && *final(self) == (SocketStats {
                    bytes_tx: (old(self).bytes_tx + n) as u64,
                    packets_tx: (old(self).packets_tx + 1) as u64,
                    ..*old(self)
                }),
                SendOutcome::WouldBlock => a == SendAction::Queue && *final(self) == *old(self),
                SendOutcome::Failed => a == SendAction::Fail && *final(self) == *old(self),
            }),
    {
        match outcome {
            SendOutcome::Sent(n) => {
                self.record_sent(n);
                SendAction::Done
            },
            SendOutcome::WouldBlock => SendAction::Queue,
            SendOutcome::Failed => SendAction::Fail,
        }
    }
}

} // verus!
