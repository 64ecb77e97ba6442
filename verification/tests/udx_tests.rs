use std::time::{Duration, Instant};
use udx::cirbuf::CircularBuffer;
use udx::congestion::{CongestionControl, CongestionState};
use udx::constants::{HEADER_SIZE, MAGIC_BYTE, VERSION};
use udx::packet::{Packet, PacketHeader};
use udx::parse_header;
use udx::queue::Queue;
use udx::socket::{RecvAction, RecvOutcome, SendAction, SendOutcome, SocketState, SocketStats};
use udx::stream::{MtuState, Stream};
use udx::{UdxError, UDX_CONG_INIT_CWND, UDX_HEADER_DATA, UDX_MAGIC_BYTE, UDX_VERSION};

#[test]
fn test_stream_creation() {
    let stream = Stream::new(1);
    assert_eq!(stream.local_id(), 1);
    assert_eq!(stream.cwnd(), UDX_CONG_INIT_CWND);
    assert_eq!(stream.rto(), 1000);
}

#[test]
fn test_packet_header() {
    let header = PacketHeader {
        magic: UDX_MAGIC_BYTE,
        version: UDX_VERSION,
        type_: UDX_HEADER_DATA,
        extensions: 0,
        remote_id: 1,
        recv_window: 1000,
        seq: 42,
        ack: 41,
    };
    let packet = header.to_bytes();
    assert_eq!(packet.len(), HEADER_SIZE);

    let parsed = parse_header(&packet).unwrap();
    assert_eq!(parsed.magic, UDX_MAGIC_BYTE);
    assert_eq!(parsed.seq, 42);
}

fn sample_header() -> PacketHeader {
    PacketHeader {
        magic: 0x75,
        version: 1,
        type_: 0x04,
        extensions: 2,
        remote_id: 0x0102_0304,
        recv_window: 0xdead_beef,
        seq: u32::MAX,
        ack: 0,
    }
}

#[test]
fn header_bytes_are_little_endian() {
    let bytes = sample_header().to_bytes();
    assert_eq!(
        bytes,
        vec![
            0x75, 1, 0x04, 2, 0x04, 0x03, 0x02, 0x01, 0xef, 0xbe, 0xad, 0xde, 0xff, 0xff, 0xff,
            0xff, 0, 0, 0, 0
        ]
    );
}

#[test]
fn header_roundtrip() {
    let h = sample_header();
    let mut bytes = h.to_bytes();
    bytes.extend_from_slice(&[9, 9, 9]);
    let parsed = parse_header(&bytes).unwrap();
    assert_eq!(parsed.magic, h.magic);
    assert_eq!(parsed.version, h.version);
    assert_eq!(parsed.type_, h.type_);
    assert_eq!(parsed.extensions, h.extensions);
    assert_eq!(parsed.remote_id, h.remote_id);
    assert_eq!(parsed.recv_window, h.recv_window);
    assert_eq!(parsed.seq, h.seq);
    assert_eq!(parsed.ack, h.ack);
}

#[test]
fn bytes_roundtrip() {
    let bytes: Vec<u8> = (0u8..24).map(|b| b.wrapping_mul(37)).collect();
    let parsed = parse_header(&bytes).unwrap();
    assert_eq!(parsed.to_bytes(), bytes[..HEADER_SIZE].to_vec());
    assert_eq!(parsed.remote_id, u32::from_le_bytes([bytes[4], bytes[5], bytes[6], bytes[7]]));
}

#[test]
fn short_packet_is_invalid() {
    assert!(matches!(parse_header(&[]), Err(UdxError::InvalidPacket)));
    assert!(matches!(parse_header(&[0u8; 19]), Err(UdxError::InvalidPacket)));
    assert!(parse_header(&[0u8; 20]).is_ok());
}

#[test]
fn new_packet_fields() {
    let p = Packet::new(UDX_HEADER_DATA, 7, 100, 99, 4096);
    assert_eq!(p.header.magic, MAGIC_BYTE);
    assert_eq!(p.header.version, VERSION);
    assert_eq!(p.header.type_, UDX_HEADER_DATA);
    assert_eq!(p.header.extensions, 0);
    assert_eq!(p.header.remote_id, 7);
    assert_eq!(p.header.recv_window, 4096);
    assert_eq!(p.header.seq, 100);
    assert_eq!(p.header.ack, 99);
    assert!(p.data.is_empty());
    assert_eq!(p.transmits, 0);
    assert_eq!(p.seq, 100);
    assert!(!p.lost && !p.retransmitted && !p.is_mtu_probe);
    assert_eq!(p.size, 20);
}

#[test]
fn packet_bytes_are_header_then_payload() {
    let mut p = Packet::new(UDX_HEADER_DATA, 1, 2, 3, 4);
    p.data = vec![10, 20, 30];
    let bytes = p.to_bytes();
    assert_eq!(bytes.len(), HEADER_SIZE + 3);
    assert_eq!(&bytes[..HEADER_SIZE], &p.header.to_bytes()[..]);
    assert_eq!(&bytes[HEADER_SIZE..], &[10, 20, 30]);
    let parsed = parse_header(&bytes).unwrap();
    assert_eq!(parsed.seq, 2);
    assert_eq!(parsed.ack, 3);
}

#[test]
fn cirbuf_set_get_remove() {
    let mut buf: CircularBuffer<u64> = CircularBuffer::new(16);
    assert_eq!(buf.get(3), None);
    buf.set(3, 30);
    buf.set(20, 200);
    assert_eq!(buf.get(3), Some(&30));
    assert_eq!(buf.get(20), Some(&200));
    assert_eq!(buf.get(4), Some(&200));
    assert_eq!(buf.remove(3), Some(30));
    assert_eq!(buf.get(3), None);
    assert_eq!(buf.remove(3), None);
    buf.set(3, 31);
    assert_eq!(buf.get(3), Some(&31));
}

#[test]
fn cirbuf_wraparound() {
    let mut buf: CircularBuffer<&str> = CircularBuffer::new(4);
    buf.set(u32::MAX, "last");
    assert_eq!(buf.get(3), Some(&"last"));
    assert_eq!(buf.get(7), Some(&"last"));
    assert_eq!(buf.remove(11), Some("last"));
    assert_eq!(buf.get(u32::MAX), None);
}

#[test]
fn queue_fifo() {
    let mut q = Queue::new();
    assert!(q.is_empty());
    q.push_back(1);
    q.push_back(2);
    q.push_back(3);
    assert_eq!(q.len(), 3);
    assert_eq!(q.pop_front(), Some(1));
    assert_eq!(q.pop_front(), Some(2));
    assert_eq!(q.len(), 1);
    assert_eq!(q.pop_front(), Some(3));
    assert_eq!(q.pop_front(), None);
    assert!(q.is_empty());
    assert_eq!(q.len(), 0);
}

#[test]
fn queue_push_front() {
    let mut q = Queue::new();
    q.push_back("b");
    q.push_front("a");
    assert_eq!(q.len(), 2);
    assert!(!q.is_empty());
    assert_eq!(q.pop_front(), Some("a"));
    assert_eq!(q.pop_front(), Some("b"));
}

#[test]
fn congestion_new() {
    let cc = CongestionControl::new();
    assert_eq!(cc.cnt, 0);
    let d = CongestionControl::default();
    assert_eq!(d.cnt, 0);
}

#[test]
fn congestion_update_caps_count() {
    let mut cc = CongestionControl::new();
    cc.update(10, 1, Instant::now());
    assert_eq!(cc.cnt, 20);
}

#[test]
fn congestion_update_empty_window() {
    let mut cc = CongestionControl::new();
    cc.update(0, 3, Instant::now() + Duration::from_millis(10));
    assert_eq!(cc.cnt, 0);
}

#[test]
fn congestion_target_is_plateau() {
    let mut cc = CongestionControl::new();
    cc.update(40, 1, Instant::now());
    assert_eq!(cc.target_window(0), 40);
    assert_eq!(cc.target_window(100), 40);
    assert_eq!(cc.target_window(220), 40);
}

#[test]
fn stream_initial_state() {
    let s = Stream::new(9);
    assert_eq!(s.local_id(), 9);
    assert_eq!(s.cwnd(), 10);
    assert_eq!(s.rto(), 1000);
}

#[test]
fn socket_state_and_stats() {
    let v4 = SocketState::new(true);
    assert_eq!(v4.ttl, 64);
    assert_eq!(v4.family, 4);
    assert!(!v4.receiving && !v4.bound && !v4.closed);
    let v6 = SocketState::new(false);
    assert_eq!(v6.family, 6);

    let mut stats = SocketStats::default();
    stats.record_received(100);
    stats.record_received(20);
    stats.record_sent(7);
    assert_eq!(stats.bytes_rx, 120);
    assert_eq!(stats.packets_rx, 2);
    assert_eq!(stats.bytes_tx, 7);
    assert_eq!(stats.packets_tx, 1);
}

#[test]
fn congestion_update_each_reading() {
    let now = Instant::now();
    let mut cc = CongestionControl::new();
    // A new epoch at window 10: the plateau is 10, so cnt = min(100 * 10, 20).
    cc.update_with_readings(10, 1, now, 50, false, 0);
    assert_eq!(cc.cnt, 20);
    // Window 0 unchanged within 3 ms: only acknowledgements are counted.
    cc.update_with_readings(0, 1, now, 3, false, 0);
    assert_eq!(cc.cnt, 20);
    // Same epoch, window 3 below the plateau 10: cnt = 3 / (10 - 3).
    cc.update_with_readings(3, 1, now, 10, true, 220);
    assert_eq!(cc.cnt, 0);
    // Same epoch, window 12 above the plateau: 100 * 12, capped at 20.
    cc.update_with_readings(12, 1, now, 10, true, 7);
    assert_eq!(cc.cnt, 20);
    // Window 5 below the plateau 10 in the same epoch: 5 / (10 - 5).
    cc.update_with_readings(5, 1, now, 10, true, 0);
    assert_eq!(cc.cnt, 1);
    // A new epoch at window 5 moves the plateau to 5.
    cc.update_with_readings(5, 1, now, 10, false, 0);
    assert_eq!(cc.cnt, 20);
    assert_eq!(cc.target_window(123), 5);
}

#[test]
fn congestion_update_leaves_controller_when_cubic_term_overflows() {
    // The epoch starts 1 s ahead, so it is not yet past at the next update;
    // that update comes 300 ms into the epoch, where 400 * 300^3 does not fit
    // in 32 bits: the controller is left as it was.
    let t0 = Instant::now() + Duration::from_secs(1);
    let mut cc = CongestionControl::new();
    cc.update(10, 1, t0);
    assert_eq!(cc.cnt(), 20);
    cc.update(5, 1, t0 + Duration::from_millis(300));
    assert_eq!(cc.cnt(), 20);
    // 200 ms into the same epoch the term fits: cnt = 5 / (10 - 5).
    cc.update(5, 1, t0 + Duration::from_millis(200));
    assert_eq!(cc.cnt(), 1);
}

#[test]
fn congestion_recent_window_is_measured_from_last_time() {
    let t0 = Instant::now() + Duration::from_millis(20);
    let mut cc = CongestionControl::new();
    cc.update(10, 1, t0);
    assert_eq!(cc.cnt(), 20);
    // 20 ms after the last recorded time: not a repeat of the last update.
    // The epoch started at t0, which is not yet past, so it continues with
    // the plateau 10 above the window 0: cnt = 0 / 10.
    cc.update(0, 1, t0);
    assert_eq!(cc.cnt(), 0);
}

#[test]
fn congestion_count_getter() {
    let mut cc = CongestionControl::new();
    assert_eq!(cc.cnt(), 0);
    cc.update_with_readings(7, 1, Instant::now(), 10, false, 0);
    assert_eq!(cc.cnt(), cc.cnt);
    assert_eq!(cc.cnt(), 20);
}

#[test]
fn state_codes() {
    assert_eq!(CongestionState::Open.code(), 1);
    assert_eq!(CongestionState::Recovery.code(), 2);
    assert_eq!(CongestionState::Loss.code(), 3);
    assert_eq!(MtuState::Base.code(), 1);
    assert_eq!(MtuState::Search.code(), 2);
    assert_eq!(MtuState::Error.code(), 3);
    assert_eq!(MtuState::SearchComplete.code(), 4);
}

#[test]
fn io_error_converts() {
    let e: UdxError = std::io::Error::new(std::io::ErrorKind::Other, "boom").into();
    match e {
        UdxError::Io(inner) => assert_eq!(inner.kind(), std::io::ErrorKind::Other),
        _ => panic!("expected an I/O error"),
    }
}

#[test]
fn receive_and_send_steps() {
    let mut stats = SocketStats::default();
    assert_eq!(stats.receive_step(RecvOutcome::Received(40)), RecvAction::Deliver);
    assert_eq!(stats.receive_step(RecvOutcome::WouldBlock), RecvAction::RetryLater);
    assert_eq!(stats.receive_step(RecvOutcome::Failed), RecvAction::Stop);
    assert_eq!(stats.bytes_rx, 40);
    assert_eq!(stats.packets_rx, 1);
    assert_eq!(stats.send_step(SendOutcome::Sent(25)), SendAction::Done);
    assert_eq!(stats.send_step(SendOutcome::WouldBlock), SendAction::Queue);
    assert_eq!(stats.send_step(SendOutcome::Failed), SendAction::Fail);
    assert_eq!(stats.bytes_tx, 25);
    assert_eq!(stats.packets_tx, 1);
    assert_eq!(stats.bytes_rx, 40);
}
