use conmon_attach::frame::{
    build_packets, done_packet, frame_at, packet_count, truncate_at_zero, Pipe, PACKET_BUF_SIZE,
    PAYLOAD_SIZE,
};

#[test]
fn pipe_tags() {
    assert_eq!(Pipe::StdOut.tag(), 2);
    assert_eq!(Pipe::StdErr.tag(), 3);
}

#[test]
fn packet_count_rounds_up() {
    assert_eq!(packet_count(0), 1);
    assert_eq!(packet_count(1), 1);
    assert_eq!(packet_count(8191), 1);
    assert_eq!(packet_count(8192), 2);
    assert_eq!(packet_count(16382), 2);
    assert_eq!(packet_count(16383), 3);
}

#[test]
fn short_payload_is_one_padded_frame() {
    let payload = b"hello".to_vec();
    let packets = build_packets(Pipe::StdOut, &payload);
    assert_eq!(packets.len(), 1);
    let frame = &packets[0];
    assert_eq!(frame.len(), PACKET_BUF_SIZE);
    assert_eq!(frame[0], 2);
    assert_eq!(&frame[1..6], b"hello");
    assert!(frame[6..].iter().all(|&b| b == 0));
}

#[test]
fn stderr_payload_carries_its_tag() {
    let payload = vec![7u8; 10];
    let packets = build_packets(Pipe::StdErr, &payload);
    assert_eq!(packets.len(), 1);
    assert_eq!(packets[0][0], 3);
    assert_eq!(&packets[0][1..11], &payload[..]);
    assert_eq!(packets[0][11], 0);
}

#[test]
fn full_payload_fills_one_frame() {
    let payload: Vec<u8> = (0..PAYLOAD_SIZE).map(|i| (i % 251) as u8 + 1).collect();
    let packets = build_packets(Pipe::StdOut, &payload);
    assert_eq!(packets.len(), 1);
    assert_eq!(packets[0].len(), PACKET_BUF_SIZE);
    assert_eq!(&packets[0][1..], &payload[..]);
}

#[test]
fn long_payload_splits_and_rejoins() {
    let payload: Vec<u8> = (0..20000usize).map(|i| (i % 255) as u8 + 1).collect();
    let packets = build_packets(Pipe::StdErr, &payload);
    assert_eq!(packets.len(), 3);
    let mut joined = Vec::new();
    for (i, frame) in packets.iter().enumerate() {
        assert_eq!(frame.len(), PACKET_BUF_SIZE);
        assert_eq!(frame[0], 3);
        let n = if i < 2 { PAYLOAD_SIZE } else { 20000 - 2 * PAYLOAD_SIZE };
        joined.extend_from_slice(&frame[1..1 + n]);
        assert!(frame[1 + n..].iter().all(|&b| b == 0));
    }
    assert_eq!(joined, payload);
    assert_eq!(frame_at(Pipe::StdErr, &payload, 1), packets[1]);
}

#[test]
fn empty_payload_takes_one_padded_frame() {
    let packets = build_packets(Pipe::StdErr, &Vec::new());
    assert_eq!(packets.len(), 1);
    let mut want = vec![0u8; PACKET_BUF_SIZE];
    want[0] = 3;
    assert_eq!(packets[0], want);
}

#[test]
fn done_packet_is_all_zero() {
    let p = done_packet();
    assert_eq!(p.len(), 8192);
    assert!(p.iter().all(|&b| b == 0));
}

#[test]
fn inbound_cut_at_first_zero() {
    let mut frame = vec![0u8; PACKET_BUF_SIZE];
    frame[..3].copy_from_slice(b"abc");
    frame[4] = b'x';
    assert_eq!(truncate_at_zero(frame), b"abc".to_vec());
}

#[test]
fn inbound_without_zero_is_kept() {
    assert_eq!(truncate_at_zero(b"ls -l".to_vec()), b"ls -l".to_vec());
    assert_eq!(truncate_at_zero(vec![0, 1, 2]), Vec::<u8>::new());
}
