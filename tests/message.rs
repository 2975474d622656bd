use rtmp_chunk::{
    connect_response, write_message_chunk, AcknowledgementWindowSize, CommandMessageAmf0,
    SetChunkSize, SetPeerBandwidth, UserControlMessage,
};

#[test]
fn set_chunk_size_reads_big_endian() {
    let message = SetChunkSize::from_payload(&[0x00, 0x00, 0x10, 0x00]).unwrap();
    assert_eq!(message.chunk_size(), 4096);
    assert_eq!(SetChunkSize::new([1, 2, 3, 4]).chunk_size(), 0x01020304);
    assert!(SetChunkSize::from_payload(&[0, 0, 16]).is_none());
    assert!(SetChunkSize::from_payload(&[0, 0, 16, 0, 0]).is_none());
}

#[test]
fn set_peer_bandwidth_from_values() {
    let message = SetPeerBandwidth::new_from_values(5_000_000, 2);
    assert_eq!(message.payload, [0x00, 0x4C, 0x4B, 0x40, 0x02]);
}

#[test]
fn payload_carrying_messages_keep_their_bytes() {
    assert_eq!(AcknowledgementWindowSize::new([1, 2, 3, 4]).payload, [1, 2, 3, 4]);
    assert_eq!(UserControlMessage::new(vec![0, 0, 0, 0, 0, 1]).payload, vec![0, 0, 0, 0, 0, 1]);
    assert_eq!(CommandMessageAmf0::new(vec![2, 0, 1, 0x61]).payload, vec![2, 0, 1, 0x61]);
}

#[test]
fn message_chunk_framing() {
    let mut out = vec![0xAA];
    write_message_chunk(&mut out, 3, 20, &[7, 8, 9]);
    assert_eq!(out, vec![0xAA, 0x03, 0, 0, 0, 0, 0, 3, 20, 0, 0, 0, 0, 7, 8, 9]);
}

#[test]
fn connect_response_layout() {
    let result = [0x02, 0x00, 0x07];
    let out = connect_response(&result);
    let mut expected = vec![0x02, 0, 0, 0, 0, 0, 4, 5, 0, 0, 0, 0, 0x00, 0x4C, 0x4B, 0x40];
    expected.extend_from_slice(&[0x02, 0, 0, 0, 0, 0, 5, 6, 0, 0, 0, 0, 0x00, 0x4C, 0x4B, 0x40, 0x02]);
    expected.extend_from_slice(&[0x03, 0, 0, 0, 0, 0, 3, 20, 0, 0, 0, 0, 0x02, 0x00, 0x07]);
    assert_eq!(out, expected);
}
