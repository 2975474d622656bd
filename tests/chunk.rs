use rtmp_chunk::{Chunk, RtmpError};

#[test]
fn decodes_a_type0_chunk_with_payload() {
    let bytes = [
        0x03, 0x00, 0x00, 0x0A, 0x00, 0x00, 0x05, 0x14, 0x00, 0x00, 0x00, 0x00, 1, 2, 3, 4, 5,
        0xEE,
    ];
    let (chunk, used) = Chunk::decode(&bytes).unwrap();
    assert_eq!(used, 17);
    assert_eq!(chunk.basic_header.get_fmt(), 0);
    assert_eq!(chunk.basic_header.get_cs_id(), 3);
    assert_eq!(chunk.message_header.get_message_type_id(), Some(20));
    assert_eq!(chunk.chunk_data, vec![1, 2, 3, 4, 5]);
    let mut out = Vec::new();
    chunk.write(&mut out);
    assert_eq!(out, bytes[..17].to_vec());
}

#[test]
fn type3_chunk_has_no_payload() {
    let (chunk, used) = Chunk::decode(&[0xC3, 0x99]).unwrap();
    assert_eq!(used, 1);
    assert_eq!(chunk.basic_header.get_fmt(), 3);
    assert!(chunk.chunk_data.is_empty());
}

#[test]
fn chunk_short_payload_fails() {
    let bytes = [0x03, 0x00, 0x00, 0x00, 0x00, 0x00, 0x05, 0x14, 0x00, 0x00, 0x00, 0x00, 1, 2];
    assert_eq!(Chunk::decode(&bytes).unwrap_err(), RtmpError::ShortRead);
    assert_eq!(Chunk::decode(&[]).unwrap_err(), RtmpError::ShortRead);
    assert_eq!(Chunk::decode(&[0x43, 0x00]).unwrap_err(), RtmpError::ShortRead);
}
