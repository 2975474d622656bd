use rtmp_chunk::{Chunk, Demultiplexer, MessageKind, RtmpError};

fn type0(cs_id: u8, type_id: u8) -> Chunk {
    let bytes = [cs_id, 0, 0, 0, 0, 0, 0, type_id, 0, 0, 0, 0];
    Chunk::decode(&bytes).unwrap().0
}

fn type3(cs_id: u8) -> Chunk {
    Chunk::decode(&[0xC0 | cs_id]).unwrap().0
}

#[test]
fn type3_on_unknown_stream_fails() {
    let mut demux = Demultiplexer::new();
    assert_eq!(demux.resolve(&type3(5)), Err(RtmpError::UnknownChunkStream(5)));
    assert_eq!(demux.last_message_type_id(5), None);
    let type2 = Chunk::decode(&[0x85, 0, 0, 1]).unwrap().0;
    assert_eq!(demux.resolve(&type2), Err(RtmpError::UnknownChunkStream(5)));
}

#[test]
fn type3_inherits_type_id_of_type0() {
    let mut demux = Demultiplexer::new();
    assert_eq!(demux.resolve(&type0(3, 20)), Ok(20));
    assert_eq!(demux.resolve(&type3(3)), Ok(20));
    assert_eq!(demux.last_message_type_id(3), Some(20));
}

#[test]
fn interleaved_streams_keep_their_own_state() {
    let mut demux = Demultiplexer::new();
    assert_eq!(demux.resolve(&type0(2, 1)), Ok(1));
    assert_eq!(demux.resolve(&type0(3, 20)), Ok(20));
    for _ in 0..3 {
        assert_eq!(demux.resolve(&type3(2)), Ok(1));
        assert_eq!(demux.resolve(&type3(3)), Ok(20));
    }
    assert_eq!(demux.resolve(&type0(2, 5)), Ok(5));
    assert_eq!(demux.resolve(&type3(3)), Ok(20));
    assert_eq!(demux.resolve(&type3(2)), Ok(5));
}

#[test]
fn message_kinds_by_type_id() {
    assert_eq!(MessageKind::from_type_id(1), MessageKind::SetChunkSize);
    assert_eq!(MessageKind::from_type_id(5), MessageKind::WindowAcknowledgementSize);
    assert_eq!(MessageKind::from_type_id(9), MessageKind::Video);
    assert_eq!(MessageKind::from_type_id(20), MessageKind::CommandAmf0);
    assert_eq!(MessageKind::from_type_id(22), MessageKind::Aggregate);
    assert_eq!(MessageKind::from_type_id(7), MessageKind::Unknown);
    assert_eq!(MessageKind::from_type_id(255), MessageKind::Unknown);
}
