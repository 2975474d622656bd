use rtmp_chunk::{MessageHeader, MessageHeaderType0, RtmpError};

#[test]
fn type0_header_fields() {
    let bytes = [0x00, 0x00, 0x0A, 0x00, 0x00, 0x05, 0x14, 0x00, 0x00, 0x00, 0x00];
    let header = MessageHeader::decode(0, &bytes, 0).unwrap();
    assert_eq!(header.get_timestamp(), Some(10));
    assert_eq!(header.get_message_length(), Some(5));
    assert_eq!(header.get_message_type_id(), Some(20));
    assert_eq!(header.get_message_stream_id(), Some(0));
    assert_eq!(header.get_timestamp_delta(), None);
}

#[test]
fn type1_and_type2_fields_and_absences() {
    let bytes = [0x01, 0x02, 0x03, 0x00, 0x01, 0x00, 0x09];
    let header = MessageHeader::decode(1, &bytes, 0).unwrap();
    assert_eq!(header.get_timestamp(), None);
    assert_eq!(header.get_timestamp_delta(), Some(0x010203));
    assert_eq!(header.get_message_length(), Some(256));
    assert_eq!(header.get_message_type_id(), Some(9));
    assert_eq!(header.get_message_stream_id(), None);

    let header = MessageHeader::decode(2, &[0xff, 0xff, 0xff], 0).unwrap();
    assert_eq!(header.get_timestamp_delta(), Some(0xffffff));
    assert_eq!(header.get_message_length(), None);
    assert_eq!(header.get_message_type_id(), None);

    let header = MessageHeader::decode(3, &[], 0).unwrap();
    assert_eq!(header.get_timestamp(), None);
    assert_eq!(header.get_timestamp_delta(), None);
    assert_eq!(header.get_message_length(), None);
    assert_eq!(header.get_message_type_id(), None);
    assert_eq!(header.get_message_stream_id(), None);
}

#[test]
fn message_header_decodes_at_offset() {
    let bytes = [0xAA, 0x00, 0x00, 0x07];
    let header = MessageHeader::decode(2, &bytes, 1).unwrap();
    assert_eq!(header.get_timestamp_delta(), Some(7));
}

#[test]
fn message_header_short_input() {
    let bytes = [0u8; 10];
    assert_eq!(MessageHeader::decode(0, &bytes, 0).unwrap_err(), RtmpError::ShortRead);
    assert_eq!(MessageHeader::decode(1, &bytes, 4).unwrap_err(), RtmpError::ShortRead);
    assert_eq!(MessageHeader::decode(2, &bytes, 8).unwrap_err(), RtmpError::ShortRead);
}

#[test]
fn type0_from_values_is_big_endian() {
    let header = MessageHeaderType0::new_from_values(0x010203, 0x000405, 20, 0x0A0B0C0D);
    assert_eq!(
        header.data,
        [0x01, 0x02, 0x03, 0x00, 0x04, 0x05, 20, 0x0A, 0x0B, 0x0C, 0x0D]
    );
    let decoded = MessageHeader::Type0(header);
    assert_eq!(decoded.get_timestamp(), Some(0x010203));
    assert_eq!(decoded.get_message_length(), Some(0x0405));
    assert_eq!(decoded.get_message_stream_id(), Some(0x0A0B0C0D));
    let mut out = Vec::new();
    decoded.write(&mut out);
    assert_eq!(out, header.data.to_vec());
}
