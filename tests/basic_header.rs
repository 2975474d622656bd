use rtmp_chunk::{BasicHeader, BasicHeader1, BasicHeader2, BasicHeader3, RtmpError};

fn round_trip(fmt: u8, cs_id: u32) -> (u8, u32, usize) {
    let header = BasicHeader::from_values(fmt, cs_id);
    let mut bytes = Vec::new();
    header.write(&mut bytes);
    let decoded = BasicHeader::decode(&bytes).unwrap();
    assert_eq!(decoded.size(), bytes.len());
    (decoded.get_fmt(), decoded.get_cs_id(), bytes.len())
}

#[test]
fn one_byte_form_round_trips() {
    for fmt in 0..4u8 {
        for cs_id in 2..=63u32 {
            assert_eq!(round_trip(fmt, cs_id), (fmt, cs_id, 1));
        }
    }
}

#[test]
fn two_byte_form_round_trips() {
    for fmt in 0..4u8 {
        for cs_id in 64..=319u32 {
            assert_eq!(round_trip(fmt, cs_id), (fmt, cs_id, 2));
        }
    }
}

#[test]
fn three_byte_form_round_trips() {
    for fmt in 0..4u8 {
        for cs_id in [320u32, 321, 1000, 40000, 65598, 65599] {
            assert_eq!(round_trip(fmt, cs_id), (fmt, cs_id, 3));
        }
    }
}

#[test]
fn one_byte_from_values_packs_fmt_and_id() {
    let header = BasicHeader1::new_from_values(0, 2);
    assert_eq!(header.data, [0x02]);
    let header = BasicHeader1::new_from_values(3, 63);
    assert_eq!(header.data, [0xff]);
    assert_eq!(header.get_fmt(), 3);
    assert_eq!(header.get_cs_id(), 63);
}

#[test]
fn extended_forms_read_their_ids() {
    let two = BasicHeader2::new([0x40, 0x05]);
    assert_eq!(two.get_fmt(), 1);
    assert_eq!(two.get_cs_id(), 69);
    let three = BasicHeader3::new([0x81, 0x10, 0x02]);
    assert_eq!(three.get_fmt(), 2);
    assert_eq!(three.get_cs_id(), 2 * 256 + 0x10 + 64);
}

#[test]
fn extended_encodings_are_exact() {
    let mut bytes = Vec::new();
    BasicHeader::from_values(1, 64).write(&mut bytes);
    assert_eq!(bytes, vec![0x40, 0x00]);
    let mut bytes = Vec::new();
    BasicHeader::from_values(2, 65599).write(&mut bytes);
    assert_eq!(bytes, vec![0x81, 0xff, 0xff]);
}

#[test]
fn basic_header_short_input() {
    assert_eq!(BasicHeader::decode(&[]).unwrap_err(), RtmpError::ShortRead);
    assert_eq!(BasicHeader::decode(&[0x00]).unwrap_err(), RtmpError::ShortRead);
    assert_eq!(BasicHeader::decode(&[0x01, 0x00]).unwrap_err(), RtmpError::ShortRead);
    assert!(BasicHeader::decode(&[0x03]).is_ok());
}
