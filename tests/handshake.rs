use rtmp_chunk::{timestamp, Handshake, HandshakeChunk1, HandshakePhase, HandshakeStep, RtmpError};

fn written(step: HandshakeStep) -> Vec<u8> {
    match step {
        HandshakeStep::Write(bytes) => bytes,
        other => panic!("expected a write, got {:?}", other),
    }
}

#[test]
fn handshake_echoes_c1() {
    let random: Vec<u8> = (0..1528).map(|i| (i * 7 % 251) as u8).collect();
    let mut c1 = vec![0x00, 0x00, 0x00, 0x01, 0x00, 0x00, 0x00, 0x00];
    c1.extend_from_slice(&random);

    let mut hs = Handshake::new();
    assert!(matches!(hs.next_step(), HandshakeStep::Read(1)));
    hs.on_read(&[0x03]).unwrap();
    assert_eq!(written(hs.next_step()), vec![0x03]);
    hs.on_written(0x1_2345_6789).unwrap();
    let s1 = written(hs.next_step());
    assert_eq!(s1.len(), 1536);
    assert_eq!(s1[..8].to_vec(), vec![0x23, 0x45, 0x67, 0x89, 0, 0, 0, 0]);
    hs.on_written(0).unwrap();
    assert!(matches!(hs.next_step(), HandshakeStep::Read(1536)));
    hs.on_read(&c1).unwrap();
    let s2 = written(hs.next_step());
    assert_eq!(s2[..4].to_vec(), vec![0, 0, 0, 1]);
    assert_eq!(s2[4..8].to_vec(), vec![0, 0, 0, 0]);
    assert_eq!(s2[8..].to_vec(), random);
    hs.on_written(0).unwrap();
    hs.on_read(&c1).unwrap();
    assert_eq!(hs.phase, HandshakePhase::Done);
    assert!(matches!(hs.next_step(), HandshakeStep::Finished));
}

#[test]
fn server_version_is_3_whatever_the_client_offers() {
    let mut hs = Handshake::new();
    hs.on_read(&[0x06]).unwrap();
    assert_eq!(hs.c0.version, [0x06]);
    assert_eq!(written(hs.next_step()), vec![0x03]);
}

#[test]
fn handshake_rejects_out_of_turn_input() {
    let mut hs = Handshake::new();
    assert_eq!(hs.on_read(&[3, 3]), Err(RtmpError::UnexpectedHandshakeInput));
    assert_eq!(hs.on_written(0), Err(RtmpError::UnexpectedHandshakeInput));
    assert_eq!(hs.phase, HandshakePhase::AwaitC0);
    hs.on_read(&[3]).unwrap();
    assert_eq!(hs.on_read(&[3]), Err(RtmpError::UnexpectedHandshakeInput));
    assert_eq!(hs.phase, HandshakePhase::SendS0);
}

#[test]
fn s1_prepare_stamps_time_and_zero() {
    let mut s1 = HandshakeChunk1::new();
    s1.zero = [9, 9, 9, 9];
    s1.prepare(1000);
    assert_eq!(s1.time, [0, 0, 0x03, 0xE8]);
    assert_eq!(s1.zero, [0, 0, 0, 0]);
    let mut out = Vec::new();
    s1.write(&mut out);
    assert_eq!(out.len(), 1536);
}

#[test]
fn timestamp_truncates_to_32_bits() {
    assert_eq!(timestamp(5), 5);
    assert_eq!(timestamp(0x1_0000_0005), 5);
    assert_eq!(timestamp(1_700_000_000_000), (1_700_000_000_000u128 % (1u128 << 32)) as u32);
}
