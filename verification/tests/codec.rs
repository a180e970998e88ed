use latency_handshake::big_endian::{get_be, put_be};
use latency_handshake::clock::{millis_since_epoch, Elapsed};
use latency_handshake::unix_now_ms;
use latency_handshake::{LatencyTest, LatencyTestError, MAGIC_NUMBER};

fn timestamp_bytes(value: u128) -> Vec<u8> {
    let mut out = Vec::new();
    for i in 0..16u32 {
        out.push((value >> (8 * (15 - i))) as u8);
    }
    out
}

fn samples() -> Vec<LatencyTest> {
    vec![
        LatencyTest::InitialRequest { magic: MAGIC_NUMBER },
        LatencyTest::FirstReply { magic: MAGIC_NUMBER, server_time: 1 },
        LatencyTest::FirstResponse { magic: MAGIC_NUMBER, server_time: 0, client_time: u128::MAX },
        LatencyTest::SecondReply {
            magic: MAGIC_NUMBER,
            server_time: 0x0102_0304_0506_0708_090A_0B0C_0D0E_0F10,
            client_time: 256,
            server_ack_time: 65_536,
        },
        LatencyTest::Final {
            magic: MAGIC_NUMBER,
            server_time: 1000,
            client_time: 900,
            server_ack_time: 1050,
            client_ack_time: 1100,
        },
    ]
}

#[test]
fn encode_decode_initial() {
    let message = LatencyTest::InitialRequest { magic: MAGIC_NUMBER };
    let bytes = message.encode();
    let decoded = LatencyTest::decode(&bytes).unwrap();
    assert_eq!(message, decoded);
}

#[test]
fn encode_decode_first_reply() {
    let message = LatencyTest::FirstReply { magic: MAGIC_NUMBER, server_time: unix_now_ms() };
    let bytes = message.encode();
    let decoded = LatencyTest::decode(&bytes).unwrap();
    assert_eq!(message, decoded);
}

#[test]
fn encode_decode_first_response() {
    let message = LatencyTest::FirstResponse {
        magic: MAGIC_NUMBER,
        server_time: unix_now_ms(),
        client_time: unix_now_ms() + 30,
    };
    let bytes = message.encode();
    let decoded = LatencyTest::decode(&bytes).unwrap();
    assert_eq!(message, decoded);
}

#[test]
fn encode_decode_second_reply() {
    let message = LatencyTest::SecondReply {
        magic: MAGIC_NUMBER,
        server_time: unix_now_ms(),
        client_time: unix_now_ms() + 30,
        server_ack_time: unix_now_ms() + 60,
    };
    let bytes = message.encode();
    let decoded = LatencyTest::decode(&bytes).unwrap();
    assert_eq!(message, decoded);
}

#[test]
fn encode_decode_final() {
    let message = LatencyTest::Final {
        magic: MAGIC_NUMBER,
        server_time: unix_now_ms(),
        client_time: unix_now_ms() + 30,
        server_ack_time: unix_now_ms() + 60,
        client_ack_time: unix_now_ms() + 90,
    };
    let bytes = message.encode();
    let decoded = LatencyTest::decode(&bytes).unwrap();
    assert_eq!(message, decoded);
}

#[test]
fn magic_number_value() {
    assert_eq!(MAGIC_NUMBER, 0xBE47);
}

#[test]
fn clock_reads_a_time_after_the_epoch() {
    // 2020-09-13, in milliseconds.
    assert!(unix_now_ms() > 1_600_000_000_000);
    let first = unix_now_ms();
    assert!(first < 100_000_000_000_000);
}

#[test]
fn millis_of_a_time_since_the_epoch() {
    assert_eq!(millis_since_epoch(Ok(Elapsed { secs: 1, subsec_nanos: 500_000_000 })), 1_500);
    assert_eq!(millis_since_epoch(Ok(Elapsed { secs: 2, subsec_nanos: 999_999 })), 2_000);
    assert_eq!(millis_since_epoch(Ok(Elapsed { secs: 3, subsec_nanos: 7_000_000 })), 3_007);
    assert_eq!(millis_since_epoch(Ok(Elapsed { secs: 0, subsec_nanos: 0 })), 0);
    assert_eq!(
        millis_since_epoch(Ok(Elapsed { secs: u64::MAX, subsec_nanos: 999_999_999 })),
        18_446_744_073_709_551_615_999
    );
}

#[test]
fn millis_agree_with_the_duration() {
    for span in [
        std::time::Duration::from_millis(1_500),
        std::time::Duration::new(2, 999_999),
        std::time::Duration::new(1_700_000_000, 123_456_789),
        std::time::Duration::MAX,
    ] {
        let elapsed = Elapsed { secs: span.as_secs(), subsec_nanos: span.subsec_nanos() };
        assert_eq!(millis_since_epoch(Ok(elapsed)), span.as_millis());
    }
}

#[test]
fn millis_of_a_reading_before_the_epoch() {
    let later = web_time::UNIX_EPOCH + std::time::Duration::from_secs(60);
    let before = web_time::UNIX_EPOCH.duration_since(later);
    assert!(before.is_err());
    let before = before.map(|span| Elapsed {
        secs: span.as_secs(),
        subsec_nanos: span.subsec_nanos(),
    });
    assert_eq!(millis_since_epoch(before), 0);
}

#[test]
fn encode_initial_request_exact_bytes() {
    let bytes = LatencyTest::InitialRequest { magic: MAGIC_NUMBER }.encode();
    assert_eq!(bytes, vec![0xBE, 0x47, 0x00, 0x01]);
}

#[test]
fn encode_first_reply_exact_bytes() {
    let bytes = LatencyTest::FirstReply {
        magic: MAGIC_NUMBER,
        server_time: 0x0102_0304_0506_0708_090A_0B0C_0D0E_0F10,
    }
    .encode();
    assert_eq!(
        bytes,
        vec![
            0xBE, 0x47, 0x00, 0x02, 0x01, 0x02, 0x03, 0x04, 0x05, 0x06, 0x07, 0x08, 0x09, 0x0A,
            0x0B, 0x0C, 0x0D, 0x0E, 0x0F, 0x10
        ]
    );
}

#[test]
fn encode_final_exact_bytes() {
    let bytes = LatencyTest::Final {
        magic: MAGIC_NUMBER,
        server_time: 1000,
        client_time: 900,
        server_ack_time: 1050,
        client_ack_time: u128::MAX,
    }
    .encode();
    let mut expected = vec![0xBE, 0x47, 0x00, 0x05];
    expected.extend(timestamp_bytes(1000));
    expected.extend(timestamp_bytes(900));
    expected.extend(timestamp_bytes(1050));
    expected.extend(vec![0xFF; 16]);
    assert_eq!(bytes, expected);
    assert_eq!(&bytes[18..20], &[0x03, 0xE8]);
}

#[test]
fn encode_writes_the_magic_it_is_given() {
    let bytes = LatencyTest::InitialRequest { magic: 0x1234 }.encode();
    assert_eq!(bytes, vec![0x12, 0x34, 0x00, 0x01]);
    assert_eq!(LatencyTest::decode(&bytes), Err(LatencyTestError::InvalidMagic));
}

#[test]
fn frame_length_follows_the_opcode() {
    let lengths: Vec<usize> = samples().iter().map(|m| m.encode().len()).collect();
    assert_eq!(lengths, vec![4, 20, 36, 52, 68]);
}

#[test]
fn round_trip_for_all_variants() {
    for m in samples() {
        assert_eq!(LatencyTest::decode(&m.encode()), Ok(m));
    }
}

#[test]
fn decode_exact_frame() {
    let mut frame = vec![0xBE, 0x47, 0x00, 0x03];
    frame.extend(timestamp_bytes(7));
    frame.extend(timestamp_bytes(0x0100));
    assert_eq!(
        LatencyTest::decode(&frame),
        Ok(LatencyTest::FirstResponse { magic: MAGIC_NUMBER, server_time: 7, client_time: 256 })
    );
}

#[test]
fn decode_ignores_trailing_bytes() {
    for m in samples() {
        let mut frame = m.encode();
        frame.extend(vec![0xAA, 0xBB, 0xCC]);
        assert_eq!(LatencyTest::decode(&frame), Ok(m));
    }
}

#[test]
fn decode_wrong_magic_is_invalid_magic() {
    assert_eq!(LatencyTest::decode(&[0x00, 0x00]), Err(LatencyTestError::InvalidMagic));
    assert_eq!(LatencyTest::decode(&[0x47, 0xBE, 0x00, 0x01]), Err(LatencyTestError::InvalidMagic));
    assert_eq!(LatencyTest::decode(&[0xBE, 0x46, 0x00, 0x09]), Err(LatencyTestError::InvalidMagic));
    for m in samples() {
        let mut frame = m.encode();
        frame[1] = 0x48;
        assert_eq!(LatencyTest::decode(&frame), Err(LatencyTestError::InvalidMagic));
    }
}

#[test]
fn decode_truncated_frames() {
    for m in samples() {
        let frame = m.encode();
        for kept in 0..frame.len() {
            assert_eq!(
                LatencyTest::decode(&frame[..kept]),
                Err(LatencyTestError::Truncated),
                "{:?} cut to {} bytes",
                m,
                kept
            );
        }
    }
}

#[test]
fn decode_empty_buffer_is_truncated() {
    assert_eq!(LatencyTest::decode(&[]), Err(LatencyTestError::Truncated));
    assert_eq!(LatencyTest::decode(&[0xBE]), Err(LatencyTestError::Truncated));
    assert_eq!(LatencyTest::decode(&[0xBE, 0x47]), Err(LatencyTestError::Truncated));
    assert_eq!(LatencyTest::decode(&[0xBE, 0x47, 0x00]), Err(LatencyTestError::Truncated));
}

#[test]
fn decode_unknown_opcodes() {
    assert_eq!(LatencyTest::decode(&[0xBE, 0x47, 0x00, 0x00]), Err(LatencyTestError::UnknownOpcode));
    assert_eq!(LatencyTest::decode(&[0xBE, 0x47, 0x00, 0x06]), Err(LatencyTestError::UnknownOpcode));
    assert_eq!(LatencyTest::decode(&[0xBE, 0x47, 0x01, 0x01]), Err(LatencyTestError::UnknownOpcode));
    assert_eq!(LatencyTest::decode(&[0xBE, 0x47, 0xFF, 0xFF]), Err(LatencyTestError::UnknownOpcode));
    let mut long = vec![0xBE, 0x47, 0x00, 0x07];
    long.extend(vec![0u8; 80]);
    assert_eq!(LatencyTest::decode(&long), Err(LatencyTestError::UnknownOpcode));
}

#[test]
fn decoded_message_encodes_to_the_frame_it_came_from() {
    let mut frame = vec![0xBE, 0x47, 0x00, 0x04];
    for b in 0..48u8 {
        frame.push(b.wrapping_mul(7));
    }
    frame.extend(vec![0xEE, 0xEE]);
    let message = LatencyTest::decode(&frame).unwrap();
    assert_eq!(message.encode(), frame[..52].to_vec());
}

#[test]
fn put_be_writes_most_significant_byte_first() {
    let mut buf = vec![0xAA];
    put_be(&mut buf, 0x0102, 2);
    assert_eq!(buf, vec![0xAA, 0x01, 0x02]);
    put_be(&mut buf, 7, 0);
    assert_eq!(buf, vec![0xAA, 0x01, 0x02]);
    put_be(&mut buf, 0x0A0B_0C0D, 3);
    assert_eq!(buf, vec![0xAA, 0x01, 0x02, 0x0B, 0x0C, 0x0D]);
    let mut wide = Vec::new();
    put_be(&mut wide, u128::MAX, 17);
    let mut expected = vec![0x00];
    expected.extend(vec![0xFF; 16]);
    assert_eq!(wide, expected);
}

#[test]
fn get_be_reads_most_significant_byte_first() {
    let bytes = [0x00, 0x01, 0x02, 0x03, 0xFF];
    assert_eq!(get_be(&bytes, 1, 2), 0x0102);
    assert_eq!(get_be(&bytes, 0, 4), 0x0001_0203);
    assert_eq!(get_be(&bytes, 4, 1), 0xFF);
    assert_eq!(get_be(&bytes, 5, 0), 0);
    assert_eq!(get_be(&[0xFF; 16], 0, 16), u128::MAX);
}

#[test]
fn codec_errors_in_words() {
    assert_eq!(LatencyTestError::Truncated.message(), "Error reading byte data");
    assert_eq!(LatencyTestError::InvalidMagic.message(), "Invalid magic number");
    assert_eq!(LatencyTestError::UnknownOpcode.message(), "Bad request number");
}
