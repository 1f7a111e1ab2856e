use mill_matter::bytes::{
    i64_from_le_bytes, i64_to_le_bytes, u16_from_le_bytes, u16_to_le_bytes, u32_to_le_bytes,
};
use mill_matter::hex::{hex, spaced_hex};
use mill_matter::mill::{
    bytes_eq, checksum, envelope, opcode, power_command, setpoint_command, Decoder, Hex, Received,
    Status, END, MAX_PAYLOAD, OPCODE_SET_POWER, OPCODE_SET_SETPOINT, OPCODE_STATUS, POWER_TEMPLATE,
    SETPOINT_TEMPLATE, START,
};

/// What a decoder hands over, as owned values.
#[derive(Debug, PartialEq)]
enum Taken {
    Frame(Vec<u8>),
    BadChecksum(Vec<u8>),
    TooLong,
}

fn feed(decoder: &mut Decoder, bytes: &[u8]) -> Vec<Taken> {
    let mut taken = Vec::new();
    for byte in bytes {
        match decoder.push(*byte) {
            Some(Received::Frame(payload)) => taken.push(Taken::Frame(payload.to_vec())),
            Some(Received::BadChecksum(payload)) => {
                taken.push(Taken::BadChecksum(payload.to_vec()))
            }
            Some(Received::TooLong) => taken.push(Taken::TooLong),
            None => {}
        }
    }
    taken
}

fn framed(payload: &[u8]) -> Vec<u8> {
    let mut frame = vec![START];
    frame.extend_from_slice(payload);
    frame.push(checksum(payload));
    frame.push(END);
    frame
}

fn status_payload(setpoint: u8, room: u8, mode: u8, element: u8) -> Vec<u8> {
    vec![0, 0, 0, 0, OPCODE_STATUS, 0, setpoint, room, 0, mode, 0, element]
}

#[test]
fn power_on_matches_the_wire() {
    assert_eq!(
        power_command(true),
        [
            0x5A, 0x00, 0x10, 0x06, 0x00, 0x47, 0x01, 0x00, 0x00, 0x00, 0x00, 0x00, 0x00, 0x00,
            0x5E, 0x5B
        ]
    );
}

#[test]
fn power_off_matches_the_wire() {
    assert_eq!(
        power_command(false),
        [
            0x5A, 0x00, 0x10, 0x06, 0x00, 0x47, 0x00, 0x00, 0x00, 0x00, 0x00, 0x00, 0x00, 0x00,
            0x5D, 0x5B
        ]
    );
}

#[test]
fn setpoint_21_matches_the_wire() {
    assert_eq!(
        setpoint_command(21),
        [
            0x5A, 0x00, 0x10, 0x22, 0x00, 0x46, 0x01, 0x00, 0x15, 0x00, 0x00, 0x00, 0x00, 0x00,
            0x8E, 0x5B
        ]
    );
}

#[test]
fn templates_carry_their_opcodes() {
    assert_eq!(opcode(&POWER_TEMPLATE), Some(OPCODE_SET_POWER));
    assert_eq!(opcode(&SETPOINT_TEMPLATE), Some(OPCODE_SET_SETPOINT));
    assert_eq!(opcode(&[1, 2, 3, 4]), None);
    assert_eq!(opcode(&[1, 2, 3, 4, 5]), Some(5));
}

#[test]
fn checksum_is_the_truncated_sum() {
    assert_eq!(checksum(&[]), 0);
    assert_eq!(checksum(&[0x10, 0x06, 0x47, 0x01]), 0x5E);
    assert_eq!(checksum(&[0xff, 0xff, 0x03]), 0x01);
}

#[test]
fn envelope_wraps_a_payload() {
    let payload = [1, 2, 3, 4, 5, 6, 7, 8, 9, 10, 11, 12, 13];
    assert_eq!(envelope(payload), [0x5A, 1, 2, 3, 4, 5, 6, 7, 8, 9, 10, 11, 12, 13, 91, 0x5B]);
}

#[test]
fn bytes_are_compared_whole() {
    assert!(bytes_eq(&[], &[]));
    assert!(bytes_eq(&[1, 2], &[1, 2]));
    assert!(!bytes_eq(&[1, 2], &[1, 3]));
    assert!(!bytes_eq(&[1, 2], &[1, 2, 3]));
}

#[test]
fn status_is_parsed() {
    assert_eq!(
        Status::parse(&status_payload(22, 19, 1, 5)),
        Some(Status {
            setpoint_c: Some(22),
            room_c: Some(19),
            heat_mode: Some(true),
            element_on: true
        })
    );
    assert_eq!(
        Status::parse(&status_payload(0, 0, 0, 0)),
        Some(Status { setpoint_c: None, room_c: None, heat_mode: Some(false), element_on: false })
    );
    assert_eq!(
        Status::parse(&status_payload(0, 0, 7, 0)),
        Some(Status { setpoint_c: None, room_c: None, heat_mode: None, element_on: false })
    );
    assert_eq!(Status::default(), Status {
        setpoint_c: None,
        room_c: None,
        heat_mode: None,
        element_on: false
    });
}

#[test]
fn only_status_frames_are_parsed() {
    let mut other = status_payload(22, 19, 1, 1);
    other[4] = 0xC8;
    assert_eq!(Status::parse(&other), None);
    assert_eq!(Status::parse(&status_payload(22, 19, 1, 1)[..11]), None);
    assert_eq!(Status::parse(&[]), None);
    let mut longer = status_payload(22, 19, 1, 1);
    longer.push(0xEE);
    assert!(Status::parse(&longer).is_some());
}

#[test]
fn frames_round_trip() {
    let payload = status_payload(22, 19, 1, 1);
    let mut decoder = Decoder::new();
    assert_eq!(feed(&mut decoder, &framed(&payload)), vec![Taken::Frame(payload.clone())]);
    assert_eq!(feed(&mut decoder, &framed(&payload)), vec![Taken::Frame(payload)]);
    let mut fresh = Decoder::default();
    assert_eq!(
        feed(&mut fresh, &setpoint_command(21)),
        vec![Taken::Frame(setpoint_command(21)[1..14].to_vec())]
    );
}

#[test]
fn longest_payload_fits() {
    let payload = vec![1; MAX_PAYLOAD - 1];
    let mut decoder = Decoder::new();
    assert_eq!(feed(&mut decoder, &framed(&payload)), vec![Taken::Frame(payload)]);
}

#[test]
fn oversized_frames_are_reported_once() {
    let payload = vec![1; MAX_PAYLOAD];
    let mut decoder = Decoder::new();
    assert_eq!(feed(&mut decoder, &framed(&payload)), vec![Taken::TooLong]);
    assert_eq!(feed(&mut decoder, &framed(&[7])), vec![Taken::Frame(vec![7])]);
}

#[test]
fn bad_checksums_are_not_believed() {
    let mut decoder = Decoder::new();
    assert_eq!(
        feed(&mut decoder, &[START, 1, 2, 4, END]),
        vec![Taken::BadChecksum(vec![1, 2])]
    );
    assert_eq!(feed(&mut decoder, &[START, 0, END]), vec![Taken::Frame(vec![])]);
}

#[test]
fn empty_frames_carry_nothing() {
    let mut decoder = Decoder::new();
    assert_eq!(feed(&mut decoder, &[START, END]), vec![]);
    assert_eq!(feed(&mut decoder, &[END, END]), vec![]);
}

#[test]
fn noise_between_frames_is_dropped() {
    let mut stream = vec![0, 1, 2, END, 3];
    stream.extend_from_slice(&framed(&[9, 9]));
    let mut decoder = Decoder::new();
    assert_eq!(feed(&mut decoder, &stream), vec![Taken::Frame(vec![9, 9])]);
}

#[test]
fn decoder_resynchronises_after_a_truncated_frame() {
    // The second frame's start marker lands in the first one's payload, so that one fails
    // its checksum; the third is taken whole.
    let mut stream = vec![START, 1, 2];
    stream.extend_from_slice(&framed(&[9, 9]));
    stream.extend_from_slice(&framed(&[8]));
    let mut decoder = Decoder::new();
    let taken = feed(&mut decoder, &stream);
    assert_eq!(taken.len(), 2);
    assert!(matches!(taken[0], Taken::BadChecksum(_)));
    assert_eq!(taken[1], Taken::Frame(vec![8]));
}

#[test]
fn stream_can_be_cut_anywhere() {
    let mut stream = framed(&[1, 2, 3]);
    stream.extend_from_slice(&framed(&[4]));
    let mut whole = Decoder::new();
    let expected = feed(&mut whole, &stream);
    for cut in 0..stream.len() {
        let mut decoder = Decoder::new();
        let mut taken = feed(&mut decoder, &stream[..cut]);
        taken.extend(feed(&mut decoder, &stream[cut..]));
        assert_eq!(taken, expected);
    }
}

#[test]
fn commands_that_hold_the_end_marker_do_not_survive() {
    // 0x5B as an argument ends the frame early; the protocol has no escape for it.
    let mut decoder = Decoder::new();
    let taken = feed(&mut decoder, &setpoint_command(0x5B));
    assert_ne!(taken, vec![Taken::Frame(setpoint_command(0x5B)[1..14].to_vec())]);
}

#[test]
fn received_values_are_compared_by_payload() {
    assert_eq!(Received::Frame(&[1]), Received::Frame(&[1]));
    assert_ne!(Received::Frame(&[1]), Received::BadChecksum(&[1]));
    assert_ne!(Received::TooLong, Received::Frame(&[]));
}

#[test]
fn hex_is_uppercase() {
    assert_eq!(hex(&[]), "");
    assert_eq!(hex(&[0x00, 0x1f, 0xa0, 0xff]), "001FA0FF");
    assert_eq!(hex(&[0x01, 0x23, 0x45, 0x67, 0x89, 0xAB, 0xCD, 0xEF]), "0123456789ABCDEF");
}

#[test]
fn logged_hex_is_spaced() {
    assert_eq!(spaced_hex(&[]), "");
    assert_eq!(spaced_hex(&[0x5A]), "5A");
    assert_eq!(Hex(&[0x5A, 0x00, 0xFF]).to_text(), "5A 00 FF");
}

#[test]
fn hex_tells_bytes_apart() {
    assert_ne!(hex(&[0x01, 0x10]), hex(&[0x10, 0x01]));
    assert_eq!(hex(&[1, 2, 3]).len(), 6);
}

#[test]
fn integers_round_trip_as_bytes() {
    assert_eq!(u16_to_le_bytes(0x1234), [0x34, 0x12]);
    assert_eq!(u16_from_le_bytes(0x34, 0x12), 0x1234);
    assert_eq!(u32_to_le_bytes(20202021), 20202021u32.to_le_bytes());
    for value in [0, 1, -1, 3600, i64::MAX, i64::MIN, 0x0123_4567_89AB_CDEF] {
        assert_eq!(i64_to_le_bytes(value), value.to_le_bytes());
        assert_eq!(i64_from_le_bytes(&value.to_le_bytes()), value);
    }
}
