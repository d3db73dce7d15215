use modbus_relay::crc::calc_crc16;
use modbus_relay::errors::{
    FrameError, FrameFormatKind, FrameSizeKind, ProtocolErrorKind, RelayError, TransportError,
};
use modbus_relay::modbus::{
    build_exception_reply, build_rtu_frame, build_tcp_frame, copy_range, get_quantity,
    get_u16_from_request, guess_response_size, build_reply, MbapFrame, ModbusProcessor,
};

const TCP_IN: [u8; 12] = [0x00, 0x01, 0x00, 0x00, 0x00, 0x06, 0x11, 0x03, 0x00, 0x6B, 0x00, 0x03];
const RTU_OUT: [u8; 8] = [0x11, 0x03, 0x00, 0x6B, 0x00, 0x03, 0x76, 0x87];
const REPLY_BODY: [u8; 9] = [0x11, 0x03, 0x06, 0x02, 0x2B, 0x00, 0x00, 0x00, 0x64];
const TCP_OUT: [u8; 15] = [
    0x00, 0x01, 0x00, 0x00, 0x00, 0x09, 0x11, 0x03, 0x06, 0x02, 0x2B, 0x00, 0x00, 0x00, 0x64,
];

fn with_crc(body: &[u8]) -> Vec<u8> {
    let crc = calc_crc16(body);
    let mut frame = body.to_vec();
    frame.push((crc & 0xFF) as u8);
    frame.push((crc >> 8) as u8);
    frame
}

fn silence() -> RelayError {
    RelayError::Transport(TransportError::NoResponse { attempts: 3, elapsed_ms: 3000 })
}

#[test]
fn read_holding_registers_happy_path() {
    let frame = MbapFrame::parse(&TCP_IN).unwrap();
    assert_eq!(frame.transaction_id, [0x00, 0x01]);
    assert_eq!(frame.unit_id, 0x11);
    assert_eq!(frame.pdu, vec![0x03, 0x00, 0x6B, 0x00, 0x03]);

    let processor = ModbusProcessor::new();
    let request = processor.rtu_request(frame.unit_id, &frame.pdu).unwrap();
    assert_eq!(request.frame, RTU_OUT.to_vec());
    assert_eq!(request.expected_size, 11);

    let device_reply = with_crc(&REPLY_BODY);
    assert_eq!(device_reply.len(), request.expected_size);
    assert_eq!(&device_reply[9..], &[0xC8, 0xBA]);
    let reply = processor
        .process_request(frame.transaction_id, frame.unit_id, &frame.pdu, Ok(device_reply))
        .unwrap();
    assert_eq!(reply, TCP_OUT.to_vec());
}

#[test]
fn transport_silence_becomes_an_exception() {
    let processor = ModbusProcessor::new();
    let reply = processor
        .process_request([0x00, 0x01], 0x11, &TCP_IN[7..], Err(silence()))
        .unwrap();
    assert_eq!(reply, vec![0x00, 0x01, 0x00, 0x00, 0x00, 0x03, 0x11, 0x83, 0x0B]);
    let reply = processor
        .process_request(
            [0xAB, 0xCD],
            0x01,
            &[0x10, 0, 1, 0, 1, 2, 0, 5],
            Err(RelayError::Transport(TransportError::Timeout { elapsed_ms: 5000, limit_ms: 5000 })),
        )
        .unwrap();
    assert_eq!(reply, vec![0xAB, 0xCD, 0x00, 0x00, 0x00, 0x03, 0x01, 0x90, 0x0B]);
    assert_eq!(
        build_exception_reply([1, 2], 3, 0x04),
        vec![1, 2, 0, 0, 0, 3, 3, 0x84, 0x0B]
    );
}

#[test]
fn crc_mismatch_is_an_error() {
    let processor = ModbusProcessor::new();
    let mut reply = REPLY_BODY.to_vec();
    reply.extend_from_slice(&[0x00, 0x00]);
    match processor.process_request([0x00, 0x01], 0x11, &TCP_IN[7..], Ok(reply)) {
        Err(RelayError::Frame(FrameError::Crc { calculated, received, frame_hex })) => {
            assert_eq!(calculated, 0xBAC8);
            assert_eq!(received, 0x0000);
            assert_eq!(frame_hex, "110306022b00000064");
        }
        other => panic!("unexpected {:?}", other),
    }
    let mut reply = REPLY_BODY.to_vec();
    reply.extend_from_slice(&[0xBF, 0x77]);
    match processor.process_request([0x00, 0x01], 0x11, &TCP_IN[7..], Ok(reply)) {
        Err(RelayError::Frame(FrameError::Crc { calculated, received, .. })) => {
            assert_eq!(calculated, 0xBAC8);
            assert_eq!(received, 0x77BF);
        }
        other => panic!("unexpected {:?}", other),
    }
}

#[test]
fn short_responses_are_refused() {
    for len in 0..5usize {
        let bytes = REPLY_BODY[..len].to_vec();
        match build_reply([0, 1], 0x11, 0x03, Ok(bytes.clone())) {
            Err(RelayError::Frame(FrameError::Size { kind, details, frame_data })) => {
                assert_eq!(kind, FrameSizeKind::TooShort);
                assert_eq!(details, format!("RTU response too short: {} bytes", len));
                assert_eq!(frame_data, Some(bytes));
            }
            other => panic!("unexpected {:?}", other),
        }
    }
    let five = with_crc(&[0x11, 0x83, 0x02]);
    assert_eq!(five.len(), 5);
    assert_eq!(
        build_reply([0, 1], 0x11, 0x03, Ok(five)).unwrap(),
        vec![0, 1, 0, 0, 0, 3, 0x11, 0x83, 0x02]
    );
}

#[test]
fn responses_of_another_unit_are_refused() {
    let reply = with_crc(&[0x12, 0x03, 0x02, 0x00, 0x01]);
    match build_reply([0, 1], 0x11, 0x03, Ok(reply)) {
        Err(RelayError::Protocol { kind, details, source }) => {
            assert_eq!(kind, ProtocolErrorKind::InvalidUnitId);
            assert_eq!(
                details,
                "Unexpected unit ID in RTU response: expected=0x11, received=0x12"
            );
            assert_eq!(source, None);
        }
        other => panic!("unexpected {:?}", other),
    }
    let reply = with_crc(&[0xFE, 0x03, 0x02, 0x00, 0x01]);
    match build_reply([0, 1], 0x0A, 0x03, Ok(reply)) {
        Err(RelayError::Protocol { details, .. }) => assert_eq!(
            details,
            "Unexpected unit ID in RTU response: expected=0x0A, received=0xFE"
        ),
        other => panic!("unexpected {:?}", other),
    }
}

#[test]
fn requests_without_their_quantity_are_refused() {
    let processor = ModbusProcessor::new();
    for pdu in [vec![0x03u8], vec![0x01, 0x00], vec![0x10, 0x00], vec![0x0F]] {
        let expected_frame = build_rtu_frame(0x11, &pdu);
        match processor.rtu_request(0x11, &pdu) {
            Err(RelayError::Frame(FrameError::Format { kind, details, frame_data })) => {
                assert_eq!(kind, FrameFormatKind::InvalidFormat);
                assert_eq!(details, "Request too short for register quantity");
                assert_eq!(frame_data, Some(expected_frame));
            }
            other => panic!("unexpected {:?}", other),
        }
        assert!(matches!(
            processor.process_request([0, 1], 0x11, &pdu, Err(silence())),
            Err(RelayError::Frame(FrameError::Format { .. }))
        ));
    }
    let request = processor.rtu_request(0x11, &[]).unwrap();
    assert_eq!(request.frame, with_crc(&[0x11]));
    assert_eq!(request.expected_size, 256);
    assert_eq!(
        processor.process_request([0, 9], 0x11, &[], Err(silence())).unwrap(),
        vec![0, 9, 0, 0, 0, 3, 0x11, 0x80, 0x0B]
    );
    let request = processor.rtu_request(0x11, &[0x05, 0x00]).unwrap();
    assert_eq!(request.expected_size, 8);
    let request = processor.rtu_request(0x11, &[0x03, 0x00, 0x6B]).unwrap();
    let crc = calc_crc16(&[0x11, 0x03, 0x00, 0x6B]);
    let quantity = (((crc & 0xFF) as usize) << 8) | (crc >> 8) as usize;
    assert_eq!(request.expected_size, 5 + 2 * quantity);
}

#[test]
fn request_frames_end_in_their_crc() {
    for pdu in [vec![], vec![0x03u8, 0x00, 0x6B, 0x00, 0x03], vec![0x2B; 253]] {
        for unit in [0u8, 1, 0x11, 247, 255] {
            let frame = build_rtu_frame(unit, &pdu);
            let n = frame.len();
            assert_eq!(n, pdu.len() + 3);
            assert_eq!(frame[0], unit);
            assert_eq!(&frame[1..n - 2], &pdu[..]);
            let crc = calc_crc16(&frame[..n - 2]);
            assert_eq!(frame[n - 2], (crc & 0xFF) as u8);
            assert_eq!(frame[n - 1], (crc >> 8) as u8);
        }
    }
    assert_eq!(build_rtu_frame(0x11, &TCP_IN[7..]), RTU_OUT.to_vec());
}

fn reference_response(unit: u8, function: u8, quantity: u16) -> Vec<u8> {
    let body = match function {
        0x01 | 0x02 => {
            let count = (quantity as usize + 7) / 8;
            let mut body = vec![unit, function, count as u8];
            body.extend(std::iter::repeat(0xAA).take(count));
            body
        }
        0x03 | 0x04 => {
            let count = quantity as usize * 2;
            let mut body = vec![unit, function, count as u8];
            body.extend(std::iter::repeat(0x55).take(count));
            body
        }
        _ => vec![unit, function, 0x00, 0x10, (quantity >> 8) as u8, quantity as u8],
    };
    with_crc(&body)
}

#[test]
fn estimator_matches_a_reference_responder() {
    for function in [0x01u8, 0x02, 0x03, 0x04, 0x05, 0x06, 0x0F, 0x10] {
        for quantity in [1u16, 8, 125] {
            assert_eq!(
                guess_response_size(function, quantity),
                reference_response(0x11, function, quantity).len(),
                "function {:#04x}, quantity {}",
                function,
                quantity
            );
        }
    }
}

#[test]
fn estimator_values() {
    assert_eq!(guess_response_size(0x01, 1), 6);
    assert_eq!(guess_response_size(0x01, 8), 6);
    assert_eq!(guess_response_size(0x02, 9), 7);
    assert_eq!(guess_response_size(0x02, 125), 21);
    assert_eq!(guess_response_size(0x01, 0), 5);
    assert_eq!(guess_response_size(0x03, 1), 7);
    assert_eq!(guess_response_size(0x04, 125), 255);
    assert_eq!(guess_response_size(0x03, 65535), 131075);
    assert_eq!(guess_response_size(0x01, 65535), 8197);
    for function in [0x05u8, 0x06, 0x0F, 0x10] {
        assert_eq!(guess_response_size(function, 1), 8);
        assert_eq!(guess_response_size(function, 65535), 8);
    }
    for function in [0x00u8, 0x07, 0x0E, 0x11, 0x2B, 0x83, 0xFF] {
        assert_eq!(guess_response_size(function, 10), 256);
    }
}

#[test]
fn quantity_comes_from_bytes_four_and_five() {
    for function in [0x01u8, 0x02, 0x03, 0x04, 0x0F, 0x10] {
        assert_eq!(get_quantity(function, &RTU_OUT).unwrap(), 3);
        assert_eq!(get_quantity(function, &[0, 0, 0, 0, 0x12, 0x34]).unwrap(), 0x1234);
        match get_quantity(function, &[0x11, function, 0x00, 0x6B, 0x00]) {
            Err(RelayError::Frame(FrameError::Format { kind, details, frame_data })) => {
                assert_eq!(kind, FrameFormatKind::InvalidFormat);
                assert_eq!(details, "Request too short for register quantity");
                assert_eq!(frame_data, Some(vec![0x11, function, 0x00, 0x6B, 0x00]));
            }
            other => panic!("unexpected {:?}", other),
        }
    }
    for function in [0x00u8, 0x05, 0x06, 0x07, 0x11, 0xFF] {
        assert_eq!(get_quantity(function, &RTU_OUT).unwrap(), 1);
        assert_eq!(get_quantity(function, &[]).unwrap(), 1);
    }
    assert_eq!(get_u16_from_request(&[1, 2, 3], 1).unwrap(), 0x0203);
    assert_eq!(get_u16_from_request(&[0xFF, 0xFE], 0).unwrap(), 0xFFFE);
    assert!(get_u16_from_request(&[1, 2, 3], 2).is_err());
    assert!(get_u16_from_request(&[], 0).is_err());
    assert!(get_u16_from_request(&[1, 2, 3], usize::MAX).is_err());
    assert_eq!(copy_range(&[1, 2, 3, 4], 1, 3), vec![2, 3]);
}

#[test]
fn mbap_frames_are_six_bytes_longer_than_their_length_field() {
    for pdu_len in [0usize, 1, 5, 100, 248] {
        let frame = MbapFrame { transaction_id: [0x12, 0x34], unit_id: 7, pdu: vec![0x5A; pdu_len] };
        let bytes = frame.to_bytes();
        let length = ((bytes[4] as usize) << 8) | bytes[5] as usize;
        assert_eq!(length, pdu_len + 1);
        assert_eq!(bytes.len(), 6 + length);
        assert!(MbapFrame::parse(&bytes).is_ok());
    }
}

#[test]
fn mbap_round_trip() {
    let parsed = MbapFrame::parse(&TCP_IN).unwrap();
    assert_eq!(parsed.to_bytes(), TCP_IN.to_vec());
    let parsed = MbapFrame::parse(&TCP_OUT).unwrap();
    assert_eq!(parsed.to_bytes(), TCP_OUT.to_vec());
    let frame = MbapFrame { transaction_id: [0xFF, 0x00], unit_id: 0, pdu: vec![1, 2, 3] };
    let back = MbapFrame::parse(&frame.to_bytes()).unwrap();
    assert_eq!(back.transaction_id, frame.transaction_id);
    assert_eq!(back.unit_id, frame.unit_id);
    assert_eq!(back.pdu, frame.pdu);
    assert_eq!(build_tcp_frame([0, 1], &REPLY_BODY), TCP_OUT.to_vec());
}

#[test]
fn mbap_length_boundaries() {
    // A length of zero leaves no room for the unit identifier.
    match MbapFrame::parse(&[0, 1, 0, 0, 0, 0, 0x11]) {
        Err(RelayError::Frame(FrameError::Format { kind, details, frame_data })) => {
            assert_eq!(kind, FrameFormatKind::InvalidFormat);
            assert_eq!(details, "Invalid frame length, expected 6, got 7");
            assert_eq!(frame_data, Some(vec![0, 1, 0, 0, 0, 0, 0x11]));
        }
        other => panic!("unexpected {:?}", other),
    }
    // A length of one is a frame with an empty PDU.
    let empty = MbapFrame::parse(&[0, 1, 0, 0, 0, 1, 0x11]).unwrap();
    assert_eq!(empty.unit_id, 0x11);
    assert!(empty.pdu.is_empty());
    // 249 is the longest, 250 is too long.
    let mut longest = vec![0, 1, 0, 0, 0, 249];
    longest.extend(std::iter::repeat(0x11).take(249));
    assert_eq!(longest.len(), 255);
    assert_eq!(MbapFrame::parse(&longest).unwrap().pdu.len(), 248);
    let mut too_long = vec![0, 1, 0, 0, 0, 250];
    too_long.extend(std::iter::repeat(0x11).take(250));
    match MbapFrame::parse(&too_long) {
        Err(RelayError::Frame(FrameError::Size { kind, details, frame_data })) => {
            assert_eq!(kind, FrameSizeKind::TooLong);
            assert_eq!(details, "Frame too long: 250 bytes");
            assert_eq!(frame_data, None);
        }
        other => panic!("unexpected {:?}", other),
    }
}

#[test]
fn mbap_refusals_in_order() {
    for len in 0..7usize {
        match MbapFrame::parse(&TCP_IN[..len]) {
            Err(RelayError::Frame(FrameError::Size { kind, details, frame_data })) => {
                assert_eq!(kind, FrameSizeKind::TooShort);
                assert_eq!(details, format!("Frame too short: {} bytes", len));
                assert_eq!(frame_data, Some(TCP_IN[..len].to_vec()));
            }
            other => panic!("unexpected {:?}", other),
        }
    }
    let wrong_protocol = [0x00, 0x01, 0x00, 0x01, 0x00, 0x06, 0x11, 0x03, 0x00, 0x6B, 0x00, 0x03];
    match MbapFrame::parse(&wrong_protocol) {
        Err(RelayError::Protocol { kind, details, .. }) => {
            assert_eq!(kind, ProtocolErrorKind::InvalidProtocolId);
            assert_eq!(details, "Invalid protocol ID: 1");
        }
        other => panic!("unexpected {:?}", other),
    }
    // The protocol identifier is looked at before the length.
    let both = [0x00, 0x01, 0x12, 0x34, 0xFF, 0xFF, 0x11];
    match MbapFrame::parse(&both) {
        Err(RelayError::Protocol { details, .. }) => {
            assert_eq!(details, "Invalid protocol ID: 4660")
        }
        other => panic!("unexpected {:?}", other),
    }
    let wrong_length = [0x00, 0x01, 0x00, 0x00, 0x00, 0x07, 0x11, 0x03, 0x00, 0x6B, 0x00, 0x03];
    match MbapFrame::parse(&wrong_length) {
        Err(RelayError::Frame(FrameError::Format { kind, details, .. })) => {
            assert_eq!(kind, FrameFormatKind::InvalidFormat);
            assert_eq!(details, "Invalid frame length, expected 13, got 12");
        }
        other => panic!("unexpected {:?}", other),
    }
}

#[test]
fn long_responses_wrap_their_length_field() {
    let body = vec![0x11u8; 65_537];
    let frame = build_tcp_frame([0, 1], &body);
    assert_eq!(&frame[..6], &[0, 1, 0, 0, 0x00, 0x01]);
    assert_eq!(frame.len(), 6 + 65_537);
}
