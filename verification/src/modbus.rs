use crate::crc::{calc_crc16, crc16, crc_matches, flip_bit, le16, with_crc};
use crate::crc::{lemma_appended_crc_matches, lemma_bit_flip_detected};
use crate::errors::{FrameError, FrameErrorKind, FrameFormatKind, FrameSizeKind};
use crate::errors::{ProtocolErrorKind, RelayError};
use crate::text::{decimal_digits, hex_encode, lower_hex_string, push_decimal};
use crate::text::{push_upper_hex_byte, upper_hex_byte};
use vstd::prelude::*;
use vstd::string::*;

verus! {

/// Modbus exception code "gateway target device failed to respond".
pub const GATEWAY_TARGET_FAILED: u8 = 0x0B;

/// The shortest RTU response that is looked at: unit, function, one byte of
/// data and the checksum.
pub const MIN_RTU_RESPONSE: usize = 5;

/// The 16-bit value of two bytes, most significant first.
pub open spec fn be16(hi: u8, lo: u8) -> u16 {
    (hi as int * 256 + lo as int) as u16
}

/// The length of the RTU response that a device is expected to send to a
/// request with this function code and quantity, checksum included.
pub open spec fn expected_response_size(function: u8, quantity: u16) -> int {
    if function == 0x01 || function == 0x02 {
        1 + 1 + 1 + (quantity as int + 7) / 8 + 2
    } else if function == 0x03 || function == 0x04 {
        1 + 1 + 1 + quantity as int * 2 + 2
    } else if function == 0x05 || function == 0x06 || function == 0x0F || function == 0x10 {
        8
    } else {
        256
    }
}

/// Whether requests with this function code carry a quantity in bytes 4
/// and 5 of the RTU frame.
pub open spec fn has_quantity_field(function: u8) -> bool {
    (0x01 <= function <= 0x04) || function == 0x0F || function == 0x10
}

/// The RTU frame of a request: unit identifier, PDU, and the checksum of
/// both, low byte first.
pub open spec fn rtu_frame(unit_id: u8, pdu: Seq<u8>) -> Seq<u8> {
    with_crc(seq![unit_id] + pdu)
}

/// The function code of a PDU; an empty PDU counts as function 0.
pub open spec fn function_code(pdu: Seq<u8>) -> u8 {
    if pdu.len() > 0 {
        pdu[0]
    } else {
        0
    }
}

/// The quantity that sizes the response to the request `pdu` for `unit_id`:
/// bytes 4 and 5 of the RTU frame where the function code has such a field,
/// and 1 otherwise.
pub open spec fn request_quantity(unit_id: u8, pdu: Seq<u8>) -> u16 {
    if has_quantity_field(function_code(pdu)) {
        be16(rtu_frame(unit_id, pdu)[4], rtu_frame(unit_id, pdu)[5])
    } else {
        1
    }
}

/// Whether the request `pdu` is too short to hold the quantity that its
/// function code calls for.
pub open spec fn quantity_missing(pdu: Seq<u8>) -> bool {
    has_quantity_field(function_code(pdu)) && pdu.len() < 3
}

/// The MBAP frame with the given transaction identifier around
/// `unit_and_pdu`: protocol identifier zero, length, then the bytes. The
/// length field holds the length modulo 65536.
pub open spec fn tcp_frame(transaction_id: [u8; 2], unit_and_pdu: Seq<u8>) -> Seq<u8> {
    seq![
        transaction_id[0],
        transaction_id[1],
        0u8,
        0u8,
        (unit_and_pdu.len() / 256 % 256) as u8,
        (unit_and_pdu.len() % 256) as u8,
    ] + unit_and_pdu
}

/// The reply that tells a Modbus/TCP client that the device did not
/// answer: the function code with its top bit set, and exception 0x0B.
pub open spec fn exception_reply(transaction_id: [u8; 2], unit_id: u8, function: u8) -> Seq<u8> {
    seq![
        transaction_id[0],
        transaction_id[1],
        0u8,
        0u8,
        0u8,
        3u8,
        unit_id,
        function | 0x80,
        0x0Bu8,
    ]
}

/// The text that describes a unit identifier other than the one asked.
pub open spec fn unit_mismatch_text(expected: u8, received: u8) -> Seq<char> {
    "Unexpected unit ID in RTU response: expected=0x"@ + upper_hex_byte(expected)
        + ", received=0x"@ + upper_hex_byte(received)
}

/// The text that describes a response of `len` bytes as too short.
pub open spec fn short_response_text(len: nat) -> Seq<char> {
    "RTU response too short: "@ + decimal_digits(len) + " bytes"@
}

/// Estimates the length of the RTU response to a request from its function
/// code and quantity.
pub fn guess_response_size(function: u8, quantity: u16) -> (size: usize)
    ensures
        size == expected_response_size(function, quantity),
{
    match function {
        0x01 | 0x02 => {
            let data_bytes = (quantity as usize + 7) / 8;
            1 + 1 + 1 + data_bytes + 2
        },
        0x03 | 0x04 => {
            let data_bytes = (quantity as usize) * 2;
            1 + 1 + 1 + data_bytes + 2
        },
        0x05 | 0x06 => 1 + 1 + 2 + 2 + 2,
        0x0F | 0x10 => 1 + 1 + 2 + 2 + 2,
        _ => 256,
    }
}

/// A copy of `data[from..to]`.
pub fn copy_range(data: &[u8], from: usize, to: usize) -> (out: Vec<u8>)
    requires
        from <= to <= data.len(),
    ensures
        out@ == data@.subrange(from as int, to as int),
{
    let mut out: Vec<u8> = Vec::new();
    let mut i: usize = from;
    while i < to
        invariant
            from <= i <= to <= data.len(),
            out@ == data@.subrange(from as int, i as int),
        decreases to - i,
    {
        out.push(data[i]);
        i += 1;
        assert(out@ =~= data@.subrange(from as int, i as int));
    }
    out
}

/// Reads the big-endian 16-bit value at `start` of an RTU request, and
/// refuses a request that ends before `start + 2`.
pub fn get_u16_from_request(request: &[u8], start: usize) -> (r: Result<u16, RelayError>)
    ensures
        r is Ok <==> start + 2 <= request.len(),
        r matches Ok(v) ==> v == be16(request[start as int], request[start + 1]),
        r matches Err(e) ==> e.is_frame_format(
            FrameFormatKind::InvalidFormat,
            "Request too short for register quantity"@,
            Some(request@),
        ),
{
    if request.len() >= 2 && start <= request.len() - 2 {
        let hi = request[start];
        let lo = request[start + 1];
        Ok((hi as u16) * 256 + (lo as u16))
    } else {
        let data = copy_range(request, 0, request.len());
        assert(data@ =~= request@);
        Err(
            RelayError::frame(
                FrameErrorKind::InvalidFormat,
                "Request too short for register quantity",
                Some(data),
            ),
        )
    }
}

/// The quantity of coils or registers that an RTU request asks for: bytes
/// 4 and 5 of the frame for the read functions and the write-multiple
/// functions, and 1 for every other function code.
pub fn get_quantity(function_code: u8, request: &[u8]) -> (r: Result<u16, RelayError>)
    ensures
        r is Err <==> has_quantity_field(function_code) && request.len() < 6,
        r matches Ok(q) ==> q == if has_quantity_field(function_code) {
            be16(request[4], request[5])
        } else {
            1
        },
        r matches Err(e) ==> e.is_frame_format(
            FrameFormatKind::InvalidFormat,
            "Request too short for register quantity"@,
            Some(request@),
        ),
{
    match function_code {
        0x01..=0x04 | 0x0F | 0x10 => get_u16_from_request(request, 4),
        0x05 | 0x06 => Ok(1),
        _ => Ok(1),
    }
}

/// A request as it goes out on the serial line, and the size of the buffer
/// that the response is read into.
#[derive(Debug)]
pub struct RtuRequest {
    pub frame: Vec<u8>,
    pub expected_size: usize,
}

/// What came back from the serial line: the bytes of a response, or nothing
/// where the exchange failed.
pub open spec fn response_bytes(outcome: Result<Vec<u8>, RelayError>) -> Option<Seq<u8>> {
    match outcome {
        Ok(bytes) => Some(bytes@),
        Err(_) => None,
    }
}

/// Whether `r` is the gateway's answer to a request, given what came back
/// from the serial line.
///
/// Silence or any other transport failure is answered with a Modbus
/// exception, not with an error. A response under five bytes, one whose
/// checksum does not match and one from another unit are errors. Any other
/// response is passed on without its checksum, inside an MBAP frame.
pub open spec fn is_bridge_result(
    transaction_id: [u8; 2],
    unit_id: u8,
    function: u8,
    response: Option<Seq<u8>>,
    r: Result<Vec<u8>, RelayError>,
) -> bool {
    match response {
        None => r matches Ok(reply) && reply@ == exception_reply(
            transaction_id,
            unit_id,
            function,
        ),
        Some(bytes) => {
            let body = bytes.subrange(0, bytes.len() - 2);
            if bytes.len() < 5 {
                r matches Err(e) && e.is_frame_size(
                    FrameSizeKind::TooShort,
                    short_response_text(bytes.len()),
                    Some(bytes),
                )
            } else if !crc_matches(bytes) {
                r matches Err(e) && e.is_crc(
                    crc16(body),
                    le16(bytes[bytes.len() - 2], bytes[bytes.len() - 1]),
                    lower_hex_string(body),
                )
            } else if bytes[0] != unit_id {
                r matches Err(e) && e.is_protocol(
                    ProtocolErrorKind::InvalidUnitId,
                    unit_mismatch_text(unit_id, bytes[0]),
                )
            } else {
                r matches Ok(reply) && reply@ == tcp_frame(transaction_id, body)
            }
        },
    }
}

/// Builds the RTU frame of a request: unit identifier, PDU, checksum.
pub fn build_rtu_frame(unit_id: u8, pdu: &[u8]) -> (frame: Vec<u8>)
    ensures
        frame@ == rtu_frame(unit_id, pdu@),
        frame@.len() == pdu@.len() + 3,
{
    let mut frame: Vec<u8> = Vec::new();
    frame.push(unit_id);
    frame.extend_from_slice(pdu);
    assert(frame@ =~= seq![unit_id] + pdu@);
    let crc = calc_crc16(frame.as_slice());
    let lo = (crc & 0xFF) as u8;
    let hi = (crc >> 8) as u8;
    frame.push(lo);
    frame.push(hi);
    assert(frame@ =~= rtu_frame(unit_id, pdu@));
    frame
}

/// Builds the Modbus exception reply for a device that did not answer.
pub fn build_exception_reply(
    transaction_id: [u8; 2],
    unit_id: u8,
    function: u8,
) -> (reply: Vec<u8>)
    ensures
        reply@ == exception_reply(transaction_id, unit_id, function),
{
    let mut reply: Vec<u8> = Vec::new();
    reply.push(transaction_id[0]);
    reply.push(transaction_id[1]);
    reply.push(0x00);
    reply.push(0x00);
    reply.push(0x00);
    reply.push(0x03);
    reply.push(unit_id);
    reply.push(function | 0x80);
    reply.push(GATEWAY_TARGET_FAILED);
    assert(reply@ =~= exception_reply(transaction_id, unit_id, function));
    reply
}

/// Builds the MBAP frame around a unit identifier and PDU.
pub fn build_tcp_frame(transaction_id: [u8; 2], unit_and_pdu: &[u8]) -> (frame: Vec<u8>)
    ensures
        frame@ == tcp_frame(transaction_id, unit_and_pdu@),
{
    let len = unit_and_pdu.len();
    let mut frame: Vec<u8> = Vec::new();
    frame.push(transaction_id[0]);
    frame.push(transaction_id[1]);
    frame.push(0x00);
    frame.push(0x00);
    frame.push(((len / 256) % 256) as u8);
    frame.push((len % 256) as u8);
    frame.extend_from_slice(unit_and_pdu);
    assert(frame@ =~= tcp_frame(transaction_id, unit_and_pdu@));
    frame
}

/// Turns what came back from the serial line into the gateway's answer.
pub fn build_reply(
    transaction_id: [u8; 2],
    unit_id: u8,
    function: u8,
    outcome: Result<Vec<u8>, RelayError>,
) -> (r: Result<Vec<u8>, RelayError>)
    ensures
        is_bridge_result(transaction_id, unit_id, function, response_bytes(outcome), r),
{
    let response = match outcome {
        Ok(response) => response,
        Err(_) => {
            return Ok(build_exception_reply(transaction_id, unit_id, function));
        },
    };
    let len = response.len();
    if len < MIN_RTU_RESPONSE {
        let mut details = String::from_str("RTU response too short: ");
        push_decimal(&mut details, len as u64);
        details.append(" bytes");
        assert(details@ =~= short_response_text(len as nat));
        return Err(RelayError::frame(FrameErrorKind::TooShort, details.as_str(), Some(response)));
    }
    let body = copy_range(response.as_slice(), 0, len - 2);
    let expected_crc = calc_crc16(body.as_slice());
    let received_crc = (response[len - 2] as u16) | ((response[len - 1] as u16) << 8);
    if expected_crc != received_crc {
        let frame_hex = hex_encode(body.as_slice());
        return Err(
            RelayError::Frame(
                FrameError::Crc { calculated: expected_crc, received: received_crc, frame_hex },
            ),
        );
    }
    if body[0] != unit_id {
        let mut details = String::from_str("Unexpected unit ID in RTU response: expected=0x");
        push_upper_hex_byte(&mut details, unit_id);
        details.append(", received=0x");
        push_upper_hex_byte(&mut details, body[0]);
        assert(details@ =~= unit_mismatch_text(unit_id, body[0]));
        return Err(RelayError::protocol(ProtocolErrorKind::InvalidUnitId, details.as_str()));
    }
    Ok(build_tcp_frame(transaction_id, body.as_slice()))
}

/// The bridge between a Modbus/TCP request and the exchange on the serial
/// line. The exchange itself is made by the caller, between
/// [`ModbusProcessor::rtu_request`] and [`ModbusProcessor::process_request`].
#[derive(Debug, Clone, Copy)]
pub struct ModbusProcessor {}

impl ModbusProcessor {
    pub fn new() -> Self {
        ModbusProcessor {  }
    }

    /// The RTU frame to send for a request, and the size of the buffer to
    /// read the response into. A request that is too short to hold the
    /// quantity that its function code calls for is refused.
    pub fn rtu_request(&self, unit_id: u8, pdu: &[u8]) -> (r: Result<RtuRequest, RelayError>)
        ensures
            r is Err <==> quantity_missing(pdu@),
            r matches Ok(request) ==> request.frame@ == rtu_frame(unit_id, pdu@)
                && request.expected_size == expected_response_size(
                function_code(pdu@),
                request_quantity(unit_id, pdu@),
            ),
            r matches Err(e) ==> e.is_frame_format(
                FrameFormatKind::InvalidFormat,
                "Request too short for register quantity"@,
                Some(rtu_frame(unit_id, pdu@)),
            ),
    {
        let frame = build_rtu_frame(unit_id, pdu);
        let function = if pdu.len() > 0 {
            pdu[0]
        } else {
            0
        };
        let quantity = match get_quantity(function, frame.as_slice()) {
            Ok(quantity) => quantity,
            Err(e) => {
                return Err(e);
            },
        };
        let expected_size = guess_response_size(function, quantity);
        Ok(RtuRequest { frame, expected_size })
    }

    /// Answers a Modbus/TCP request, given the outcome of the exchange of
    /// its RTU frame on the serial line: the bytes that were read, or the
    /// failure of the transport.
    pub fn process_request(
        &self,
        transaction_id: [u8; 2],
        unit_id: u8,
        pdu: &[u8],
        outcome: Result<Vec<u8>, RelayError>,
    ) -> (r: Result<Vec<u8>, RelayError>)
        ensures
            quantity_missing(pdu@) ==> (r matches Err(e) && e.is_frame_format(
                FrameFormatKind::InvalidFormat,
                "Request too short for register quantity"@,
                Some(rtu_frame(unit_id, pdu@)),
            )),
            !quantity_missing(pdu@) ==> is_bridge_result(
                transaction_id,
                unit_id,
                function_code(pdu@),
                response_bytes(outcome),
                r,
            ),
    {
        match self.rtu_request(unit_id, pdu) {
            Err(e) => Err(e),
            Ok(_) => {
                let function = if pdu.len() > 0 {
                    pdu[0]
                } else {
                    0
                };
                build_reply(transaction_id, unit_id, function, outcome)
            },
        }
    }
}

/// The largest value of the MBAP length field that is accepted: a unit
/// identifier and up to 248 bytes of PDU.
pub const MAX_MBAP_LENGTH: usize = 249;

/// The length of the MBAP header up to and including the length field.
pub const MBAP_PREFIX: usize = 6;

/// The protocol identifier in an MBAP header.
pub open spec fn mbap_protocol_id(frame: Seq<u8>) -> u16 {
    be16(frame[2], frame[3])
}

/// The length field of an MBAP header: the number of bytes that follow it.
pub open spec fn mbap_length(frame: Seq<u8>) -> u16 {
    be16(frame[4], frame[5])
}

/// Whether `frame` is a Modbus/TCP frame that the gateway accepts: at
/// least the seven bytes of the header, protocol identifier zero, a length
/// of at most 249, and exactly as many bytes after the length field as it
/// announces.
pub open spec fn mbap_valid(frame: Seq<u8>) -> bool {
    &&& frame.len() >= 7
    &&& mbap_protocol_id(frame) == 0
    &&& mbap_length(frame) <= 249
    &&& mbap_length(frame) + 6 == frame.len()
}

/// The text that describes a TCP frame of `len` bytes as too short.
pub open spec fn short_frame_text(len: nat) -> Seq<char> {
    "Frame too short: "@ + decimal_digits(len) + " bytes"@
}

/// The text that describes a protocol identifier other than zero.
pub open spec fn protocol_id_text(protocol_id: nat) -> Seq<char> {
    "Invalid protocol ID: "@ + decimal_digits(protocol_id)
}

/// The text that describes an announced length as too long.
pub open spec fn long_frame_text(length: nat) -> Seq<char> {
    "Frame too long: "@ + decimal_digits(length) + " bytes"@
}

/// The text that describes a frame whose size is not the one announced.
pub open spec fn length_mismatch_text(expected: nat, got: nat) -> Seq<char> {
    "Invalid frame length, expected "@ + decimal_digits(expected) + ", got "@ + decimal_digits(
        got,
    )
}

/// Whether `e` is the error that refuses `frame`. The tests are made in
/// this order: size of the header, protocol identifier, announced length,
/// actual length.
pub open spec fn is_mbap_refusal(frame: Seq<u8>, e: RelayError) -> bool {
    if frame.len() < 7 {
        e.is_frame_size(FrameSizeKind::TooShort, short_frame_text(frame.len()), Some(frame))
    } else if mbap_protocol_id(frame) != 0 {
        e.is_protocol(
            ProtocolErrorKind::InvalidProtocolId,
            protocol_id_text(mbap_protocol_id(frame) as nat),
        )
    } else if mbap_length(frame) > 249 {
        e.is_frame_size(FrameSizeKind::TooLong, long_frame_text(mbap_length(frame) as nat), None)
    } else {
        e.is_frame_format(
            FrameFormatKind::InvalidFormat,
            length_mismatch_text((mbap_length(frame) + 6) as nat, frame.len()),
            Some(frame),
        )
    }
}

/// A Modbus/TCP frame taken apart.
#[derive(Debug)]
pub struct MbapFrame {
    pub transaction_id: [u8; 2],
    pub unit_id: u8,
    pub pdu: Vec<u8>,
}

impl MbapFrame {
    /// A frame can be written down when its PDU fits under the largest
    /// accepted length.
    pub open spec fn wf(self) -> bool {
        self.pdu@.len() <= 248
    }

    /// The bytes of this frame on the wire.
    pub open spec fn bytes(self) -> Seq<u8> {
        tcp_frame(self.transaction_id, seq![self.unit_id] + self.pdu@)
    }

    /// Takes a Modbus/TCP frame apart, or says why it is refused.
    pub fn parse(frame: &[u8]) -> (r: Result<MbapFrame, RelayError>)
        ensures
            r is Ok <==> mbap_valid(frame@),
            r matches Ok(m) ==> m.wf() && m.bytes() == frame@ && m.transaction_id[0] == frame[0]
                && m.transaction_id[1] == frame[1] && m.unit_id == frame[6] && m.pdu@
                == frame@.subrange(7, frame.len() as int),
            r matches Err(e) ==> is_mbap_refusal(frame@, e),
    {
        let n = frame.len();
        if n < 7 {
            let mut details = String::from_str("Frame too short: ");
            push_decimal(&mut details, n as u64);
            details.append(" bytes");
            assert(details@ =~= short_frame_text(n as nat));
            let data = copy_range(frame, 0, n);
            assert(data@ =~= frame@);
            return Err(RelayError::frame(FrameErrorKind::TooShort, details.as_str(), Some(data)));
        }
        let protocol_id: u16 = (frame[2] as u16) * 256 + (frame[3] as u16);
        if protocol_id != 0 {
            let mut details = String::from_str("Invalid protocol ID: ");
            push_decimal(&mut details, protocol_id as u64);
            assert(details@ =~= protocol_id_text(protocol_id as nat));
            return Err(
                RelayError::protocol(ProtocolErrorKind::InvalidProtocolId, details.as_str()),
            );
        }
        let length: usize = (frame[4] as usize) * 256 + (frame[5] as usize);
        if length > MAX_MBAP_LENGTH {
            let mut details = String::from_str("Frame too long: ");
            push_decimal(&mut details, length as u64);
            details.append(" bytes");
            assert(details@ =~= long_frame_text(length as nat));
            return Err(RelayError::frame(FrameErrorKind::TooLong, details.as_str(), None));
        }
        if length + MBAP_PREFIX != n {
            let mut details = String::from_str("Invalid frame length, expected ");
            push_decimal(&mut details, (length + MBAP_PREFIX) as u64);
            details.append(", got ");
            push_decimal(&mut details, n as u64);
            assert(details@ =~= length_mismatch_text((length + 6) as nat, n as nat));
            let data = copy_range(frame, 0, n);
            assert(data@ =~= frame@);
            return Err(
                RelayError::frame(FrameErrorKind::InvalidFormat, details.as_str(), Some(data)),
            );
        }
        let transaction_id = [frame[0], frame[1]];
        let unit_id = frame[6];
        let pdu = copy_range(frame, 7, n);
        let m = MbapFrame { transaction_id, unit_id, pdu };
        assert(m.bytes() =~= frame@);
        Ok(m)
    }

    /// Writes the frame down as it goes over TCP.
    pub fn to_bytes(&self) -> (out: Vec<u8>)
        ensures
            out@ == self.bytes(),
    {
        let mut body: Vec<u8> = Vec::new();
        body.push(self.unit_id);
        body.extend_from_slice(self.pdu.as_slice());
        assert(body@ =~= seq![self.unit_id] + self.pdu@);
        build_tcp_frame(self.transaction_id, body.as_slice())
    }
}

/// An accepted frame is exactly six bytes longer than its length field
/// says.
pub proof fn lemma_valid_frame_length(frame: Seq<u8>)
    requires
        mbap_valid(frame),
    ensures
        frame.len() == 6 + be16(frame[4], frame[5]),
        7 <= frame.len() <= 255,
{
}

/// An accepted frame is the frame of its own transaction identifier, unit
/// identifier and PDU: taking it apart and writing it down again gives the
/// same bytes.
pub proof fn lemma_frame_round_trip(frame: Seq<u8>, transaction_id: [u8; 2])
    requires
        mbap_valid(frame),
        transaction_id[0] == frame[0],
        transaction_id[1] == frame[1],
    ensures
        tcp_frame(transaction_id, seq![frame[6]] + frame.subrange(7, frame.len() as int))
            == frame,
{
    assert(tcp_frame(transaction_id, seq![frame[6]] + frame.subrange(7, frame.len() as int))
        =~= frame);
}

/// A frame that was written down from its parts is accepted, and its parts
/// are found again in it.
pub proof fn lemma_written_frame_valid(m: MbapFrame)
    requires
        m.wf(),
    ensures
        mbap_valid(m.bytes()),
        m.bytes().len() == 7 + m.pdu@.len(),
        m.bytes()[0] == m.transaction_id[0],
        m.bytes()[1] == m.transaction_id[1],
        m.bytes()[6] == m.unit_id,
        m.bytes().subrange(7, m.bytes().len() as int) == m.pdu@,
{
    assert(m.bytes().subrange(7, m.bytes().len() as int) =~= m.pdu@);
}

/// The number of data bytes in the response of a device to a read of
/// `quantity` coils or inputs (functions 1 and 2) or registers (functions
/// 3 and 4).
pub open spec fn read_payload_size(function: u8, quantity: u16) -> int {
    if function == 0x01 || function == 0x02 {
        (quantity as int + 7) / 8
    } else {
        quantity as int * 2
    }
}

/// The answer of a device to a read request: unit, function code, byte
/// count, data, checksum.
pub open spec fn read_response(unit_id: u8, function: u8, data: Seq<u8>) -> Seq<u8> {
    with_crc(seq![unit_id, function, (data.len() % 256) as u8] + data)
}

/// The answer of a device to a write request: unit, function code, the
/// four bytes of the request echoed, checksum.
pub open spec fn write_response(unit_id: u8, function: u8, echo: Seq<u8>) -> Seq<u8> {
    with_crc(seq![unit_id, function] + echo)
}

/// For the read functions and every quantity, the estimate is the length
/// of a device's answer that carries the data asked for, and such an
/// answer passes the checksum test.
pub proof fn lemma_estimate_is_read_response_length(
    unit_id: u8,
    function: u8,
    quantity: u16,
    data: Seq<u8>,
)
    requires
        0x01 <= function <= 0x04,
        data.len() == read_payload_size(function, quantity),
    ensures
        read_response(unit_id, function, data).len() == expected_response_size(function, quantity),
        crc_matches(read_response(unit_id, function, data)),
{
    lemma_appended_crc_matches(seq![unit_id, function, (data.len() % 256) as u8] + data);
}

/// For the write functions, the estimate is the length of a device's
/// answer, and such an answer passes the checksum test.
pub proof fn lemma_estimate_is_write_response_length(
    unit_id: u8,
    function: u8,
    quantity: u16,
    echo: Seq<u8>,
)
    requires
        function == 0x05 || function == 0x06 || function == 0x0F || function == 0x10,
        echo.len() == 4,
    ensures
        write_response(unit_id, function, echo).len() == expected_response_size(function, quantity),
        crc_matches(write_response(unit_id, function, echo)),
{
    lemma_appended_crc_matches(seq![unit_id, function] + echo);
}

/// The checksum that goes out with a request is the checksum of the unit
/// identifier and PDU before it: the two trailing bytes of the frame, read
/// low byte first, are that value.
pub proof fn lemma_request_carries_its_crc(unit_id: u8, pdu: Seq<u8>)
    ensures
        rtu_frame(unit_id, pdu).len() == pdu.len() + 3,
        rtu_frame(unit_id, pdu).subrange(0, pdu.len() as int + 1) == seq![unit_id] + pdu,
        le16(
            rtu_frame(unit_id, pdu)[pdu.len() as int + 1],
            rtu_frame(unit_id, pdu)[pdu.len() as int + 2],
        ) == crc16(seq![unit_id] + pdu),
        crc_matches(rtu_frame(unit_id, pdu)),
{
    lemma_appended_crc_matches(seq![unit_id] + pdu);
}

/// A request frame with any single bit inverted no longer passes the
/// checksum test.
pub proof fn lemma_damaged_request_detected(unit_id: u8, pdu: Seq<u8>, index: int, bit: u8)
    requires
        0 <= index < pdu.len() + 3,
        bit < 8,
    ensures
        !crc_matches(flip_bit(rtu_frame(unit_id, pdu), index, bit)),
{
    lemma_request_carries_its_crc(unit_id, pdu);
    lemma_bit_flip_detected(rtu_frame(unit_id, pdu), index, bit);
}

} // verus!
