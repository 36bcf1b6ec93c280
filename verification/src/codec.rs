//! Frames on the wire: `[slave][function][payload][checksum]`, the checksum
//! low byte first. Requests are encoded, replies are checked and decoded.

use crate::crc::{crc16, crc16_spec};
use crate::error::FrameError;
use crate::payload::{
    high_byte, lemma_word_of_its_bytes, low_byte, pack_bits, pack_bits_spec, pack_words,
    pack_words_spec, packed_len, unpack_bits, unpack_bits_spec, unpack_words, unpack_words_spec,
    word_of,
};
use crate::request::ReadRequest;
use crate::response::{ExceptionCode, ReadData, ReadResponse};
use vstd::prelude::*;
use vstd::slice::slice_subrange;

verus! {

/// A body followed by its checksum, low byte first.
pub open spec fn frame_spec(body: Seq<u8>) -> Seq<u8> {
    body.push(low_byte(crc16_spec(body))).push(high_byte(crc16_spec(body)))
}

/// The last two bytes are the checksum of all bytes before them.
pub open spec fn checksum_ok(bytes: Seq<u8>) -> bool {
    let n = bytes.len() as int;
    n >= 2 && word_of(bytes[n - 1], bytes[n - 2]) == crc16_spec(bytes.take(n - 2))
}

/// The function byte of an exception reply: the function with the high bit
/// set.
pub open spec fn exception_flag(code: u8) -> u8 {
    code | 0x80
}

/// The six bytes of a request before its checksum.
pub open spec fn request_body_spec(request: ReadRequest) -> Seq<u8> {
    seq![
        request.slave,
        request.function.code_spec(),
        high_byte(request.start_address),
        low_byte(request.start_address),
        high_byte(request.quantity),
        low_byte(request.quantity),
    ]
}

/// The frame that carries a request.
pub open spec fn encode_request_spec(request: ReadRequest) -> Seq<u8> {
    frame_spec(request_body_spec(request))
}

/// Number of payload bytes that the answer to a request holds after its
/// byte count.
pub open spec fn payload_len(request: ReadRequest) -> nat {
    if request.function.is_bit_type_spec() {
        packed_len(request.quantity as nat)
    } else {
        2 * (request.quantity as nat)
    }
}

/// What a reply means as the answer to `expected`, or why it cannot be
/// taken as that answer. The checks are made in this order: length,
/// checksum, slave, exception flag, function, payload length. An
/// exception reply needs five bytes at least, to hold its code.
pub open spec fn decode_response_spec(bytes: Seq<u8>, expected: ReadRequest) -> Result<
    ReadData,
    FrameError,
> {
    let n = bytes.len() as int;
    let code = expected.function.code_spec();
    if n < 4 {
        Err(FrameError::Truncated)
    } else if !checksum_ok(bytes) {
        Err(FrameError::ChecksumMismatch)
    } else if bytes[0] != expected.slave {
        Err(FrameError::SlaveMismatch)
    } else if bytes[1] == exception_flag(code) {
        if n < 5 {
            Err(FrameError::PayloadLengthMismatch)
        } else {
            Ok(ReadData::Exception(ExceptionCode::from_code_spec(bytes[2])))
        }
    } else if bytes[1] != code {
        Err(FrameError::FunctionMismatch)
    } else if n < 5 || bytes[2] != payload_len(expected) || n != 5 + bytes[2] {
        Err(FrameError::PayloadLengthMismatch)
    } else if expected.function.is_bit_type_spec() {
        Ok(ReadData::Bits(unpack_bits_spec(bytes.subrange(3, n - 2), expected.quantity as nat)))
    } else {
        Ok(
            ReadData::Registers(
                unpack_words_spec(bytes.subrange(3, n - 2), expected.quantity as nat),
            ),
        )
    }
}

/// The data has the shape that the request calls for: as many bits or
/// registers as were asked for, of the kind that the function reads, or a
/// well-formed exception.
pub open spec fn answers(request: ReadRequest, data: ReadData) -> bool {
    match data {
        ReadData::Bits(bits) => request.function.is_bit_type_spec() && bits.len()
            == request.quantity,
        ReadData::Registers(words) => !request.function.is_bit_type_spec() && words.len()
            == request.quantity,
        ReadData::Exception(exception) => exception.wf(),
    }
}

/// The bytes of a reply before its checksum, as a device sends them that
/// holds `data`: slave, function and byte count before the payload, or
/// slave, flagged function and code for an exception.
pub open spec fn response_body_spec(request: ReadRequest, data: ReadData) -> Seq<u8> {
    match data {
        ReadData::Bits(bits) => seq![
            request.slave,
            request.function.code_spec(),
            packed_len(bits.len()) as u8,
        ] + pack_bits_spec(bits),
        ReadData::Registers(words) => seq![
            request.slave,
            request.function.code_spec(),
            (2 * words.len()) as u8,
        ] + pack_words_spec(words),
        ReadData::Exception(exception) => seq![
            request.slave,
            exception_flag(request.function.code_spec()),
            exception.code_spec(),
        ],
    }
}

/// The frame of a reply, as a device sends it that holds `data`.
pub open spec fn encode_response_spec(request: ReadRequest, data: ReadData) -> Seq<u8> {
    frame_spec(response_body_spec(request, data))
}

/// The payload is short enough for its length to be written in one byte.
pub open spec fn fits_one_frame(data: ReadData) -> bool {
    match data {
        ReadData::Bits(bits) => packed_len(bits.len()) <= 255,
        ReadData::Registers(words) => 2 * words.len() <= 255,
        ReadData::Exception(_) => true,
    }
}

/// A decoded reply, or the error, as mathematical values.
pub open spec fn decoded_view(decoded: Result<ReadResponse, FrameError>) -> Result<
    ReadData,
    FrameError,
> {
    match decoded {
        Ok(response) => Ok(response@),
        Err(e) => Err(e),
    }
}

fn push_checksum(frame: &mut Vec<u8>)
    ensures
        final(frame)@ == frame_spec(old(frame)@),
{
    let crc: u16 = crc16(frame.as_slice());
    frame.push((crc % 256) as u8);
    frame.push((crc / 256) as u8);
}

/// Encodes a request: slave, function, start address and quantity, both
/// high byte first, then the checksum of these six bytes, low byte first.
pub fn encode_request(request: &ReadRequest) -> (frame: Vec<u8>)
    ensures
        frame@ == encode_request_spec(*request),
        frame@.len() == 8,
        checksum_ok(frame@),
{
    let mut frame: Vec<u8> = Vec::new();
    frame.push(request.slave);
    frame.push(request.function.code());
    frame.push((request.start_address / 256) as u8);
    frame.push((request.start_address % 256) as u8);
    frame.push((request.quantity / 256) as u8);
    frame.push((request.quantity % 256) as u8);
    assert(frame@ =~= request_body_spec(*request));
    push_checksum(&mut frame);
    proof {
        lemma_frame_checks(request_body_spec(*request));
    }
    frame
}

/// Checks a reply against the request it should answer and decodes it.
///
/// The result is exactly [`decode_response_spec`]: a reply of fewer than
/// four bytes is `Truncated`; one whose checksum is wrong is
/// `ChecksumMismatch`; one from another device is `SlaveMismatch`; one with
/// the requested function and the high bit set is the exception whose code
/// follows, or `PayloadLengthMismatch` where it has only four bytes and so
/// no code; one with any other function is `FunctionMismatch`; one
/// without a byte count, or whose byte count is not what the request calls
/// for, or is not the number of payload bytes present, is
/// `PayloadLengthMismatch`; any other reply decodes to as many bits or
/// registers as were requested.
pub fn decode_response(bytes: &[u8], expected: &ReadRequest) -> (decoded: Result<
    ReadResponse,
    FrameError,
>)
    ensures
        decoded_view(decoded) == decode_response_spec(bytes@, *expected),
        decoded matches Ok(response) ==> answers(*expected, response@),
{
    let n: usize = bytes.len();
    if n < 4 {
        return Err(FrameError::Truncated);
    }
    let crc: u16 = crc16(slice_subrange(bytes, 0, n - 2));
    let sent: u16 = (bytes[n - 1] as u16) * 256 + (bytes[n - 2] as u16);
    if crc != sent {
        return Err(FrameError::ChecksumMismatch);
    }
    if bytes[0] != expected.slave {
        return Err(FrameError::SlaveMismatch);
    }
    let code: u8 = expected.function.code();
    if bytes[1] == (code | 0x80) {
        if n < 5 {
            return Err(FrameError::PayloadLengthMismatch);
        }
        return Ok(ReadResponse::Exception(ExceptionCode::from_code(bytes[2])));
    }
    if bytes[1] != code {
        return Err(FrameError::FunctionMismatch);
    }
    let quantity: usize = expected.quantity as usize;
    let count: usize = if expected.function.is_bit_type() {
        (quantity + 7) / 8
    } else {
        2 * quantity
    };
    if n < 5 || bytes[2] as usize != count || n != 5 + count {
        return Err(FrameError::PayloadLengthMismatch);
    }
    let payload = slice_subrange(bytes, 3, n - 2);
    if expected.function.is_bit_type() {
        Ok(ReadResponse::Bits(unpack_bits(payload, quantity)))
    } else {
        Ok(ReadResponse::Registers(unpack_words(payload, quantity)))
    }
}

/// Encodes the reply of a device that holds `response`, in answer to
/// `request`: the frame a master decodes to `response`.
pub fn encode_response(request: &ReadRequest, response: &ReadResponse) -> (frame: Vec<u8>)
    requires
        fits_one_frame(response@),
    ensures
        frame@ == encode_response_spec(*request, response@),
        checksum_ok(frame@),
{
    let mut frame: Vec<u8> = Vec::new();
    frame.push(request.slave);
    match response {
        ReadResponse::Bits(bits) => {
            let mut packed: Vec<u8> = pack_bits(bits.as_slice());
            frame.push(request.function.code());
            frame.push(packed.len() as u8);
            frame.append(&mut packed);
        },
        ReadResponse::Registers(words) => {
            let mut packed: Vec<u8> = pack_words(words.as_slice());
            frame.push(request.function.code());
            frame.push(packed.len() as u8);
            frame.append(&mut packed);
        },
        ReadResponse::Exception(exception) => {
            frame.push(request.function.code() | 0x80);
            frame.push(exception.code());
        },
    }
    assert(frame@ =~= response_body_spec(*request, response@));
    push_checksum(&mut frame);
    proof {
        lemma_frame_checks(response_body_spec(*request, response@));
    }
    frame
}

/// A frame built from a body is two bytes longer than the body, begins
/// with the body, and carries a checksum that checks.
pub proof fn lemma_frame_checks(body: Seq<u8>)
    ensures
        frame_spec(body).len() == body.len() + 2,
        frame_spec(body).take(body.len() as int) == body,
        checksum_ok(frame_spec(body)),
{
    let frame = frame_spec(body);
    let crc = crc16_spec(body);
    assert(frame.take(body.len() as int) =~= body);
    lemma_word_of_its_bytes(crc, 0, 0);
}

/// The function byte of an exception reply is never the function byte of
/// a data reply to the same request.
pub proof fn lemma_exception_flag_differs(code: u8)
    by (bit_vector)
    requires
        code < 0x80,
    ensures
        exception_flag(code) != code,
        exception_flag(code) >= 0x80,
{
}

} // verus!
