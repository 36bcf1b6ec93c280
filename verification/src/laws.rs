//! What holds of the codec, the engine and the transport for every
//! request, every reply and every state.

use crate::codec::{
    answers, checksum_ok, decode_response_spec, encode_request_spec, encode_response_spec,
    exception_flag, frame_spec, lemma_exception_flag_differs, lemma_frame_checks,
    response_body_spec,
};
use crate::crc::lemma_crc16_detects_changed_byte;
use crate::engine::{begin_spec, outcome_spec, resume_spec, ActionData, EventData, Transaction};
use crate::error::{FrameError, ModbusError, TransportError};
use crate::payload::{
    bit_of, lemma_bits_round_trip, lemma_words_round_trip, pack_bits_spec, pack_words_spec,
    packed_len, unpack_bits_spec, unpack_words_spec, word_of,
};
use crate::request::ReadRequest;
use crate::response::{lemma_exception_code_round_trip, ExceptionCode, ReadData};
use crate::transport::{after_wait_spec, ReadStepData, WaitData};
use vstd::prelude::*;

verus! {

/// Round trip: the reply of a device that holds `data`, decoded as the
/// answer to a valid request that `data` answers, is `data`.
pub proof fn lemma_round_trip(request: ReadRequest, data: ReadData)
    requires
        request.valid(),
        answers(request, data),
    ensures
        decode_response_spec(encode_response_spec(request, data), request) == Ok::<
            ReadData,
            FrameError,
        >(data),
{
    let body = response_body_spec(request, data);
    let frame = encode_response_spec(request, data);
    let n = frame.len() as int;
    lemma_frame_checks(body);
    lemma_exception_flag_differs(request.function.code_spec());
    assert(forall|i: int| 0 <= i < body.len() ==> frame[i] == body[i]);
    match data {
        ReadData::Bits(bits) => {
            lemma_bits_round_trip(bits);
            assert(frame.subrange(3, n - 2) =~= pack_bits_spec(bits));
        },
        ReadData::Registers(words) => {
            lemma_words_round_trip(words);
            assert(frame.subrange(3, n - 2) =~= pack_words_spec(words));
        },
        ReadData::Exception(exception) => {},
    }
}

/// Whatever decodes from a reply has the shape that the request calls
/// for.
pub proof fn lemma_decoded_answers(bytes: Seq<u8>, expected: ReadRequest)
    ensures
        decode_response_spec(bytes, expected) matches Ok(data) ==> answers(expected, data),
{
    lemma_exception_code_round_trip(bytes[2], ExceptionCode::IllegalFunction);
}

/// Bits that decode from a reply are as many as were requested, the byte
/// count of the reply is the number of bytes that hold that many bits, and
/// item `i` is bit `i % 8` of payload byte `i / 8`.
pub proof fn lemma_decoded_bits(bytes: Seq<u8>, expected: ReadRequest, bits: Seq<bool>)
    requires
        decode_response_spec(bytes, expected) == Ok::<ReadData, FrameError>(ReadData::Bits(bits)),
    ensures
        expected.function.is_bit_type_spec(),
        bits.len() == expected.quantity,
        bytes[2] == packed_len(expected.quantity as nat),
        bytes.len() == 5 + packed_len(expected.quantity as nat),
        forall|i: int|
            0 <= i < expected.quantity ==> bits[i] == bit_of(
                #[trigger] bytes[3 + i / 8],
                (i % 8) as u8,
            ),
{
    let n = bytes.len() as int;
    lemma_exception_flag_differs(expected.function.code_spec());
    assert(bits == unpack_bits_spec(bytes.subrange(3, n - 2), expected.quantity as nat));
    assert forall|i: int| 0 <= i < expected.quantity implies bits[i] == bit_of(
        #[trigger] bytes[3 + i / 8],
        (i % 8) as u8,
    ) by {
        assert(bytes.subrange(3, n - 2)[i / 8] == bytes[3 + i / 8]);
    }
}

/// Registers that decode from a reply are as many as were requested, the
/// byte count of the reply is twice that number, and register `i` has
/// payload byte `2i` as its high byte and payload byte `2i + 1` as its low
/// byte.
pub proof fn lemma_decoded_registers(bytes: Seq<u8>, expected: ReadRequest, words: Seq<u16>)
    requires
        decode_response_spec(bytes, expected) == Ok::<ReadData, FrameError>(
            ReadData::Registers(words),
        ),
    ensures
        !expected.function.is_bit_type_spec(),
        words.len() == expected.quantity,
        bytes[2] == 2 * expected.quantity,
        bytes.len() == 5 + 2 * expected.quantity,
        forall|i: int|
            0 <= i < expected.quantity ==> #[trigger] words[i] == word_of(
                bytes[3 + 2 * i],
                bytes[4 + 2 * i],
            ),
{
    let n = bytes.len() as int;
    lemma_exception_flag_differs(expected.function.code_spec());
    assert(words == unpack_words_spec(bytes.subrange(3, n - 2), expected.quantity as nat));
    assert forall|i: int| 0 <= i < expected.quantity implies #[trigger] words[i] == word_of(
        bytes[3 + 2 * i],
        bytes[4 + 2 * i],
    ) by {
        assert(bytes.subrange(3, n - 2)[2 * i] == bytes[3 + 2 * i]);
        assert(bytes.subrange(3, n - 2)[2 * i + 1] == bytes[4 + 2 * i]);
    }
}

/// A reply whose first byte is not the slave of the request never decodes;
/// where it is long enough and its checksum checks, the error is
/// `SlaveMismatch`.
pub proof fn lemma_other_slave_is_refused(bytes: Seq<u8>, expected: ReadRequest)
    requires
        bytes.len() > 0,
        bytes[0] != expected.slave,
    ensures
        decode_response_spec(bytes, expected) is Err,
        bytes.len() >= 4 && checksum_ok(bytes) ==> decode_response_spec(bytes, expected) == Err::<
            ReadData,
            FrameError,
        >(FrameError::SlaveMismatch),
{
}

/// A reply from the slave of the request, whose function byte is the
/// requested function with the high bit set, decodes to the exception
/// whose code is the byte that follows, whatever that code is.
pub proof fn lemma_exception_reply(expected: ReadRequest, code: u8)
    ensures
        decode_response_spec(
            frame_spec(seq![expected.slave, exception_flag(expected.function.code_spec()), code]),
            expected,
        ) == Ok::<ReadData, FrameError>(ReadData::Exception(ExceptionCode::from_code_spec(code))),
{
    let body = seq![expected.slave, exception_flag(expected.function.code_spec()), code];
    lemma_frame_checks(body);
    let frame = frame_spec(body);
    assert(frame[0] == body[0]);
    assert(frame[1] == body[1]);
    assert(frame[2] == body[2]);
}

/// Replacing any one byte before the checksum of a frame whose checksum
/// checks, by a different byte, makes the decoder answer
/// `ChecksumMismatch`.
pub proof fn lemma_tampered_frame_is_refused(
    bytes: Seq<u8>,
    expected: ReadRequest,
    at: int,
    byte: u8,
)
    requires
        bytes.len() >= 4,
        checksum_ok(bytes),
        0 <= at < bytes.len() - 2,
        byte != bytes[at],
    ensures
        decode_response_spec(bytes.update(at, byte), expected) == Err::<ReadData, FrameError>(
            FrameError::ChecksumMismatch,
        ),
{
    let n = bytes.len() as int;
    let body = bytes.take(n - 2);
    let tampered = bytes.update(at, byte);
    assert(tampered.take(n - 2) =~= body.update(at, byte));
    lemma_crc16_detects_changed_byte(body, at, byte);
}

/// Bytes are handed out for writing only for a valid request submitted
/// while the bus is idle, and they are the frame of that request; a
/// request that breaks a rule finishes at once with that rule and never
/// reaches the wire.
pub proof fn lemma_only_valid_requests_are_written(state: Transaction, request: ReadRequest)
    ensures
        begin_spec(state, request).1 is Write <==> state == Transaction::Idle && request.valid(),
        begin_spec(state, request).1 matches ActionData::Write(frame) ==> frame
            == encode_request_spec(request),
        state == Transaction::Idle && !request.valid() ==> begin_spec(state, request) == (
            Transaction::Idle,
            ActionData::Finish(Err(ModbusError::Validation(request.check_spec()->Err_0))),
        ),
{
}

/// No report of the transport makes the engine hand out bytes for
/// writing.
pub proof fn lemma_reports_write_nothing(state: Transaction, event: EventData)
    ensures
        !(resume_spec(state, event).1 is Write),
{
}

/// While a request is outstanding a second one is refused and changes
/// nothing.
pub proof fn lemma_one_transaction_at_a_time(state: Transaction, request: ReadRequest)
    requires
        state != Transaction::Idle,
    ensures
        begin_spec(state, request) == (state, ActionData::Refuse),
{
}

/// Whenever a transaction finishes, however it ends, the bus is idle
/// again; and a well-formed state stays well-formed.
pub proof fn lemma_finish_leaves_idle(state: Transaction, request: ReadRequest, event: EventData)
    ensures
        begin_spec(state, request).1 is Finish ==> begin_spec(state, request).0
            == Transaction::Idle,
        resume_spec(state, event).1 is Finish ==> resume_spec(state, event).0 == Transaction::Idle,
        state.wf() ==> begin_spec(state, request).0.wf() && resume_spec(state, event).0.wf(),
{
}

/// A read that delivers no byte ends the transaction with `Timeout`,
/// whatever the request: the decoder is not asked.
pub proof fn lemma_no_bytes_is_timeout(request: ReadRequest)
    ensures
        outcome_spec(Seq::<u8>::empty(), request) == Err::<ReadData, ModbusError>(
            ModbusError::Transport(TransportError::Timeout),
        ),
        resume_spec(Transaction::Receiving(request), EventData::Received(Seq::<u8>::empty())) == (
            Transaction::Idle,
            ActionData::Finish(Err(ModbusError::Transport(TransportError::Timeout))),
        ),
{
}

/// Data that a transaction delivers is what the decoder made of the
/// reply, has the shape its request calls for, and is never an exception.
pub proof fn lemma_delivered_data_answers(bytes: Seq<u8>, request: ReadRequest)
    ensures
        outcome_spec(bytes, request) matches Ok(data) ==> !(data is Exception) && answers(
            request,
            data,
        ) && decode_response_spec(bytes, request) == Ok::<ReadData, FrameError>(data),
{
    lemma_decoded_answers(bytes, request);
}

/// A whole transaction: a valid request submitted on an idle bus is
/// written, then its reply is read, and where the reply is the frame of a
/// device that holds `data`, the transaction delivers `data`, or fails
/// with the exception that `data` is, and leaves the bus idle.
pub proof fn lemma_transaction_delivers(request: ReadRequest, data: ReadData)
    requires
        request.valid(),
        answers(request, data),
    ensures
        begin_spec(Transaction::Idle, request) == (
            Transaction::Sending(request),
            ActionData::Write(encode_request_spec(request)),
        ),
        resume_spec(Transaction::Sending(request), EventData::Written) == (
            Transaction::Receiving(request),
            ActionData::Read,
        ),
        resume_spec(
            Transaction::Receiving(request),
            EventData::Received(encode_response_spec(request, data)),
        ) == (
            Transaction::Idle,
            ActionData::Finish(
                match data {
                    ReadData::Exception(exception) => Err(ModbusError::Exception(exception)),
                    _ => Ok(data),
                },
            ),
        ),
{
    lemma_round_trip(request, data);
    lemma_frame_checks(response_body_spec(request, data));
}

/// A read that gathers nothing before its deadline reports `Timeout`, and
/// hands no bytes to the decoder; one that has gathered bytes, however
/// few, reports them as they are.
pub proof fn lemma_deadline_ends_the_read(gathered: Seq<u8>)
    ensures
        gathered.len() == 0 ==> after_wait_spec(gathered, WaitData::Deadline)
            == ReadStepData::Report(EventData::ReadFailed(TransportError::Timeout)),
        gathered.len() > 0 ==> after_wait_spec(gathered, WaitData::Deadline)
            == ReadStepData::Report(EventData::Received(gathered)),
{
}

/// A read never reports an empty run of bytes, and what it reports is
/// what it gathered.
pub proof fn lemma_reported_bytes_are_gathered(gathered: Seq<u8>, wait: WaitData)
    ensures
        after_wait_spec(gathered, wait) matches ReadStepData::Report(EventData::Received(bytes))
            ==> bytes.len() > 0 && bytes == gathered,
{
}

} // verus!
