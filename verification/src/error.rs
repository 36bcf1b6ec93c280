//! The four kinds of failure a read can end in, and the single type that
//! carries any of them to the caller.

use crate::response::ExceptionCode;
use vstd::prelude::*;

verus! {

/// A request or a line configuration that is refused before anything
/// reaches the wire.
#[derive(Clone, Copy, Debug, PartialEq, Eq, Structural)]
pub enum ValidationError {
    /// The request asks for no items at all.
    ZeroQuantity,
    /// The request asks for more items than one frame can carry.
    QuantityTooLarge,
    /// The last address of the request lies beyond `0xFFFF`.
    AddressOverflow,
    /// The function code is none of the four read functions.
    UnsupportedFunction,
    /// The baud rate is zero.
    InvalidBaudRate,
    /// The number of data bits is none of 5, 6, 7, 8.
    InvalidDataBits,
    /// The number of stop bits is neither 1 nor 2.
    InvalidStopBits,
    /// The parity name is none of `none`, `odd`, `even`.
    InvalidParity,
}

impl ValidationError {
    /// What was wrong and what is accepted, as a sentence for the
    /// operator.
    pub open spec fn message_spec(self) -> Seq<char> {
        match self {
            ValidationError::ZeroQuantity => "Invalid count. Read at least one item"@,
            ValidationError::QuantityTooLarge => {
                "Invalid count. Read at most 2000 coils or inputs, or 125 registers"@
            },
            ValidationError::AddressOverflow => {
                "Invalid address range. The last address exceeds 65535"@
            },
            ValidationError::UnsupportedFunction => {
                "Unsupported function code. Supported codes: 1 (coils), 2 (discrete inputs), 3 (holding registers), 4 (input registers)"@
            },
            ValidationError::InvalidBaudRate => "Invalid baud rate. Use a positive number"@,
            ValidationError::InvalidDataBits => "Invalid data bits. Use: 5, 6, 7, or 8"@,
            ValidationError::InvalidStopBits => "Invalid stop bits. Use: 1 or 2"@,
            ValidationError::InvalidParity => "Invalid parity. Use: none, odd, or even"@,
        }
    }

    /// What was wrong and what is accepted, as a sentence for the
    /// operator.
    pub fn message(self) -> (text: &'static str)
        ensures
            text@ == self.message_spec(),
    {
        match self {
            ValidationError::ZeroQuantity => "Invalid count. Read at least one item",
            ValidationError::QuantityTooLarge => {
                "Invalid count. Read at most 2000 coils or inputs, or 125 registers"
            },
            ValidationError::AddressOverflow => {
                "Invalid address range. The last address exceeds 65535"
            },
            ValidationError::UnsupportedFunction => {
                "Unsupported function code. Supported codes: 1 (coils), 2 (discrete inputs), 3 (holding registers), 4 (input registers)"
            },
            ValidationError::InvalidBaudRate => "Invalid baud rate. Use a positive number",
            ValidationError::InvalidDataBits => "Invalid data bits. Use: 5, 6, 7, or 8",
            ValidationError::InvalidStopBits => "Invalid stop bits. Use: 1 or 2",
            ValidationError::InvalidParity => "Invalid parity. Use: none, odd, or even",
        }
    }
}

/// Every validation error has a message of its own.
pub proof fn lemma_message_is_specific(a: ValidationError, b: ValidationError)
    ensures
        a.message_spec() == b.message_spec() <==> a == b,
{
    reveal_strlit("Invalid count. Read at least one item");
    reveal_strlit("Invalid count. Read at most 2000 coils or inputs, or 125 registers");
    reveal_strlit("Invalid address range. The last address exceeds 65535");
    reveal_strlit(
        "Unsupported function code. Supported codes: 1 (coils), 2 (discrete inputs), 3 (holding registers), 4 (input registers)",
    );
    reveal_strlit("Invalid baud rate. Use a positive number");
    reveal_strlit("Invalid data bits. Use: 5, 6, 7, or 8");
    reveal_strlit("Invalid stop bits. Use: 1 or 2");
    reveal_strlit("Invalid parity. Use: none, odd, or even");
    assert(ValidationError::ZeroQuantity.message_spec().len() == 37);
    assert(ValidationError::QuantityTooLarge.message_spec().len() == 66);
    assert(ValidationError::AddressOverflow.message_spec().len() == 53);
    assert(ValidationError::UnsupportedFunction.message_spec().len() == 118);
    assert(ValidationError::InvalidBaudRate.message_spec().len() == 40);
    assert(ValidationError::InvalidDataBits.message_spec().len() == 37);
    assert(ValidationError::InvalidStopBits.message_spec().len() == 30);
    assert(ValidationError::InvalidParity.message_spec().len() == 39);
    assert(ValidationError::ZeroQuantity.message_spec()[8] == 'c');
    assert(ValidationError::InvalidDataBits.message_spec()[8] == 'd');
}

/// A failure of the serial device.
#[derive(Clone, Copy, Debug, PartialEq, Eq, Structural)]
pub enum TransportError {
    /// The device does not exist or is held by someone else.
    DeviceUnavailable,
    /// The device does not support the line configuration.
    InvalidConfig,
    /// Writing or reading failed.
    Io,
    /// The deadline passed without a single byte.
    Timeout,
}

/// A reply that cannot be taken as the answer to the outstanding request.
#[derive(Clone, Copy, Debug, PartialEq, Eq, Structural)]
pub enum FrameError {
    /// Fewer than four bytes: no room for address, function and checksum.
    Truncated,
    /// The trailing two bytes are not the checksum of the bytes before them.
    ChecksumMismatch,
    /// The reply comes from another device than the one addressed.
    SlaveMismatch,
    /// The reply answers another function than the one requested.
    FunctionMismatch,
    /// The payload does not have the length the request calls for.
    PayloadLengthMismatch,
}

/// Why a read did not deliver data.
#[derive(Clone, Copy, Debug, PartialEq, Eq, Structural)]
pub enum ModbusError {
    /// The request was refused locally.
    Validation(ValidationError),
    /// The serial device failed or stayed silent.
    Transport(TransportError),
    /// The reply was damaged or did not belong to the request.
    Frame(FrameError),
    /// The device answered with a well-formed exception.
    Exception(ExceptionCode),
}

} // verus!
