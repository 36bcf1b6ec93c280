//! What a device can answer to a read: bits, registers or an exception.

use vstd::prelude::*;

verus! {

/// The reason a device gives for refusing a request.
///
/// The four codes every device knows have a variant each; any other code is
/// carried as the number the device sent.
#[derive(Clone, Copy, Debug, PartialEq, Eq, Structural)]
pub enum ExceptionCode {
    /// Code 1.
    IllegalFunction,
    /// Code 2.
    IllegalDataAddress,
    /// Code 3.
    IllegalDataValue,
    /// Code 4.
    ServerDeviceFailure,
    /// Any code other than 1 to 4.
    Other(u8),
}

impl ExceptionCode {
    /// The number that stands for this exception on the wire.
    pub open spec fn code_spec(self) -> u8 {
        match self {
            ExceptionCode::IllegalFunction => 1,
            ExceptionCode::IllegalDataAddress => 2,
            ExceptionCode::IllegalDataValue => 3,
            ExceptionCode::ServerDeviceFailure => 4,
            ExceptionCode::Other(code) => code,
        }
    }

    /// The exception that a number on the wire stands for.
    pub open spec fn from_code_spec(code: u8) -> ExceptionCode {
        if code == 1 {
            ExceptionCode::IllegalFunction
        } else if code == 2 {
            ExceptionCode::IllegalDataAddress
        } else if code == 3 {
            ExceptionCode::IllegalDataValue
        } else if code == 4 {
            ExceptionCode::ServerDeviceFailure
        } else {
            ExceptionCode::Other(code)
        }
    }

    /// `Other` never holds a code that has a variant of its own.
    pub open spec fn wf(self) -> bool {
        match self {
            ExceptionCode::Other(code) => !(1 <= code <= 4),
            _ => true,
        }
    }

    /// Reads an exception code as a device sends it.
    pub fn from_code(code: u8) -> (exception: ExceptionCode)
        ensures
            exception == Self::from_code_spec(code),
            exception.wf(),
            exception.code_spec() == code,
    {
        if code == 1 {
            ExceptionCode::IllegalFunction
        } else if code == 2 {
            ExceptionCode::IllegalDataAddress
        } else if code == 3 {
            ExceptionCode::IllegalDataValue
        } else if code == 4 {
            ExceptionCode::ServerDeviceFailure
        } else {
            ExceptionCode::Other(code)
        }
    }

    /// The number that stands for this exception on the wire.
    #[verifier::when_used_as_spec(code_spec)]
    pub fn code(self) -> (code: u8)
        ensures
            code == self.code_spec(),
    {
        match self {
            ExceptionCode::IllegalFunction => 1,
            ExceptionCode::IllegalDataAddress => 2,
            ExceptionCode::IllegalDataValue => 3,
            ExceptionCode::ServerDeviceFailure => 4,
            ExceptionCode::Other(code) => code,
        }
    }

    /// What the exception means, as a sentence for the operator: one
    /// sentence for each of the four named exceptions, and one that sends
    /// the operator to the documentation of the device for every other
    /// code.
    pub open spec fn advice_spec(self) -> Seq<char> {
        match self {
            ExceptionCode::IllegalFunction => {
                "The function code is not supported by this device"@
            },
            ExceptionCode::IllegalDataAddress => {
                "The register address range is not valid for this device"@
            },
            ExceptionCode::IllegalDataValue => {
                "A value in the request is not allowed for this device"@
            },
            ExceptionCode::ServerDeviceFailure => "The slave device has encountered an error"@,
            ExceptionCode::Other(_) => "Check the device documentation for error details"@,
        }
    }

    /// What the exception means, as a sentence for the operator.
    pub fn advice(self) -> (text: &'static str)
        ensures
            text@ == self.advice_spec(),
    {
        match self {
            ExceptionCode::IllegalFunction => "The function code is not supported by this device",
            ExceptionCode::IllegalDataAddress => {
                "The register address range is not valid for this device"
            },
            ExceptionCode::IllegalDataValue => {
                "A value in the request is not allowed for this device"
            },
            ExceptionCode::ServerDeviceFailure => "The slave device has encountered an error",
            ExceptionCode::Other(_) => "Check the device documentation for error details",
        }
    }
}

/// Each of the four named exceptions has a sentence of its own: two
/// exceptions share their sentence only where they are the same exception,
/// or where neither of them is named.
pub proof fn lemma_advice_is_specific(a: ExceptionCode, b: ExceptionCode)
    ensures
        a.advice_spec() == b.advice_spec() <==> a == b || (a is Other && b is Other),
{
    reveal_strlit("The function code is not supported by this device");
    reveal_strlit("The register address range is not valid for this device");
    reveal_strlit("A value in the request is not allowed for this device");
    reveal_strlit("The slave device has encountered an error");
    reveal_strlit("Check the device documentation for error details");
    assert(ExceptionCode::IllegalFunction.advice_spec().len() == 49);
    assert(ExceptionCode::IllegalDataAddress.advice_spec().len() == 55);
    assert(ExceptionCode::IllegalDataValue.advice_spec().len() == 53);
    assert(ExceptionCode::ServerDeviceFailure.advice_spec().len() == 41);
    assert("Check the device documentation for error details"@.len() == 48);
}

/// Reading a code and writing it back gives the code, and writing a
/// well-formed exception and reading it back gives the exception.
pub proof fn lemma_exception_code_round_trip(code: u8, exception: ExceptionCode)
    ensures
        ExceptionCode::from_code_spec(code).code_spec() == code,
        ExceptionCode::from_code_spec(code).wf(),
        exception.wf() ==> ExceptionCode::from_code_spec(exception.code_spec()) == exception,
{
}

/// The decoded answer to a read.
#[derive(Clone, Debug, PartialEq, Eq)]
pub enum ReadResponse {
    /// Coils or discrete inputs, in address order.
    Bits(Vec<bool>),
    /// Holding or input registers, in address order.
    Registers(Vec<u16>),
    /// The device refused the request.
    Exception(ExceptionCode),
}

/// The mathematical value of a [`ReadResponse`].
pub enum ReadData {
    /// Coils or discrete inputs, in address order.
    Bits(Seq<bool>),
    /// Holding or input registers, in address order.
    Registers(Seq<u16>),
    /// The device refused the request.
    Exception(ExceptionCode),
}

impl View for ReadResponse {
    type V = ReadData;

    open spec fn view(&self) -> ReadData {
        match self {
            ReadResponse::Bits(bits) => ReadData::Bits(bits@),
            ReadResponse::Registers(words) => ReadData::Registers(words@),
            ReadResponse::Exception(exception) => ReadData::Exception(*exception),
        }
    }
}

} // verus!
