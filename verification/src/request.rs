//! Read requests and the bounds they must keep.

use crate::error::ValidationError;
use vstd::prelude::*;

verus! {

/// Most coils or discrete inputs that one reply frame can carry.
pub const MAX_BITS: u16 = 2000;

/// Most registers that one reply frame can carry.
pub const MAX_REGISTERS: u16 = 125;

/// The four read functions.
#[derive(Clone, Copy, Debug, PartialEq, Eq, Structural)]
pub enum FunctionCode {
    /// Function 1.
    ReadCoils,
    /// Function 2.
    ReadDiscreteInputs,
    /// Function 3.
    ReadHoldingRegisters,
    /// Function 4.
    ReadInputRegisters,
}

impl FunctionCode {
    /// The number that stands for this function on the wire.
    pub open spec fn code_spec(self) -> u8 {
        match self {
            FunctionCode::ReadCoils => 1,
            FunctionCode::ReadDiscreteInputs => 2,
            FunctionCode::ReadHoldingRegisters => 3,
            FunctionCode::ReadInputRegisters => 4,
        }
    }

    /// The function that a number stands for, if it is one of the four.
    pub open spec fn from_code_spec(code: u8) -> Option<FunctionCode> {
        if code == 1 {
            Some(FunctionCode::ReadCoils)
        } else if code == 2 {
            Some(FunctionCode::ReadDiscreteInputs)
        } else if code == 3 {
            Some(FunctionCode::ReadHoldingRegisters)
        } else if code == 4 {
            Some(FunctionCode::ReadInputRegisters)
        } else {
            None
        }
    }

    /// Whether the function reads single bits rather than registers.
    pub open spec fn is_bit_type_spec(self) -> bool {
        self == FunctionCode::ReadCoils || self == FunctionCode::ReadDiscreteInputs
    }

    /// Most items that one request of this function may ask for.
    pub open spec fn max_quantity_spec(self) -> u16 {
        if self.is_bit_type_spec() {
            2000
        } else {
            125
        }
    }

    /// The number that stands for this function on the wire.
    #[verifier::when_used_as_spec(code_spec)]
    pub fn code(self) -> (code: u8)
        ensures
            code == self.code_spec(),
    {
        match self {
            FunctionCode::ReadCoils => 1,
            FunctionCode::ReadDiscreteInputs => 2,
            FunctionCode::ReadHoldingRegisters => 3,
            FunctionCode::ReadInputRegisters => 4,
        }
    }

    /// Reads a function code; any number but 1 to 4 is unsupported.
    pub fn from_code(code: u8) -> (function: Result<FunctionCode, ValidationError>)
        ensures
            function == match Self::from_code_spec(code) {
                Some(f) => Ok::<FunctionCode, ValidationError>(f),
                None => Err(ValidationError::UnsupportedFunction),
            },
    {
        if code == 1 {
            Ok(FunctionCode::ReadCoils)
        } else if code == 2 {
            Ok(FunctionCode::ReadDiscreteInputs)
        } else if code == 3 {
            Ok(FunctionCode::ReadHoldingRegisters)
        } else if code == 4 {
            Ok(FunctionCode::ReadInputRegisters)
        } else {
            Err(ValidationError::UnsupportedFunction)
        }
    }

    /// Whether the function reads single bits rather than registers.
    #[verifier::when_used_as_spec(is_bit_type_spec)]
    pub fn is_bit_type(self) -> (bits: bool)
        ensures
            bits == self.is_bit_type_spec(),
    {
        match self {
            FunctionCode::ReadCoils => true,
            FunctionCode::ReadDiscreteInputs => true,
            FunctionCode::ReadHoldingRegisters => false,
            FunctionCode::ReadInputRegisters => false,
        }
    }

    /// Most items that one request of this function may ask for.
    #[verifier::when_used_as_spec(max_quantity_spec)]
    pub fn max_quantity(self) -> (limit: u16)
        ensures
            limit == self.max_quantity_spec(),
    {
        if self.is_bit_type() {
            MAX_BITS
        } else {
            MAX_REGISTERS
        }
    }
}

/// Every function is the one its code stands for, and every supported code
/// is the code of the function it stands for.
pub proof fn lemma_function_code_round_trip(function: FunctionCode, code: u8)
    ensures
        FunctionCode::from_code_spec(function.code_spec()) == Some(function),
        1 <= function.code_spec() <= 4,
        FunctionCode::from_code_spec(code) matches Some(f) ==> f.code_spec() == code,
        FunctionCode::from_code_spec(code) is Some <==> 1 <= code <= 4,
{
}

/// A request to read `quantity` items from `start_address` on device `slave`.
#[derive(Clone, Copy, Debug, PartialEq, Eq, Structural)]
pub struct ReadRequest {
    /// Address of the device on the bus; 0 addresses all devices.
    pub slave: u8,
    /// What to read.
    pub function: FunctionCode,
    /// Address of the first item.
    pub start_address: u16,
    /// Number of items.
    pub quantity: u16,
}

impl ReadRequest {
    /// The first rule the request breaks, if it breaks one: the quantity is
    /// at least 1, it is within the ceiling of the function, and the last
    /// address is within 16 bits.
    pub open spec fn check_spec(self) -> Result<(), ValidationError> {
        if self.quantity == 0 {
            Err(ValidationError::ZeroQuantity)
        } else if self.quantity > self.function.max_quantity_spec() {
            Err(ValidationError::QuantityTooLarge)
        } else if self.start_address + self.quantity - 1 > 0xFFFF {
            Err(ValidationError::AddressOverflow)
        } else {
            Ok(())
        }
    }

    /// The request keeps all three rules.
    pub open spec fn valid(self) -> bool {
        &&& 1 <= self.quantity <= self.function.max_quantity_spec()
        &&& self.start_address + self.quantity - 1 <= 0xFFFF
    }

    /// Address of the last item of a request that has one.
    pub open spec fn last_address_spec(self) -> int {
        self.start_address + self.quantity - 1
    }

    /// Checks the request against the three rules.
    pub fn validate(&self) -> (checked: Result<(), ValidationError>)
        ensures
            checked == self.check_spec(),
            checked is Ok <==> self.valid(),
    {
        if self.quantity == 0 {
            Err(ValidationError::ZeroQuantity)
        } else if self.quantity > self.function.max_quantity() {
            Err(ValidationError::QuantityTooLarge)
        } else if self.quantity - 1 > 0xFFFF - self.start_address {
            Err(ValidationError::AddressOverflow)
        } else {
            Ok(())
        }
    }

    /// Builds a request, or says which rule it would break.
    pub fn new(
        slave: u8,
        function: FunctionCode,
        start_address: u16,
        quantity: u16,
    ) -> (made: Result<ReadRequest, ValidationError>)
        ensures
            made == match (ReadRequest { slave, function, start_address, quantity }).check_spec() {
                Ok(_) => Ok::<ReadRequest, ValidationError>(
                    ReadRequest { slave, function, start_address, quantity },
                ),
                Err(e) => Err(e),
            },
            made matches Ok(request) ==> request.valid(),
    {
        let request = ReadRequest { slave, function, start_address, quantity };
        match request.validate() {
            Ok(_) => Ok(request),
            Err(e) => Err(e),
        }
    }

    /// Address of the last item.
    pub fn last_address(&self) -> (last: u16)
        requires
            self.quantity >= 1,
            self.start_address + self.quantity - 1 <= 0xFFFF,
        ensures
            last == self.last_address_spec(),
    {
        self.start_address + (self.quantity - 1)
    }
}

} // verus!
