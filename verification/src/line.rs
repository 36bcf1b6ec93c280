//! The configuration of the serial line, checked before a device is
//! opened with it.

use crate::error::ValidationError;
use vstd::prelude::*;
use vstd::string::*;

verus! {

/// Number of data bits in a character.
#[derive(Clone, Copy, Debug, PartialEq, Eq, Structural)]
pub enum DataBits {
    /// 5 bits.
    Five,
    /// 6 bits.
    Six,
    /// 7 bits.
    Seven,
    /// 8 bits.
    Eight,
}

/// Number of stop bits after a character.
#[derive(Clone, Copy, Debug, PartialEq, Eq, Structural)]
pub enum StopBits {
    /// 1 bit.
    One,
    /// 2 bits.
    Two,
}

/// Parity bit of a character.
#[derive(Clone, Copy, Debug, PartialEq, Eq, Structural)]
pub enum Parity {
    /// No parity bit.
    NoParity,
    /// The number of set bits, parity bit included, is odd.
    Odd,
    /// The number of set bits, parity bit included, is even.
    Even,
}

impl DataBits {
    /// The number of bits.
    pub open spec fn number_spec(self) -> u8 {
        match self {
            DataBits::Five => 5,
            DataBits::Six => 6,
            DataBits::Seven => 7,
            DataBits::Eight => 8,
        }
    }

    /// The setting for a number of bits, if there is one.
    pub open spec fn from_number_spec(number: u8) -> Option<DataBits> {
        if number == 5 {
            Some(DataBits::Five)
        } else if number == 6 {
            Some(DataBits::Six)
        } else if number == 7 {
            Some(DataBits::Seven)
        } else if number == 8 {
            Some(DataBits::Eight)
        } else {
            None
        }
    }

    /// The number of bits.
    #[verifier::when_used_as_spec(number_spec)]
    pub fn number(self) -> (number: u8)
        ensures
            number == self.number_spec(),
    {
        match self {
            DataBits::Five => 5,
            DataBits::Six => 6,
            DataBits::Seven => 7,
            DataBits::Eight => 8,
        }
    }

    /// Reads a number of data bits; any number but 5, 6, 7, 8 is refused.
    pub fn from_number(number: u8) -> (bits: Result<DataBits, ValidationError>)
        ensures
            bits == match Self::from_number_spec(number) {
                Some(b) => Ok::<DataBits, ValidationError>(b),
                None => Err(ValidationError::InvalidDataBits),
            },
    {
        if number == 5 {
            Ok(DataBits::Five)
        } else if number == 6 {
            Ok(DataBits::Six)
        } else if number == 7 {
            Ok(DataBits::Seven)
        } else if number == 8 {
            Ok(DataBits::Eight)
        } else {
            Err(ValidationError::InvalidDataBits)
        }
    }
}

impl StopBits {
    /// The number of bits.
    pub open spec fn number_spec(self) -> u8 {
        match self {
            StopBits::One => 1,
            StopBits::Two => 2,
        }
    }

    /// The setting for a number of bits, if there is one.
    pub open spec fn from_number_spec(number: u8) -> Option<StopBits> {
        if number == 1 {
            Some(StopBits::One)
        } else if number == 2 {
            Some(StopBits::Two)
        } else {
            None
        }
    }

    /// The number of bits.
    #[verifier::when_used_as_spec(number_spec)]
    pub fn number(self) -> (number: u8)
        ensures
            number == self.number_spec(),
    {
        match self {
            StopBits::One => 1,
            StopBits::Two => 2,
        }
    }

    /// Reads a number of stop bits; any number but 1 and 2 is refused.
    pub fn from_number(number: u8) -> (bits: Result<StopBits, ValidationError>)
        ensures
            bits == match Self::from_number_spec(number) {
                Some(b) => Ok::<StopBits, ValidationError>(b),
                None => Err(ValidationError::InvalidStopBits),
            },
    {
        if number == 1 {
            Ok(StopBits::One)
        } else if number == 2 {
            Ok(StopBits::Two)
        } else {
            Err(ValidationError::InvalidStopBits)
        }
    }
}

/// The character is the given letter, in either case.
pub open spec fn is_letter(c: char, lower: char, upper: char) -> bool {
    c == lower || c == upper
}

impl Parity {
    /// The parity that a name stands for: `none`, `odd` or `even`, in any
    /// mix of upper and lower case, and nothing else.
    pub open spec fn from_name_spec(name: Seq<char>) -> Option<Parity> {
        if name.len() == 4 && is_letter(name[0], 'n', 'N') && is_letter(name[1], 'o', 'O')
            && is_letter(name[2], 'n', 'N') && is_letter(name[3], 'e', 'E') {
            Some(Parity::NoParity)
        } else if name.len() == 3 && is_letter(name[0], 'o', 'O') && is_letter(name[1], 'd', 'D')
            && is_letter(name[2], 'd', 'D') {
            Some(Parity::Odd)
        } else if name.len() == 4 && is_letter(name[0], 'e', 'E') && is_letter(name[1], 'v', 'V')
            && is_letter(name[2], 'e', 'E') && is_letter(name[3], 'n', 'N') {
            Some(Parity::Even)
        } else {
            None
        }
    }

    /// Reads the name of a parity.
    pub fn from_name(name: &str) -> (parity: Result<Parity, ValidationError>)
        ensures
            parity == match Self::from_name_spec(name@) {
                Some(p) => Ok::<Parity, ValidationError>(p),
                None => Err(ValidationError::InvalidParity),
            },
    {
        let len: usize = name.unicode_len();
        if len == 3 {
            let c0 = name.get_char(0);
            let c1 = name.get_char(1);
            let c2 = name.get_char(2);
            if (c0 == 'o' || c0 == 'O') && (c1 == 'd' || c1 == 'D') && (c2 == 'd' || c2 == 'D') {
                return Ok(Parity::Odd);
            }
        } else if len == 4 {
            let c0 = name.get_char(0);
            let c1 = name.get_char(1);
            let c2 = name.get_char(2);
            let c3 = name.get_char(3);
            if (c0 == 'n' || c0 == 'N') && (c1 == 'o' || c1 == 'O') && (c2 == 'n' || c2 == 'N')
                && (c3 == 'e' || c3 == 'E') {
                return Ok(Parity::NoParity);
            }
            if (c0 == 'e' || c0 == 'E') && (c1 == 'v' || c1 == 'V') && (c2 == 'e' || c2 == 'E')
                && (c3 == 'n' || c3 == 'N') {
                return Ok(Parity::Even);
            }
        }
        Err(ValidationError::InvalidParity)
    }
}

/// The settings of the serial line and the time to wait for a reply.
#[derive(Clone, Copy, Debug, PartialEq, Eq, Structural)]
pub struct LineConfig {
    /// Symbols per second; never zero.
    pub baud_rate: u32,
    /// Data bits in a character.
    pub data_bits: DataBits,
    /// Stop bits after a character.
    pub stop_bits: StopBits,
    /// Parity bit of a character.
    pub parity: Parity,
    /// Milliseconds to wait for a reply.
    pub timeout_ms: u64,
}

impl LineConfig {
    /// The baud rate is positive.
    pub open spec fn wf(self) -> bool {
        self.baud_rate > 0
    }

    /// The configuration that the given settings stand for, or the first
    /// of them that is refused: the parity name, the number of data bits,
    /// the number of stop bits, the baud rate, in this order.
    pub open spec fn new_spec(
        baud_rate: u32,
        data_bits: u8,
        stop_bits: u8,
        parity: Seq<char>,
        timeout_ms: u64,
    ) -> Result<LineConfig, ValidationError> {
        if Parity::from_name_spec(parity) is None {
            Err(ValidationError::InvalidParity)
        } else if DataBits::from_number_spec(data_bits) is None {
            Err(ValidationError::InvalidDataBits)
        } else if StopBits::from_number_spec(stop_bits) is None {
            Err(ValidationError::InvalidStopBits)
        } else if baud_rate == 0 {
            Err(ValidationError::InvalidBaudRate)
        } else {
            Ok(
                LineConfig {
                    baud_rate,
                    data_bits: DataBits::from_number_spec(data_bits)->Some_0,
                    stop_bits: StopBits::from_number_spec(stop_bits)->Some_0,
                    parity: Parity::from_name_spec(parity)->Some_0,
                    timeout_ms,
                },
            )
        }
    }

    /// Bits that one character takes on the line: a start bit, the data
    /// bits, the parity bit where there is one, and the stop bits.
    pub open spec fn character_bits_spec(self) -> int {
        1 + self.data_bits.number_spec() + (if self.parity == Parity::NoParity {
            0int
        } else {
            1int
        }) + self.stop_bits.number_spec()
    }

    /// Microseconds of silence that end a frame: the time of three and a
    /// half characters, rounded up, and 1750 at rates above 19200 baud.
    pub open spec fn frame_gap_micros_spec(self) -> int {
        if self.baud_rate > 19200 {
            1750
        } else {
            (3_500_000 * self.character_bits_spec() + self.baud_rate - 1) / (self.baud_rate as int)
        }
    }

    /// Bits that one character takes on the line.
    pub fn character_bits(&self) -> (bits: u8)
        ensures
            bits == self.character_bits_spec(),
            7 <= bits <= 12,
    {
        let parity: u8 = match self.parity {
            Parity::NoParity => 0,
            _ => 1,
        };
        1 + self.data_bits.number() + parity + self.stop_bits.number()
    }

    /// Microseconds of silence that end a frame.
    pub fn frame_gap_micros(&self) -> (micros: u64)
        requires
            self.wf(),
        ensures
            micros == self.frame_gap_micros_spec(),
    {
        if self.baud_rate > 19200 {
            1750
        } else {
            let bits: u64 = self.character_bits() as u64;
            let rate: u64 = self.baud_rate as u64;
            (3_500_000 * bits + rate - 1) / rate
        }
    }

    /// Checks the settings of a line and builds its configuration.
    pub fn new(
        baud_rate: u32,
        data_bits: u8,
        stop_bits: u8,
        parity: &str,
        timeout_ms: u64,
    ) -> (made: Result<LineConfig, ValidationError>)
        ensures
            made == Self::new_spec(baud_rate, data_bits, stop_bits, parity@, timeout_ms),
            made matches Ok(config) ==> config.wf(),
    {
        let parity = match Parity::from_name(parity) {
            Ok(p) => p,
            Err(e) => {
                return Err(e);
            },
        };
        let data_bits = match DataBits::from_number(data_bits) {
            Ok(b) => b,
            Err(e) => {
                return Err(e);
            },
        };
        let stop_bits = match StopBits::from_number(stop_bits) {
            Ok(b) => b,
            Err(e) => {
                return Err(e);
            },
        };
        if baud_rate == 0 {
            return Err(ValidationError::InvalidBaudRate);
        }
        Ok(LineConfig { baud_rate, data_bits, stop_bits, parity, timeout_ms })
    }
}

} // verus!
