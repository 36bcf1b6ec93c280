//! Master side of Modbus RTU: frames, checksums and the rules of one
//! request/response transaction, with every function verified.
//!
//! The library never touches a serial device. [`codec`] builds and checks
//! frames, [`engine`] and [`master`] decide what a transaction does next,
//! [`transport`] decides when a read is over, and the caller moves the
//! bytes.

pub mod codec;
pub mod crc;
pub mod dump;
pub mod engine;
pub mod error;
pub mod laws;
pub mod line;
pub mod master;
pub mod payload;
pub mod request;
pub mod response;
pub mod transport;

pub use codec::{decode_response, encode_request, encode_response};
pub use crc::crc16;
pub use engine::{Action, Event, Transaction};
pub use error::{FrameError, ModbusError, TransportError, ValidationError};
pub use line::{DataBits, LineConfig, Parity, StopBits};
pub use master::ModbusMaster;
pub use request::{FunctionCode, ReadRequest};
pub use response::{ExceptionCode, ReadResponse};
