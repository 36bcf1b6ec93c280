use modbus_rtu::codec::{decode_response, encode_response};
use modbus_rtu::request::{FunctionCode, ReadRequest};
use modbus_rtu::response::{ExceptionCode, ReadResponse};
use tokio_modbus::bytes::Bytes;

#[test]
fn function_codes_agree_with_tokio_modbus() {
    assert_eq!(FunctionCode::ReadCoils.code(), tokio_modbus::FunctionCode::ReadCoils.value());
    assert_eq!(
        FunctionCode::ReadDiscreteInputs.code(),
        tokio_modbus::FunctionCode::ReadDiscreteInputs.value()
    );
    assert_eq!(
        FunctionCode::ReadHoldingRegisters.code(),
        tokio_modbus::FunctionCode::ReadHoldingRegisters.value()
    );
    assert_eq!(
        FunctionCode::ReadInputRegisters.code(),
        tokio_modbus::FunctionCode::ReadInputRegisters.value()
    );
}

#[test]
fn exception_codes_agree_with_tokio_modbus() {
    for code in 0..=255u8 {
        let theirs = tokio_modbus::ExceptionCode::new(code);
        let ours = ExceptionCode::from_code(code);
        assert_eq!(u8::from(theirs), ours.code());
        let same_name = match (theirs, ours) {
            (tokio_modbus::ExceptionCode::IllegalFunction, ExceptionCode::IllegalFunction) => true,
            (tokio_modbus::ExceptionCode::IllegalDataAddress, ExceptionCode::IllegalDataAddress) => {
                true
            }
            (tokio_modbus::ExceptionCode::IllegalDataValue, ExceptionCode::IllegalDataValue) => true,
            (tokio_modbus::ExceptionCode::ServerDeviceFailure, ExceptionCode::ServerDeviceFailure) => {
                true
            }
            (_, ExceptionCode::Other(_)) => code == 0 || code > 4,
            _ => false,
        };
        assert!(same_name, "code {}", code);
    }
}

#[test]
fn register_replies_decode_as_tokio_modbus_decodes_them() {
    for quantity in [1u16, 2, 60, 125] {
        let request = ReadRequest {
            slave: 1,
            function: FunctionCode::ReadHoldingRegisters,
            start_address: 0,
            quantity,
        };
        let words: Vec<u16> = (0..quantity).map(|i| i.wrapping_mul(0x0B35) ^ 0xA5A5).collect();
        let frame = encode_response(&request, &ReadResponse::Registers(words.clone()));
        let pdu = Bytes::copy_from_slice(&frame[1..frame.len() - 2]);
        match tokio_modbus::Response::try_from(pdu) {
            Ok(tokio_modbus::Response::ReadHoldingRegisters(theirs)) => assert_eq!(theirs, words),
            other => panic!("unexpected {:?}", other),
        }
        assert_eq!(decode_response(&frame, &request), Ok(ReadResponse::Registers(words)));
    }
}

#[test]
fn bit_replies_decode_as_tokio_modbus_decodes_them() {
    for quantity in [1u16, 3, 8, 9, 1000, 2000] {
        let request =
            ReadRequest { slave: 1, function: FunctionCode::ReadCoils, start_address: 0, quantity };
        let bits: Vec<bool> = (0..quantity).map(|i| i % 3 == 1 || i % 8 == 7).collect();
        let frame = encode_response(&request, &ReadResponse::Bits(bits.clone()));
        let pdu = Bytes::copy_from_slice(&frame[1..frame.len() - 2]);
        match tokio_modbus::Response::try_from(pdu) {
            Ok(tokio_modbus::Response::ReadCoils(theirs)) => {
                assert_eq!(theirs.len(), (quantity as usize + 7) / 8 * 8);
                assert_eq!(&theirs[..quantity as usize], &bits[..]);
                assert!(theirs[quantity as usize..].iter().all(|bit| !bit));
            }
            other => panic!("unexpected {:?}", other),
        }
        assert_eq!(decode_response(&frame, &request), Ok(ReadResponse::Bits(bits)));
    }
}
