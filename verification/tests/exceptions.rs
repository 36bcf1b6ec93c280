use modbus_rtu::response::ExceptionCode;

#[test]
fn named_exceptions_have_codes_one_to_four() {
    assert_eq!(ExceptionCode::from_code(1), ExceptionCode::IllegalFunction);
    assert_eq!(ExceptionCode::from_code(2), ExceptionCode::IllegalDataAddress);
    assert_eq!(ExceptionCode::from_code(3), ExceptionCode::IllegalDataValue);
    assert_eq!(ExceptionCode::from_code(4), ExceptionCode::ServerDeviceFailure);
    assert_eq!(ExceptionCode::IllegalFunction.code(), 1);
    assert_eq!(ExceptionCode::IllegalDataAddress.code(), 2);
    assert_eq!(ExceptionCode::IllegalDataValue.code(), 3);
    assert_eq!(ExceptionCode::ServerDeviceFailure.code(), 4);
}

#[test]
fn other_exceptions_carry_their_number() {
    for code in 5..=11u8 {
        assert_eq!(ExceptionCode::from_code(code), ExceptionCode::Other(code));
    }
    assert_eq!(ExceptionCode::from_code(0), ExceptionCode::Other(0));
    assert_eq!(ExceptionCode::from_code(255), ExceptionCode::Other(255));
    assert_eq!(ExceptionCode::Other(6).code(), 6);
}

#[test]
fn every_code_survives_reading_and_writing() {
    for code in 0..=255u8 {
        assert_eq!(ExceptionCode::from_code(code).code(), code);
    }
}

#[test]
fn advice_for_each_exception() {
    assert_eq!(
        ExceptionCode::IllegalDataAddress.advice(),
        "The register address range is not valid for this device"
    );
    assert_eq!(
        ExceptionCode::IllegalFunction.advice(),
        "The function code is not supported by this device"
    );
    assert_eq!(
        ExceptionCode::ServerDeviceFailure.advice(),
        "The slave device has encountered an error"
    );
    assert_eq!(
        ExceptionCode::IllegalDataValue.advice(),
        "A value in the request is not allowed for this device"
    );
    assert_eq!(
        ExceptionCode::Other(6).advice(),
        "Check the device documentation for error details"
    );
}

#[test]
fn other_codes_send_the_operator_to_the_documentation() {
    for code in (0..=255u8).filter(|code| !(1..=4).contains(code)) {
        assert_eq!(
            ExceptionCode::from_code(code).advice(),
            "Check the device documentation for error details"
        );
    }
}

#[test]
fn each_named_exception_has_advice_of_its_own() {
    let all: Vec<ExceptionCode> = (0..=255u8).map(ExceptionCode::from_code).collect();
    for a in &all {
        for b in &all {
            let both_unnamed =
                matches!(a, ExceptionCode::Other(_)) && matches!(b, ExceptionCode::Other(_));
            assert_eq!(a.advice() == b.advice(), a == b || both_unnamed, "{:?} {:?}", a, b);
        }
    }
}
