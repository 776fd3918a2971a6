use ezo_ph::command::{Command, ImportString, ResponseKind};
use ezo_ph::decimal::Decimal;
use ezo_ph::device::{
    DeviceInfo, DeviceStatus, Exported, ExportedInfo, LedStatus, ProtocolLockStatus,
    RestartReason,
};
use ezo_ph::errors::{fail, ErrorKind, PhError};
use ezo_ph::response::{CalibrationStatus, CompensationValue, ProbeSlope, SensorReading};
use ezo_ph::transport::{
    command_bytes, decode_response, parse_response, response_code, string_from_response_data,
    wire_bytes, Response, ResponseCode,
};

/// A buffer as the chip fills it: the status byte, the payload, and NULs to
/// the end.
fn buffer(status: u8, payload: &str) -> Vec<u8> {
    let mut data = vec![0u8; 401];
    data[0] = status;
    data[1..1 + payload.len()].copy_from_slice(payload.as_bytes());
    data
}

#[test]
fn tells_the_status_bytes_apart() {
    assert_eq!(response_code(1), ResponseCode::Success);
    assert_eq!(response_code(2), ResponseCode::DeviceError);
    assert_eq!(response_code(254), ResponseCode::Pending);
    assert_eq!(response_code(255), ResponseCode::NoDataExpected);
    for byte in [0u8, 3, 4, 100, 128, 129, 253] {
        assert_eq!(response_code(byte), ResponseCode::UnknownError);
    }
}

#[test]
fn takes_the_payload_up_to_the_first_nul() {
    assert_eq!(string_from_response_data(b"9.560\0"), "9.560");
    assert_eq!(string_from_response_data(b"9.560\0junk\0"), "9.560");
    assert_eq!(string_from_response_data(b"9.560"), "9.560");
    assert_eq!(string_from_response_data(b""), "");
    assert_eq!(string_from_response_data(b"\0abc"), "");
}

#[test]
fn clears_the_high_bit_of_each_byte() {
    assert_eq!(string_from_response_data(&[b'9' | 0x80, b'.', b'5' | 0x80, 0]), "9.5");
    assert_eq!(string_from_response_data(&[b'7', 0x80, b'1']), "7");
    assert_eq!(string_from_response_data(&[0xff, 0x7f]), "\u{7f}\u{7f}");
}

#[test]
fn ends_a_command_with_a_nul() {
    assert_eq!(command_bytes("R"), b"R\0".to_vec());
    assert_eq!(command_bytes(""), vec![0u8]);
    assert_eq!(command_bytes("CAL,MID,7.00"), b"CAL,MID,7.00\0".to_vec());
    assert_eq!(wire_bytes(&Command::Sleep), b"SLEEP\0".to_vec());
    assert_eq!(
        wire_bytes(&Command::TemperatureCompensation(Decimal::from_thousandths(19_500))),
        b"T,19.500\0".to_vec()
    );
    assert_eq!(
        wire_bytes(&Command::Import(ImportString::new("ab 1").unwrap())),
        b"IMPORT,ab 1\0".to_vec()
    );
}

#[test]
fn parses_each_shape_of_response() {
    let cases = vec![
        (ResponseKind::Ack, "", Response::Ack),
        (ResponseKind::Ack, "anything", Response::Ack),
        (
            ResponseKind::CalibrationStatus,
            "?CAL,3",
            Response::CalibrationStatus(CalibrationStatus::ThreePoint),
        ),
        (ResponseKind::Exported, "*DONE", Response::Exported(Exported::Done)),
        (
            ResponseKind::Exported,
            "59 6F",
            Response::Exported(Exported::ExportString("59 6F".to_string())),
        ),
        (
            ResponseKind::ExportedInfo,
            "?EXPORT,10,120",
            Response::ExportedInfo(ExportedInfo { lines: 10, total_bytes: 120 }),
        ),
        (
            ResponseKind::DeviceInfo,
            "?I,pH,1.98",
            Response::DeviceInfo(DeviceInfo {
                device: "pH".to_string(),
                firmware: "1.98".to_string(),
            }),
        ),
        (ResponseKind::LedStatus, "?L,1", Response::LedStatus(LedStatus::On)),
        (
            ResponseKind::ProtocolLockStatus,
            "?PLOCK,0",
            Response::ProtocolLockStatus(ProtocolLockStatus::Off),
        ),
        (
            ResponseKind::SensorReading,
            "9.560",
            Response::SensorReading(SensorReading(Decimal::from_thousandths(9_560))),
        ),
        (
            ResponseKind::ProbeSlope,
            "?SLOPE,99.7,-100.3",
            Response::ProbeSlope(ProbeSlope {
                acid_end: Decimal::from_thousandths(99_700),
                base_end: Decimal::from_thousandths(-100_300),
            }),
        ),
        (
            ResponseKind::DeviceStatus,
            "?STATUS,P,1.5",
            Response::DeviceStatus(DeviceStatus {
                restart_reason: RestartReason::PoweredOff,
                vcc_voltage: Decimal::from_thousandths(1_500),
            }),
        ),
        (
            ResponseKind::CompensationValue,
            "?T,19.5",
            Response::CompensationValue(CompensationValue(Decimal::from_thousandths(19_500))),
        ),
    ];
    for (kind, payload, response) in cases {
        assert_eq!(parse_response(kind, payload).unwrap(), response);
        assert_eq!(decode_response(kind, &buffer(1, payload)).unwrap(), response);
    }
}

#[test]
fn a_payload_of_another_shape_is_a_parse_error() {
    let kinds = [
        ResponseKind::CalibrationStatus,
        ResponseKind::ExportedInfo,
        ResponseKind::DeviceInfo,
        ResponseKind::LedStatus,
        ResponseKind::ProtocolLockStatus,
        ResponseKind::SensorReading,
        ResponseKind::ProbeSlope,
        ResponseKind::DeviceStatus,
        ResponseKind::CompensationValue,
    ];
    for kind in kinds {
        assert_eq!(
            parse_response(kind, "?NOPE,1").unwrap_err().kind(),
            ErrorKind::ResponseParse
        );
        assert_eq!(parse_response(kind, "").unwrap_err().kind(), ErrorKind::ResponseParse);
    }
    assert_eq!(
        parse_response(ResponseKind::Exported, "").unwrap_err().kind(),
        ErrorKind::ResponseParse
    );
    assert_eq!(
        parse_response(ResponseKind::SensorReading, "14.5").unwrap_err().kind(),
        ErrorKind::InvalidReading
    );
}

#[test]
fn decodes_a_buffer_by_its_status_byte() {
    let kind = ResponseKind::SensorReading;
    assert_eq!(
        decode_response(kind, &buffer(1, "7.000")).unwrap(),
        Response::SensorReading(SensorReading(Decimal::from_thousandths(7_000)))
    );
    assert_eq!(
        decode_response(kind, &buffer(2, "7.000")).unwrap_err().kind(),
        ErrorKind::DeviceErrorResponse
    );
    assert_eq!(
        decode_response(kind, &buffer(254, "7.000")).unwrap_err().kind(),
        ErrorKind::PendingResponse
    );
    assert_eq!(
        decode_response(kind, &buffer(255, "7.000")).unwrap_err().kind(),
        ErrorKind::NoDataExpectedResponse
    );
    assert_eq!(
        decode_response(kind, &buffer(0, "7.000")).unwrap_err().kind(),
        ErrorKind::MalformedResponse
    );
    assert_eq!(
        decode_response(kind, &buffer(77, "7.000")).unwrap_err().kind(),
        ErrorKind::MalformedResponse
    );
    assert_eq!(decode_response(kind, &[]).unwrap_err().kind(), ErrorKind::MalformedResponse);
    assert_eq!(decode_response(kind, &[1]).unwrap_err().kind(), ErrorKind::ResponseParse);
    assert_eq!(
        decode_response(kind, &buffer(1, "15")).unwrap_err().kind(),
        ErrorKind::InvalidReading
    );
    assert_eq!(decode_response(ResponseKind::Ack, &[1]).unwrap(), Response::Ack);
    assert_eq!(
        decode_response(ResponseKind::Ack, &[254]).unwrap_err().kind(),
        ErrorKind::PendingResponse
    );
}

#[test]
fn decodes_a_buffer_with_high_bits_set() {
    let mut data = buffer(1, "?CAL,2");
    for byte in data.iter_mut().skip(1) {
        *byte |= 0x80;
    }
    assert_eq!(
        decode_response(ResponseKind::CalibrationStatus, &data).unwrap(),
        Response::CalibrationStatus(CalibrationStatus::TwoPoint)
    );
}

#[test]
fn decodes_a_payload_that_fills_the_buffer() {
    let mut data = vec![b'1'; 401];
    data[0] = 1;
    assert_eq!(
        decode_response(ResponseKind::Exported, &data).unwrap_err().kind(),
        ErrorKind::ResponseParse
    );
    assert_eq!(
        decode_response(ResponseKind::Exported, &[1, b'a', b'b']).unwrap(),
        Response::Exported(Exported::ExportString("ab".to_string()))
    );
}

#[test]
fn every_kind_of_error_has_its_message() {
    let kinds = [
        (ErrorKind::InvalidParameter, "command parameter is out of range"),
        (ErrorKind::CommandParse, "could not parse command"),
        (
            ErrorKind::InvalidReading,
            "response was valid but reading is out of valid range",
        ),
        (ErrorKind::I2CWrite, "command could not be written"),
        (ErrorKind::I2CRead, "response was not obtainable"),
        (
            ErrorKind::MalformedResponse,
            "response is not a valid nul-terminated UTF-8 string",
        ),
        (ErrorKind::ResponseParse, "could not parse response"),
        (ErrorKind::PendingResponse, "response was not yet available"),
        (ErrorKind::DeviceErrorResponse, "the device responded with an error"),
        (ErrorKind::NoDataExpectedResponse, "the device has no data to respond"),
    ];
    for (kind, message) in kinds {
        assert_eq!(kind.message(), message);
        assert_eq!(PhError::from(kind).kind(), kind);
        assert_eq!(fail::<u8>(kind), Err(PhError::from(kind)));
    }
}
