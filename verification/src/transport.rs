//! The bytes that cross the bus: a command with its closing NUL one way, a
//! status byte and a payload the other way.
use crate::command::{Command, ResponseKind};
use crate::device::{
    device_info_of, device_status_of, exported_info_of, exported_of, led_status_of,
    protocol_lock_status_of, DeviceInfo, DeviceInfoText, DeviceStatus, Exported, ExportedInfo,
    ExportedText, LedStatus, ProtocolLockStatus,
};
use crate::errors::{fail, viewed, ErrorKind, PhError};
use crate::response::{
    calibration_status_of, compensation_value_of, probe_slope_of, sensor_reading_of,
    CalibrationStatus, CompensationValue, ProbeSlope, SensorReading,
};
use crate::text::chars_of;
use vstd::prelude::*;

verus! {

/// Known response codes from the chip.
#[derive(Copy, Clone, Eq, Debug, PartialEq, Structural)]
pub enum ResponseCode {
    /// The chip has nothing to send: status byte 255.
    NoDataExpected,
    /// The chip is still processing: status byte 254.
    Pending,
    /// The chip could not carry out the command: status byte 2.
    DeviceError,
    /// The payload follows: status byte 1.
    Success,
    /// Any other status byte. The chip sends none such.
    UnknownError,
}

/// The response code that a status byte stands for.
pub open spec fn response_code_of(code_byte: u8) -> ResponseCode {
    if code_byte == 255 {
        ResponseCode::NoDataExpected
    } else if code_byte == 254 {
        ResponseCode::Pending
    } else if code_byte == 2 {
        ResponseCode::DeviceError
    } else if code_byte == 1 {
        ResponseCode::Success
    } else {
        ResponseCode::UnknownError
    }
}

/// Determines the response code sent by the chip.
pub fn response_code(code_byte: u8) -> (code: ResponseCode)
    ensures
        code == response_code_of(code_byte),
{
    match code_byte {
        255 => ResponseCode::NoDataExpected,
        254 => ResponseCode::Pending,
        2 => ResponseCode::DeviceError,
        1 => ResponseCode::Success,
        _ => ResponseCode::UnknownError,
    }
}

/// A byte without its high bit, which some bus masters set by mistake.
pub open spec fn low_bits(byte: u8) -> u8 {
    byte & 0x7f
}

/// The text of a payload: the bytes before the first NUL, or all of them
/// where there is none, each without its high bit.
pub open spec fn payload_text(data: Seq<u8>) -> Seq<char>
    decreases data.len(),
{
    if data.len() == 0 || low_bits(data[0]) == 0 {
        Seq::<char>::empty()
    } else {
        seq![low_bits(data[0]) as char] + payload_text(data.drop_first())
    }
}

/// The payload text is as long as the run of bytes before the first NUL,
/// holds those bytes without their high bits, and so is ASCII without NUL.
pub proof fn lemma_payload_text(data: Seq<u8>)
    ensures
        payload_text(data).len() <= data.len(),
        forall|i: int|
            0 <= i < payload_text(data).len() ==> #[trigger] payload_text(data)[i] == low_bits(
                data[i],
            ) as char && low_bits(data[i]) != 0,
        payload_text(data).len() < data.len() ==> low_bits(data[payload_text(data).len() as int])
            == 0,
    decreases data.len(),
{
    if data.len() == 0 || low_bits(data[0]) == 0 {
    } else {
        let rest = data.drop_first();
        lemma_payload_text(rest);
        let text = payload_text(data);
        assert forall|i: int| 0 <= i < text.len() implies #[trigger] text[i] == low_bits(
            data[i],
        ) as char && low_bits(data[i]) != 0 by {
            if i > 0 {
                assert(text[i] == payload_text(rest)[i - 1]);
                assert(rest[i - 1] == data[i]);
            }
        }
        if text.len() < data.len() {
            assert(rest[payload_text(rest).len() as int] == data[text.len() as int]);
        }
    }
}

/// Converts the bytes of a payload, as they come raw from the bus, into an
/// owned string.
pub fn string_from_response_data(response: &[u8]) -> (text: String)
    ensures
        text@ == payload_text(response@),
{
    let mut text = String::new();
    let mut i: usize = 0;
    assert(response@.skip(0) =~= response@);
    while i < response.len()
        invariant
            i <= response.len(),
            payload_text(response@) == text@ + payload_text(response@.skip(i as int)),
        ensures
            payload_text(response@) == text@,
        decreases response.len() - i,
    {
        let byte = response[i] & 0x7f;
        let ghost rest = response@.skip(i as int);
        assert(rest[0] == response@[i as int]);
        if byte == 0 {
            assert(text@ + Seq::<char>::empty() =~= text@);
            break ;
        }
        let ghost before = text@;
        text.push(byte as char);
        assert(rest.drop_first() =~= response@.skip(i + 1));
        assert(text@ + payload_text(response@.skip(i + 1)) =~= before + payload_text(rest));
        i += 1;
    }
    proof {
        if i == response.len() {
            assert(text@ + Seq::<char>::empty() =~= text@);
        }
    }
    text
}

/// The bytes of an ASCII text, with a closing NUL.
pub open spec fn terminated_bytes(text: Seq<char>) -> Seq<u8> {
    Seq::new(text.len(), |i: int| text[i] as u8).push(0)
}

/// The bytes to write to the bus for a command text: its characters, then a
/// NUL.
pub fn command_bytes(text: &str) -> (bytes: Vec<u8>)
    ensures
        bytes@ == terminated_bytes(text@),
{
    let chars = chars_of(text);
    let mut bytes: Vec<u8> = Vec::new();
    let mut i: usize = 0;
    while i < chars.len()
        invariant
            i <= chars.len(),
            bytes@ == Seq::new(i as nat, |j: int| chars@[j] as u8),
        decreases chars.len() - i,
    {
        bytes.push(chars[i] as u8);
        assert(bytes@ =~= Seq::new((i + 1) as nat, |j: int| chars@[j] as u8));
        i += 1;
    }
    bytes.push(0);
    assert(bytes@ =~= terminated_bytes(text@));
    bytes
}

/// The bytes to write to the bus for a command.
pub fn wire_bytes(command: &Command) -> (bytes: Vec<u8>)
    ensures
        bytes@ == terminated_bytes(command@.wire_text()),
{
    let text = command.get_command_string();
    command_bytes(text.as_str())
}

/// What the chip answered.
#[derive(Clone, Eq, Debug, PartialEq)]
pub enum Response {
    /// The command was carried out.
    Ack,
    CalibrationStatus(CalibrationStatus),
    Exported(Exported),
    ExportedInfo(ExportedInfo),
    DeviceInfo(DeviceInfo),
    LedStatus(LedStatus),
    ProtocolLockStatus(ProtocolLockStatus),
    SensorReading(SensorReading),
    ProbeSlope(ProbeSlope),
    DeviceStatus(DeviceStatus),
    CompensationValue(CompensationValue),
}

/// A response as contracts see it, with plain sequences of characters in
/// place of strings.
pub ghost enum ResponseView {
    Ack,
    CalibrationStatus(CalibrationStatus),
    Exported(ExportedText),
    ExportedInfo(ExportedInfo),
    DeviceInfo(DeviceInfoText),
    LedStatus(LedStatus),
    ProtocolLockStatus(ProtocolLockStatus),
    SensorReading(SensorReading),
    ProbeSlope(ProbeSlope),
    DeviceStatus(DeviceStatus),
    CompensationValue(CompensationValue),
}

impl View for Response {
    type V = ResponseView;

    open spec fn view(&self) -> ResponseView {
        match self {
            Response::Ack => ResponseView::Ack,
            Response::CalibrationStatus(v) => ResponseView::CalibrationStatus(*v),
            Response::Exported(v) => ResponseView::Exported(v@),
            Response::ExportedInfo(v) => ResponseView::ExportedInfo(*v),
            Response::DeviceInfo(v) => ResponseView::DeviceInfo(v@),
            Response::LedStatus(v) => ResponseView::LedStatus(*v),
            Response::ProtocolLockStatus(v) => ResponseView::ProtocolLockStatus(*v),
            Response::SensorReading(v) => ResponseView::SensorReading(*v),
            Response::ProbeSlope(v) => ResponseView::ProbeSlope(*v),
            Response::DeviceStatus(v) => ResponseView::DeviceStatus(*v),
            Response::CompensationValue(v) => ResponseView::CompensationValue(*v),
        }
    }
}

/// The error of a payload that does not follow its grammar.
pub open spec fn parse_error() -> PhError {
    PhError { inner: ErrorKind::ResponseParse }
}

/// The response of the given shape that a payload text stands for. An
/// acknowledgement has no payload to speak of, so any text will do for it.
pub open spec fn response_of(kind: ResponseKind, s: Seq<char>) -> Result<ResponseView, PhError> {
    match kind {
        ResponseKind::Ack => Ok(ResponseView::Ack),
        ResponseKind::CalibrationStatus => match calibration_status_of(s) {
            Some(v) => Ok(ResponseView::CalibrationStatus(v)),
            None => Err(parse_error()),
        },
        ResponseKind::Exported => match exported_of(s) {
            Some(v) => Ok(ResponseView::Exported(v)),
            None => Err(parse_error()),
        },
        ResponseKind::ExportedInfo => match exported_info_of(s) {
            Some(v) => Ok(ResponseView::ExportedInfo(v)),
            None => Err(parse_error()),
        },
        ResponseKind::DeviceInfo => match device_info_of(s) {
            Some(v) => Ok(ResponseView::DeviceInfo(v)),
            None => Err(parse_error()),
        },
        ResponseKind::LedStatus => match led_status_of(s) {
            Some(v) => Ok(ResponseView::LedStatus(v)),
            None => Err(parse_error()),
        },
        ResponseKind::ProtocolLockStatus => match protocol_lock_status_of(s) {
            Some(v) => Ok(ResponseView::ProtocolLockStatus(v)),
            None => Err(parse_error()),
        },
        ResponseKind::SensorReading => match sensor_reading_of(s) {
            Ok(v) => Ok(ResponseView::SensorReading(v)),
            Err(e) => Err(e),
        },
        ResponseKind::ProbeSlope => match probe_slope_of(s) {
            Some(v) => Ok(ResponseView::ProbeSlope(v)),
            None => Err(parse_error()),
        },
        ResponseKind::DeviceStatus => match device_status_of(s) {
            Some(v) => Ok(ResponseView::DeviceStatus(v)),
            None => Err(parse_error()),
        },
        ResponseKind::CompensationValue => match compensation_value_of(s) {
            Some(v) => Ok(ResponseView::CompensationValue(v)),
            None => Err(parse_error()),
        },
    }
}

/// Parses a payload text as the response of the given shape.
pub fn parse_response(kind: ResponseKind, payload: &str) -> (r: Result<Response, PhError>)
    ensures
        viewed(r) == response_of(kind, payload@),
{
    match kind {
        ResponseKind::Ack => Ok(Response::Ack),
        ResponseKind::CalibrationStatus => match CalibrationStatus::parse(payload) {
            Ok(v) => Ok(Response::CalibrationStatus(v)),
            Err(e) => Err(e),
        },
        ResponseKind::Exported => match Exported::parse(payload) {
            Ok(v) => Ok(Response::Exported(v)),
            Err(e) => Err(e),
        },
        ResponseKind::ExportedInfo => match ExportedInfo::parse(payload) {
            Ok(v) => Ok(Response::ExportedInfo(v)),
            Err(e) => Err(e),
        },
        ResponseKind::DeviceInfo => match DeviceInfo::parse(payload) {
            Ok(v) => Ok(Response::DeviceInfo(v)),
            Err(e) => Err(e),
        },
        ResponseKind::LedStatus => match LedStatus::parse(payload) {
            Ok(v) => Ok(Response::LedStatus(v)),
            Err(e) => Err(e),
        },
        ResponseKind::ProtocolLockStatus => match ProtocolLockStatus::parse(payload) {
            Ok(v) => Ok(Response::ProtocolLockStatus(v)),
            Err(e) => Err(e),
        },
        ResponseKind::SensorReading => match SensorReading::parse(payload) {
            Ok(v) => Ok(Response::SensorReading(v)),
            Err(e) => Err(e),
        },
        ResponseKind::ProbeSlope => match ProbeSlope::parse(payload) {
            Ok(v) => Ok(Response::ProbeSlope(v)),
            Err(e) => Err(e),
        },
        ResponseKind::DeviceStatus => match DeviceStatus::parse(payload) {
            Ok(v) => Ok(Response::DeviceStatus(v)),
            Err(e) => Err(e),
        },
        ResponseKind::CompensationValue => match CompensationValue::parse(payload) {
            Ok(v) => Ok(Response::CompensationValue(v)),
            Err(e) => Err(e),
        },
    }
}

/// What a buffer read from the bus stands for, where a response of the
/// given shape is expected: the first byte is the status, and on success the
/// payload follows it.
pub open spec fn reply_of(kind: ResponseKind, data: Seq<u8>) -> Result<ResponseView, PhError> {
    if data.len() == 0 {
        Err(PhError { inner: ErrorKind::MalformedResponse })
    } else {
        match response_code_of(data[0]) {
            ResponseCode::Success => response_of(kind, payload_text(data.skip(1))),
            ResponseCode::Pending => Err(PhError { inner: ErrorKind::PendingResponse }),
            ResponseCode::DeviceError => Err(PhError { inner: ErrorKind::DeviceErrorResponse }),
            ResponseCode::NoDataExpected => Err(
                PhError { inner: ErrorKind::NoDataExpectedResponse },
            ),
            ResponseCode::UnknownError => Err(PhError { inner: ErrorKind::MalformedResponse }),
        }
    }
}

/// Decodes a buffer read from the bus as the response of the given shape.
pub fn decode_response(kind: ResponseKind, data: &[u8]) -> (r: Result<Response, PhError>)
    ensures
        viewed(r) == reply_of(kind, data@),
{
    if data.len() == 0 {
        return fail(ErrorKind::MalformedResponse);
    }
    match response_code(data[0]) {
        ResponseCode::Success => {
            let payload = vstd::slice::slice_subrange(data, 1, data.len());
            assert(payload@ =~= data@.skip(1));
            let text = string_from_response_data(payload);
            parse_response(kind, text.as_str())
        },
        ResponseCode::Pending => fail(ErrorKind::PendingResponse),
        ResponseCode::DeviceError => fail(ErrorKind::DeviceErrorResponse),
        ResponseCode::NoDataExpected => fail(ErrorKind::NoDataExpectedResponse),
        ResponseCode::UnknownError => fail(ErrorKind::MalformedResponse),
    }
}

} // verus!
