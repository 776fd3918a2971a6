//! Parses the responses that every chip of the family gives: identity,
//! status, indicator and lock states, and exported calibration data.
use crate::decimal::{decimal_of, Decimal};
use crate::errors::{fail, or_error, viewed, ErrorKind, PhError};
use crate::number::{parse_unsigned, unsigned_of};
use crate::text::{
    all_printable, chars_of, fields, has_prefix, is_printable, is_text, lemma_prefixed_piece,
    lemma_split_nonempty, split_chars, strip_prefix, text_of, views,
};
use vstd::prelude::*;
use vstd::string::*;

verus! {

/// The longest line of calibration data, in characters.
pub const EXPORT_LINE_MAX: usize = 12;

/// Whether `s` can be one line of calibration data: one to twelve printable
/// characters.
pub open spec fn is_export_line(s: Seq<char>) -> bool {
    1 <= s.len() <= EXPORT_LINE_MAX && all_printable(s)
}

/// Whether the characters can be one line of calibration data.
pub fn check_export_line(chars: &[char]) -> (line: bool)
    ensures
        line == is_export_line(chars@),
{
    1 <= chars.len() && chars.len() <= EXPORT_LINE_MAX && is_printable(chars)
}

/// Status of the indicator LED.
#[derive(Copy, Clone, Eq, Debug, PartialEq, Structural)]
pub enum LedStatus {
    Off,
    On,
}

/// The LED status that a response text stands for.
pub open spec fn led_status_of(s: Seq<char>) -> Option<LedStatus> {
    if s == "?L,1"@ {
        Some(LedStatus::On)
    } else if s == "?L,0"@ {
        Some(LedStatus::Off)
    } else {
        None
    }
}

impl LedStatus {
    /// Parses the result of the "L,?" command: `?L,` and `1` or `0`, with
    /// nothing after it.
    pub fn parse(response: &str) -> (r: Result<LedStatus, PhError>)
        ensures
            r == or_error(led_status_of(response@), ErrorKind::ResponseParse),
    {
        let chars = chars_of(response);
        proof {
            reveal_strlit("?L,");
            reveal_strlit("0");
            reveal_strlit("1");
            reveal_strlit("?L,0");
            reveal_strlit("?L,1");
            assert("?L,"@ + "0"@ =~= "?L,0"@);
            assert("?L,"@ + "1"@ =~= "?L,1"@);
            lemma_prefixed_piece(response@, "?L,"@, "0"@, ',');
            lemma_prefixed_piece(response@, "?L,"@, "1"@, ',');
        }
        if let Some(rest) = strip_prefix(chars.as_slice(), "?L,") {
            let split = split_chars(rest, ',');
            proof {
                lemma_split_nonempty(rest@, ',');
                assert(views(split@)[0] == split@[0]@);
            }
            let status = if is_text(split[0].as_slice(), "1") {
                LedStatus::On
            } else if is_text(split[0].as_slice(), "0") {
                LedStatus::Off
            } else {
                return fail(ErrorKind::ResponseParse);
            };
            if split.len() == 1 {
                assert(views(split@) =~= seq![split@[0]@]);
                Ok(status)
            } else {
                fail(ErrorKind::ResponseParse)
            }
        } else {
            fail(ErrorKind::ResponseParse)
        }
    }
}

/// Status of the protocol lock.
#[derive(Copy, Clone, Eq, Debug, PartialEq, Structural)]
pub enum ProtocolLockStatus {
    Off,
    On,
}

/// The protocol-lock status that a response text stands for.
pub open spec fn protocol_lock_status_of(s: Seq<char>) -> Option<ProtocolLockStatus> {
    if s == "?PLOCK,1"@ {
        Some(ProtocolLockStatus::On)
    } else if s == "?PLOCK,0"@ {
        Some(ProtocolLockStatus::Off)
    } else {
        None
    }
}

impl ProtocolLockStatus {
    /// Parses the result of the "PLOCK,?" command: `?PLOCK,` and `1` or `0`,
    /// with nothing after it.
    pub fn parse(response: &str) -> (r: Result<ProtocolLockStatus, PhError>)
        ensures
            r == or_error(protocol_lock_status_of(response@), ErrorKind::ResponseParse),
    {
        let chars = chars_of(response);
        proof {
            reveal_strlit("?PLOCK,");
            reveal_strlit("0");
            reveal_strlit("1");
            reveal_strlit("?PLOCK,0");
            reveal_strlit("?PLOCK,1");
            assert("?PLOCK,"@ + "0"@ =~= "?PLOCK,0"@);
            assert("?PLOCK,"@ + "1"@ =~= "?PLOCK,1"@);
            lemma_prefixed_piece(response@, "?PLOCK,"@, "0"@, ',');
            lemma_prefixed_piece(response@, "?PLOCK,"@, "1"@, ',');
        }
        if let Some(rest) = strip_prefix(chars.as_slice(), "?PLOCK,") {
            let split = split_chars(rest, ',');
            proof {
                lemma_split_nonempty(rest@, ',');
                assert(views(split@)[0] == split@[0]@);
            }
            let status = if is_text(split[0].as_slice(), "1") {
                ProtocolLockStatus::On
            } else if is_text(split[0].as_slice(), "0") {
                ProtocolLockStatus::Off
            } else {
                return fail(ErrorKind::ResponseParse);
            };
            if split.len() == 1 {
                assert(views(split@) =~= seq![split@[0]@]);
                Ok(status)
            } else {
                fail(ErrorKind::ResponseParse)
            }
        } else {
            fail(ErrorKind::ResponseParse)
        }
    }
}

/// Why the chip last restarted.
#[derive(Copy, Clone, Eq, Debug, PartialEq, Structural)]
pub enum RestartReason {
    PoweredOff,
    SoftwareReset,
    BrownOut,
    Watchdog,
    Unknown,
}

/// The restart reason that a code letter stands for.
pub open spec fn restart_reason_of(code: Seq<char>) -> Option<RestartReason> {
    if code == "P"@ {
        Some(RestartReason::PoweredOff)
    } else if code == "S"@ {
        Some(RestartReason::SoftwareReset)
    } else if code == "B"@ {
        Some(RestartReason::BrownOut)
    } else if code == "W"@ {
        Some(RestartReason::Watchdog)
    } else if code == "U"@ {
        Some(RestartReason::Unknown)
    } else {
        None
    }
}

impl RestartReason {
    /// Reads the code letter of a restart reason.
    pub fn read(code: &[char]) -> (reason: Option<RestartReason>)
        ensures
            reason == restart_reason_of(code@),
    {
        if is_text(code, "P") {
            Some(RestartReason::PoweredOff)
        } else if is_text(code, "S") {
            Some(RestartReason::SoftwareReset)
        } else if is_text(code, "B") {
            Some(RestartReason::BrownOut)
        } else if is_text(code, "W") {
            Some(RestartReason::Watchdog)
        } else if is_text(code, "U") {
            Some(RestartReason::Unknown)
        } else {
            None
        }
    }
}

/// Response from the "Status" command: why the chip last restarted, and its
/// supply voltage.
#[derive(Copy, Clone, Eq, Debug, PartialEq, Structural)]
pub struct DeviceStatus {
    pub restart_reason: RestartReason,
    pub vcc_voltage: Decimal,
}

/// The device status that a response text stands for: `?STATUS,` and
/// exactly two fields, a restart code and a decimal number.
pub open spec fn device_status_of(s: Seq<char>) -> Option<DeviceStatus> {
    let values = fields(s.skip("?STATUS,"@.len() as int));
    if has_prefix(s, "?STATUS,"@) && values.len() == 2 {
        match (restart_reason_of(values[0]), decimal_of(values[1])) {
            (Some(restart_reason), Some(vcc_voltage)) => Some(
                DeviceStatus { restart_reason, vcc_voltage },
            ),
            _ => None,
        }
    } else {
        None
    }
}

impl DeviceStatus {
    /// Parses the result of the "Status" command.
    pub fn parse(response: &str) -> (r: Result<DeviceStatus, PhError>)
        ensures
            r == or_error(device_status_of(response@), ErrorKind::ResponseParse),
    {
        let chars = chars_of(response);
        if let Some(rest) = strip_prefix(chars.as_slice(), "?STATUS,") {
            let split = split_chars(rest, ',');
            proof {
                lemma_split_nonempty(rest@, ',');
                assert(views(split@)[0] == split@[0]@);
                if split.len() >= 2 {
                    assert(views(split@)[1] == split@[1]@);
                }
            }
            let restart_reason = match RestartReason::read(split[0].as_slice()) {
                Some(reason) => reason,
                None => {
                    return fail(ErrorKind::ResponseParse);
                },
            };
            if split.len() < 2 {
                return fail(ErrorKind::ResponseParse);
            }
            let vcc_voltage = match Decimal::read(split[1].as_slice()) {
                Some(value) => value,
                None => {
                    return fail(ErrorKind::ResponseParse);
                },
            };
            if split.len() > 2 {
                return fail(ErrorKind::ResponseParse);
            }
            Ok(DeviceStatus { restart_reason, vcc_voltage })
        } else {
            fail(ErrorKind::ResponseParse)
        }
    }
}

/// Response from the "I" command: what the chip is, and its firmware.
#[derive(Clone, Eq, Debug, PartialEq)]
pub struct DeviceInfo {
    pub device: String,
    pub firmware: String,
}

/// What a `DeviceInfo` holds, as plain sequences of characters.
pub ghost struct DeviceInfoText {
    pub device: Seq<char>,
    pub firmware: Seq<char>,
}

impl View for DeviceInfo {
    type V = DeviceInfoText;

    open spec fn view(&self) -> DeviceInfoText {
        DeviceInfoText { device: self.device@, firmware: self.firmware@ }
    }
}

/// The device information that a response text stands for: `?I,` and
/// exactly two fields, either of which may be empty.
pub open spec fn device_info_of(s: Seq<char>) -> Option<DeviceInfoText> {
    let values = fields(s.skip("?I,"@.len() as int));
    if has_prefix(s, "?I,"@) && values.len() == 2 {
        Some(DeviceInfoText { device: values[0], firmware: values[1] })
    } else {
        None
    }
}

impl DeviceInfo {
    /// Parses the result of the "I" command.
    pub fn parse(response: &str) -> (r: Result<DeviceInfo, PhError>)
        ensures
            viewed(r) == or_error(device_info_of(response@), ErrorKind::ResponseParse),
    {
        let chars = chars_of(response);
        if let Some(rest) = strip_prefix(chars.as_slice(), "?I,") {
            let split = split_chars(rest, ',');
            if split.len() != 2 {
                return fail(ErrorKind::ResponseParse);
            }
            proof {
                assert(views(split@)[0] == split@[0]@);
                assert(views(split@)[1] == split@[1]@);
            }
            let device = text_of(split[0].as_slice());
            let firmware = text_of(split[1].as_slice());
            Ok(DeviceInfo { device, firmware })
        } else {
            fail(ErrorKind::ResponseParse)
        }
    }
}

/// Response from the "Export" command: one line of calibration data, or the
/// mark that there are no more.
#[derive(Clone, Eq, Debug, PartialEq)]
pub enum Exported {
    ExportString(String),
    Done,
}

/// What an `Exported` holds, as a plain sequence of characters.
pub ghost enum ExportedText {
    ExportString(Seq<char>),
    Done,
}

impl View for Exported {
    type V = ExportedText;

    open spec fn view(&self) -> ExportedText {
        match self {
            Exported::ExportString(line) => ExportedText::ExportString(line@),
            Exported::Done => ExportedText::Done,
        }
    }
}

/// The exported data that a response text stands for: the closing mark
/// `*DONE`, or else one line of calibration data.
pub open spec fn exported_of(s: Seq<char>) -> Option<ExportedText> {
    if s == "*DONE"@ {
        Some(ExportedText::Done)
    } else if is_export_line(s) {
        Some(ExportedText::ExportString(s))
    } else {
        None
    }
}

impl Exported {
    /// Parses the result of the "Export" command.
    pub fn parse(response: &str) -> (r: Result<Exported, PhError>)
        ensures
            viewed(r) == or_error(exported_of(response@), ErrorKind::ResponseParse),
    {
        let chars = chars_of(response);
        if is_text(chars.as_slice(), "*DONE") {
            Ok(Exported::Done)
        } else if check_export_line(chars.as_slice()) {
            Ok(Exported::ExportString(text_of(chars.as_slice())))
        } else {
            fail(ErrorKind::ResponseParse)
        }
    }
}

/// Response from the "Export,?" command: how much calibration data there is
/// to export.
#[derive(Copy, Clone, Eq, Debug, PartialEq, Structural)]
pub struct ExportedInfo {
    pub lines: u16,
    pub total_bytes: u16,
}

/// The export summary that a response text stands for: `?EXPORT,` and
/// exactly two fields, each an unsigned integer of sixteen bits.
pub open spec fn exported_info_of(s: Seq<char>) -> Option<ExportedInfo> {
    let values = fields(s.skip("?EXPORT,"@.len() as int));
    if has_prefix(s, "?EXPORT,"@) && values.len() == 2 {
        match (unsigned_of(values[0], 0xffff), unsigned_of(values[1], 0xffff)) {
            (Some(lines), Some(total_bytes)) => Some(
                ExportedInfo { lines: lines as u16, total_bytes: total_bytes as u16 },
            ),
            _ => None,
        }
    } else {
        None
    }
}

impl ExportedInfo {
    /// Parses the result of the "Export,?" command.
    pub fn parse(response: &str) -> (r: Result<ExportedInfo, PhError>)
        ensures
            r == or_error(exported_info_of(response@), ErrorKind::ResponseParse),
    {
        let chars = chars_of(response);
        if let Some(rest) = strip_prefix(chars.as_slice(), "?EXPORT,") {
            let split = split_chars(rest, ',');
            proof {
                lemma_split_nonempty(rest@, ',');
                assert(views(split@)[0] == split@[0]@);
                if split.len() >= 2 {
                    assert(views(split@)[1] == split@[1]@);
                }
            }
            let lines = match parse_unsigned(split[0].as_slice(), 0xffff) {
                Some(value) => value as u16,
                None => {
                    return fail(ErrorKind::ResponseParse);
                },
            };
            if split.len() < 2 {
                return fail(ErrorKind::ResponseParse);
            }
            let total_bytes = match parse_unsigned(split[1].as_slice(), 0xffff) {
                Some(value) => value as u16,
                None => {
                    return fail(ErrorKind::ResponseParse);
                },
            };
            if split.len() > 2 {
                return fail(ErrorKind::ResponseParse);
            }
            Ok(ExportedInfo { lines, total_bytes })
        } else {
            fail(ErrorKind::ResponseParse)
        }
    }
}

} // verus!
