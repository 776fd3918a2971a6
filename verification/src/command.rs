//! The commands of the pH chip: what each one looks like on the wire, how
//! long the chip takes over it, and what it answers.
use crate::decimal::{decimal_of, fixed_text, Decimal, Places};
use crate::device::{check_export_line, is_export_line};
use crate::errors::{fail, or_error, viewed, ErrorKind, PhError};
use crate::number::{numeral, parse_unsigned, push_numeral, unsigned_of};
use crate::text::{
    chars_of, has_prefix, is_text, strip_prefix, text_of, to_uppercase, uppercase,
};
use vstd::prelude::*;
use vstd::string::*;

verus! {

/// Maximum ascii-character response size + 2
pub const MAX_DATA: usize = 401;

/// The delay, in milliseconds, after a command that the chip answers from
/// what it already knows.
pub const SHORT_DELAY: u64 = 300;

/// The delay, in milliseconds, after a command that makes the chip measure.
pub const LONG_DELAY: u64 = 900;

/// Allowable baudrates used when changing the chip to UART mode.
#[derive(Copy, Clone, Eq, Debug, PartialEq, Structural)]
pub enum BpsRate {
    Bps300,
    Bps1200,
    Bps2400,
    Bps9600,
    Bps19200,
    Bps38400,
    Bps57600,
    Bps115200,
}

impl BpsRate {
    /// The rate in bits per second.
    pub open spec fn rate(self) -> nat {
        match self {
            BpsRate::Bps300 => 300,
            BpsRate::Bps1200 => 1200,
            BpsRate::Bps2400 => 2400,
            BpsRate::Bps9600 => 9600,
            BpsRate::Bps19200 => 19200,
            BpsRate::Bps38400 => 38400,
            BpsRate::Bps57600 => 57600,
            BpsRate::Bps115200 => 115200,
        }
    }

    /// The rate as it is written in a command.
    pub open spec fn text(self) -> Seq<char> {
        match self {
            BpsRate::Bps300 => "300"@,
            BpsRate::Bps1200 => "1200"@,
            BpsRate::Bps2400 => "2400"@,
            BpsRate::Bps9600 => "9600"@,
            BpsRate::Bps19200 => "19200"@,
            BpsRate::Bps38400 => "38400"@,
            BpsRate::Bps57600 => "57600"@,
            BpsRate::Bps115200 => "115200"@,
        }
    }

    /// The rate in bits per second.
    pub fn bps(&self) -> (rate: u32)
        ensures
            rate == self.rate(),
    {
        match self {
            BpsRate::Bps300 => 300,
            BpsRate::Bps1200 => 1200,
            BpsRate::Bps2400 => 2400,
            BpsRate::Bps9600 => 9600,
            BpsRate::Bps19200 => 19200,
            BpsRate::Bps38400 => 38400,
            BpsRate::Bps57600 => 57600,
            BpsRate::Bps115200 => 115200,
        }
    }

    /// The rate as it is written in a command.
    pub fn as_str(&self) -> (text: &'static str)
        ensures
            text@ == self.text(),
    {
        match self {
            BpsRate::Bps300 => "300",
            BpsRate::Bps1200 => "1200",
            BpsRate::Bps2400 => "2400",
            BpsRate::Bps9600 => "9600",
            BpsRate::Bps19200 => "19200",
            BpsRate::Bps38400 => "38400",
            BpsRate::Bps57600 => "57600",
            BpsRate::Bps115200 => "115200",
        }
    }
}

/// One line of calibration data to import: one to twelve printable
/// characters.
#[derive(Eq, Debug, PartialEq)]
pub struct ImportString {
    text: String,
}

impl Clone for ImportString {
    fn clone(&self) -> (line: ImportString)
        ensures
            line@ == self@,
    {
        proof {
            use_type_invariant(self);
        }
        ImportString { text: self.text.clone() }
    }
}

impl View for ImportString {
    type V = Seq<char>;

    closed spec fn view(&self) -> Seq<char> {
        self.text@
    }
}

impl ImportString {
    #[verifier::type_invariant]
    spec fn well_formed(&self) -> bool {
        is_export_line(self.text@)
    }

    /// The line `text`, if it is one to twelve printable characters long.
    pub fn new(text: &str) -> (r: Result<ImportString, PhError>)
        ensures
            match r {
                Ok(line) => is_export_line(text@) && line@ == text@,
                Err(e) => !is_export_line(text@) && e.inner == ErrorKind::InvalidParameter,
            },
    {
        let chars = chars_of(text);
        match ImportString::from_chars(chars.as_slice()) {
            Some(line) => Ok(line),
            None => fail(ErrorKind::InvalidParameter),
        }
    }

    /// The line of the given characters, if they are one to twelve printable
    /// ones.
    pub fn from_chars(chars: &[char]) -> (r: Option<ImportString>)
        ensures
            match r {
                Some(line) => is_export_line(chars@) && line@ == chars@,
                None => !is_export_line(chars@),
            },
    {
        if check_export_line(chars) {
            Some(ImportString { text: text_of(chars) })
        } else {
            None
        }
    }

    /// The characters of the line: whatever line is held, it is one that
    /// the chip takes.
    pub fn as_str(&self) -> (text: &str)
        ensures
            text@ == self@,
            is_export_line(self@),
    {
        proof {
            use_type_invariant(self);
        }
        self.text.as_str()
    }
}

/// The shape of the answer that a command calls for.
#[derive(Copy, Clone, Eq, Debug, PartialEq, Structural)]
pub enum ResponseKind {
    Ack,
    CalibrationStatus,
    Exported,
    ExportedInfo,
    DeviceInfo,
    LedStatus,
    ProtocolLockStatus,
    SensorReading,
    ProbeSlope,
    DeviceStatus,
    CompensationValue,
}

/// I2C command for the pH chip.
#[derive(Clone, Eq, Debug, PartialEq)]
pub enum Command {
    /// `BAUD,n`: switch to UART mode at the given rate.
    Baud(BpsRate),
    /// `CAL,MID,t`: calibrate the mid-point.
    CalibrationMid(Decimal),
    /// `CAL,LOW,t`: calibrate the low-point.
    CalibrationLow(Decimal),
    /// `CAL,HIGH,t`: calibrate the high-point.
    CalibrationHigh(Decimal),
    /// `CAL,CLEAR`: forget the calibration.
    CalibrationClear,
    /// `CAL,?`: query the calibration.
    CalibrationState,
    /// `EXPORT`: export one line of calibration data.
    Export,
    /// `EXPORT,?`: query how much calibration data there is.
    ExportInfo,
    /// `IMPORT,s`: import one line of calibration data.
    Import(ImportString),
    /// `FACTORY`: reset to the factory settings.
    Factory,
    /// `F`: blink, to be found.
    Find,
    /// `I`: query what the chip is.
    DeviceInformation,
    /// `I2C,n`: change the bus address.
    DeviceAddress(u16),
    /// `L,1`: LED on.
    LedOn,
    /// `L,0`: LED off.
    LedOff,
    /// `L,?`: query the LED.
    LedState,
    /// `PLOCK,1`: lock the protocol.
    ProtocolLockEnable,
    /// `PLOCK,0`: unlock the protocol.
    ProtocolLockDisable,
    /// `PLOCK,?`: query the protocol lock.
    ProtocolLockState,
    /// `R`: take a reading.
    Reading,
    /// `SLEEP`: go to low-power mode.
    Sleep,
    /// `SLOPE,?`: query the slope of the probe.
    Slope,
    /// `STATUS`: query the status of the chip.
    Status,
    /// `T,t`: set the temperature to compensate for.
    TemperatureCompensation(Decimal),
    /// `T,?`: query the temperature compensated for.
    CompensatedTemperatureValue,
}

/// A command as contracts see it: a line to import is a plain sequence of
/// characters.
pub ghost enum CommandView {
    Baud(BpsRate),
    CalibrationMid(Decimal),
    CalibrationLow(Decimal),
    CalibrationHigh(Decimal),
    CalibrationClear,
    CalibrationState,
    Export,
    ExportInfo,
    Import(Seq<char>),
    Factory,
    Find,
    DeviceInformation,
    DeviceAddress(u16),
    LedOn,
    LedOff,
    LedState,
    ProtocolLockEnable,
    ProtocolLockDisable,
    ProtocolLockState,
    Reading,
    Sleep,
    Slope,
    Status,
    TemperatureCompensation(Decimal),
    CompensatedTemperatureValue,
}

impl View for Command {
    type V = CommandView;

    open spec fn view(&self) -> CommandView {
        match self {
            Command::Baud(rate) => CommandView::Baud(*rate),
            Command::CalibrationMid(t) => CommandView::CalibrationMid(*t),
            Command::CalibrationLow(t) => CommandView::CalibrationLow(*t),
            Command::CalibrationHigh(t) => CommandView::CalibrationHigh(*t),
            Command::CalibrationClear => CommandView::CalibrationClear,
            Command::CalibrationState => CommandView::CalibrationState,
            Command::Export => CommandView::Export,
            Command::ExportInfo => CommandView::ExportInfo,
            Command::Import(line) => CommandView::Import(line@),
            Command::Factory => CommandView::Factory,
            Command::Find => CommandView::Find,
            Command::DeviceInformation => CommandView::DeviceInformation,
            Command::DeviceAddress(address) => CommandView::DeviceAddress(*address),
            Command::LedOn => CommandView::LedOn,
            Command::LedOff => CommandView::LedOff,
            Command::LedState => CommandView::LedState,
            Command::ProtocolLockEnable => CommandView::ProtocolLockEnable,
            Command::ProtocolLockDisable => CommandView::ProtocolLockDisable,
            Command::ProtocolLockState => CommandView::ProtocolLockState,
            Command::Reading => CommandView::Reading,
            Command::Sleep => CommandView::Sleep,
            Command::Slope => CommandView::Slope,
            Command::Status => CommandView::Status,
            Command::TemperatureCompensation(t) => CommandView::TemperatureCompensation(*t),
            Command::CompensatedTemperatureValue => CommandView::CompensatedTemperatureValue,
        }
    }
}

impl CommandView {
    /// Whether this can be the view of a command: a line to import is one to
    /// twelve printable characters.
    pub open spec fn valid(self) -> bool {
        match self {
            CommandView::Import(line) => is_export_line(line),
            _ => true,
        }
    }

    /// The text of the command as it goes over the wire, without the closing
    /// NUL. Calibration points are written with two fractional digits, the
    /// temperature with three.
    pub open spec fn wire_text(self) -> Seq<char> {
        match self {
            CommandView::Baud(rate) => "BAUD,"@ + rate.text(),
            CommandView::CalibrationMid(t) => "CAL,MID,"@ + fixed_text(
                t.thousandths as int,
                Places::Two,
            ),
            CommandView::CalibrationLow(t) => "CAL,LOW,"@ + fixed_text(
                t.thousandths as int,
                Places::Two,
            ),
            CommandView::CalibrationHigh(t) => "CAL,HIGH,"@ + fixed_text(
                t.thousandths as int,
                Places::Two,
            ),
            CommandView::CalibrationClear => "CAL,CLEAR"@,
            CommandView::CalibrationState => "CAL,?"@,
            CommandView::Export => "EXPORT"@,
            CommandView::ExportInfo => "EXPORT,?"@,
            CommandView::Import(line) => "IMPORT,"@ + line,
            CommandView::Factory => "FACTORY"@,
            CommandView::Find => "F"@,
            CommandView::DeviceInformation => "I"@,
            CommandView::DeviceAddress(address) => "I2C,"@ + numeral(address as nat),
            CommandView::LedOn => "L,1"@,
            CommandView::LedOff => "L,0"@,
            CommandView::LedState => "L,?"@,
            CommandView::ProtocolLockEnable => "PLOCK,1"@,
            CommandView::ProtocolLockDisable => "PLOCK,0"@,
            CommandView::ProtocolLockState => "PLOCK,?"@,
            CommandView::Reading => "R"@,
            CommandView::Sleep => "SLEEP"@,
            CommandView::Slope => "SLOPE,?"@,
            CommandView::Status => "STATUS"@,
            CommandView::TemperatureCompensation(t) => "T,"@ + fixed_text(
                t.thousandths as int,
                Places::Three,
            ),
            CommandView::CompensatedTemperatureValue => "T,?"@,
        }
    }

    /// How long the chip needs after the command was written, in
    /// milliseconds.
    pub open spec fn delay(self) -> u64 {
        match self {
            CommandView::Baud(_) | CommandView::Factory | CommandView::Sleep => 0,
            CommandView::CalibrationMid(_)
            | CommandView::CalibrationLow(_)
            | CommandView::CalibrationHigh(_)
            | CommandView::Reading => LONG_DELAY,
            _ => SHORT_DELAY,
        }
    }

    /// The shape of the answer, for a command that has one.
    pub open spec fn response(self) -> Option<ResponseKind> {
        match self {
            CommandView::Baud(_)
            | CommandView::Factory
            | CommandView::Find
            | CommandView::DeviceAddress(_)
            | CommandView::Sleep => None,
            CommandView::CalibrationMid(_)
            | CommandView::CalibrationLow(_)
            | CommandView::CalibrationHigh(_)
            | CommandView::CalibrationClear
            | CommandView::Import(_)
            | CommandView::LedOn
            | CommandView::LedOff
            | CommandView::ProtocolLockEnable
            | CommandView::ProtocolLockDisable
            | CommandView::TemperatureCompensation(_) => Some(ResponseKind::Ack),
            CommandView::CalibrationState => Some(ResponseKind::CalibrationStatus),
            CommandView::Export => Some(ResponseKind::Exported),
            CommandView::ExportInfo => Some(ResponseKind::ExportedInfo),
            CommandView::DeviceInformation => Some(ResponseKind::DeviceInfo),
            CommandView::LedState => Some(ResponseKind::LedStatus),
            CommandView::ProtocolLockState => Some(ResponseKind::ProtocolLockStatus),
            CommandView::Reading => Some(ResponseKind::SensorReading),
            CommandView::Slope => Some(ResponseKind::ProbeSlope),
            CommandView::Status => Some(ResponseKind::DeviceStatus),
            CommandView::CompensatedTemperatureValue => Some(ResponseKind::CompensationValue),
        }
    }
}

/// What goes over the wire for a command, and what to do after.
#[derive(Clone, Eq, Debug, PartialEq)]
pub struct Encoded {
    /// The text of the command, without the closing NUL.
    pub wire_string: String,
    /// How long to wait after writing, in milliseconds.
    pub delay_ms: u64,
    /// The shape of the answer to read after the wait, if there is one.
    pub response: Option<ResponseKind>,
}

impl Command {
    /// The wire text, the delay and the expected answer of this command.
    pub fn encode(&self) -> (encoded: Encoded)
        ensures
            encoded.wire_string@ == self@.wire_text(),
            encoded.delay_ms == self@.delay(),
            encoded.response == self@.response(),
    {
        Encoded {
            wire_string: self.get_command_string(),
            delay_ms: self.get_delay(),
            response: self.get_response_kind(),
        }
    }

    /// The text of this command as it goes over the wire, without the closing
    /// NUL.
    pub fn get_command_string(&self) -> (text: String)
        ensures
            text@ == self@.wire_text(),
    {
        match self {
            Command::Baud(rate) => {
                let mut text = String::from_str("BAUD,");
                text.append(rate.as_str());
                text
            },
            Command::CalibrationMid(t) => {
                let mut text = String::from_str("CAL,MID,");
                t.write_fixed(&mut text, Places::Two);
                text
            },
            Command::CalibrationLow(t) => {
                let mut text = String::from_str("CAL,LOW,");
                t.write_fixed(&mut text, Places::Two);
                text
            },
            Command::CalibrationHigh(t) => {
                let mut text = String::from_str("CAL,HIGH,");
                t.write_fixed(&mut text, Places::Two);
                text
            },
            Command::CalibrationClear => String::from_str("CAL,CLEAR"),
            Command::CalibrationState => String::from_str("CAL,?"),
            Command::Export => String::from_str("EXPORT"),
            Command::ExportInfo => String::from_str("EXPORT,?"),
            Command::Import(line) => {
                let mut text = String::from_str("IMPORT,");
                text.append(line.as_str());
                text
            },
            Command::Factory => String::from_str("FACTORY"),
            Command::Find => String::from_str("F"),
            Command::DeviceInformation => String::from_str("I"),
            Command::DeviceAddress(address) => {
                let mut text = String::from_str("I2C,");
                push_numeral(&mut text, *address as u64);
                text
            },
            Command::LedOn => String::from_str("L,1"),
            Command::LedOff => String::from_str("L,0"),
            Command::LedState => String::from_str("L,?"),
            Command::ProtocolLockEnable => String::from_str("PLOCK,1"),
            Command::ProtocolLockDisable => String::from_str("PLOCK,0"),
            Command::ProtocolLockState => String::from_str("PLOCK,?"),
            Command::Reading => String::from_str("R"),
            Command::Sleep => String::from_str("SLEEP"),
            Command::Slope => String::from_str("SLOPE,?"),
            Command::Status => String::from_str("STATUS"),
            Command::TemperatureCompensation(t) => {
                let mut text = String::from_str("T,");
                t.write_fixed(&mut text, Places::Three);
                text
            },
            Command::CompensatedTemperatureValue => String::from_str("T,?"),
        }
    }

    /// How long the chip needs after this command was written, in
    /// milliseconds.
    pub fn get_delay(&self) -> (delay: u64)
        ensures
            delay == self@.delay(),
    {
        match self {
            Command::Baud(_) | Command::Factory | Command::Sleep => 0,
            Command::CalibrationMid(_)
            | Command::CalibrationLow(_)
            | Command::CalibrationHigh(_)
            | Command::Reading => LONG_DELAY,
            _ => SHORT_DELAY,
        }
    }

    /// The shape of the answer to this command, if it has one.
    pub fn get_response_kind(&self) -> (kind: Option<ResponseKind>)
        ensures
            kind == self@.response(),
    {
        match self {
            Command::Baud(_)
            | Command::Factory
            | Command::Find
            | Command::DeviceAddress(_)
            | Command::Sleep => None,
            Command::CalibrationMid(_)
            | Command::CalibrationLow(_)
            | Command::CalibrationHigh(_)
            | Command::CalibrationClear
            | Command::Import(_)
            | Command::LedOn
            | Command::LedOff
            | Command::ProtocolLockEnable
            | Command::ProtocolLockDisable
            | Command::TemperatureCompensation(_) => Some(ResponseKind::Ack),
            Command::CalibrationState => Some(ResponseKind::CalibrationStatus),
            Command::Export => Some(ResponseKind::Exported),
            Command::ExportInfo => Some(ResponseKind::ExportedInfo),
            Command::DeviceInformation => Some(ResponseKind::DeviceInfo),
            Command::LedState => Some(ResponseKind::LedStatus),
            Command::ProtocolLockState => Some(ResponseKind::ProtocolLockStatus),
            Command::Reading => Some(ResponseKind::SensorReading),
            Command::Slope => Some(ResponseKind::ProbeSlope),
            Command::Status => Some(ResponseKind::DeviceStatus),
            Command::CompensatedTemperatureValue => Some(ResponseKind::CompensationValue),
        }
    }
}

/// The rate that a text stands for.
pub open spec fn rate_of(s: Seq<char>) -> Option<BpsRate> {
    if s == "300"@ {
        Some(BpsRate::Bps300)
    } else if s == "1200"@ {
        Some(BpsRate::Bps1200)
    } else if s == "2400"@ {
        Some(BpsRate::Bps2400)
    } else if s == "9600"@ {
        Some(BpsRate::Bps9600)
    } else if s == "19200"@ {
        Some(BpsRate::Bps19200)
    } else if s == "38400"@ {
        Some(BpsRate::Bps38400)
    } else if s == "57600"@ {
        Some(BpsRate::Bps57600)
    } else if s == "115200"@ {
        Some(BpsRate::Bps115200)
    } else {
        None
    }
}

/// The command without parameter that an upper-case text stands for.
pub open spec fn plain_command_of(u: Seq<char>) -> Option<CommandView> {
    if u == "CAL,CLEAR"@ {
        Some(CommandView::CalibrationClear)
    } else if u == "CAL,?"@ {
        Some(CommandView::CalibrationState)
    } else if u == "EXPORT"@ {
        Some(CommandView::Export)
    } else if u == "EXPORT,?"@ {
        Some(CommandView::ExportInfo)
    } else if u == "FACTORY"@ {
        Some(CommandView::Factory)
    } else if u == "F"@ {
        Some(CommandView::Find)
    } else if u == "I"@ {
        Some(CommandView::DeviceInformation)
    } else if u == "L,1"@ {
        Some(CommandView::LedOn)
    } else if u == "L,0"@ {
        Some(CommandView::LedOff)
    } else if u == "L,?"@ {
        Some(CommandView::LedState)
    } else if u == "PLOCK,1"@ {
        Some(CommandView::ProtocolLockEnable)
    } else if u == "PLOCK,0"@ {
        Some(CommandView::ProtocolLockDisable)
    } else if u == "PLOCK,?"@ {
        Some(CommandView::ProtocolLockState)
    } else if u == "R"@ {
        Some(CommandView::Reading)
    } else if u == "SLEEP"@ {
        Some(CommandView::Sleep)
    } else if u == "SLOPE,?"@ {
        Some(CommandView::Slope)
    } else if u == "STATUS"@ {
        Some(CommandView::Status)
    } else if u == "T,?"@ {
        Some(CommandView::CompensatedTemperatureValue)
    } else {
        None
    }
}

/// What follows the first `n` characters of `u`.
pub open spec fn after(u: Seq<char>, n: nat) -> Seq<char> {
    u.skip(n as int)
}

/// The command with a parameter that an upper-case text stands for: the
/// name of the command with its comma, and then the parameter alone.
pub open spec fn parameter_command_of(u: Seq<char>) -> Option<CommandView> {
    if has_prefix(u, "BAUD,"@) {
        match rate_of(after(u, "BAUD,"@.len())) {
            Some(rate) => Some(CommandView::Baud(rate)),
            None => None,
        }
    } else if has_prefix(u, "CAL,MID,"@) {
        match decimal_of(after(u, "CAL,MID,"@.len())) {
            Some(t) => Some(CommandView::CalibrationMid(t)),
            None => None,
        }
    } else if has_prefix(u, "CAL,LOW,"@) {
        match decimal_of(after(u, "CAL,LOW,"@.len())) {
            Some(t) => Some(CommandView::CalibrationLow(t)),
            None => None,
        }
    } else if has_prefix(u, "CAL,HIGH,"@) {
        match decimal_of(after(u, "CAL,HIGH,"@.len())) {
            Some(t) => Some(CommandView::CalibrationHigh(t)),
            None => None,
        }
    } else if has_prefix(u, "IMPORT,"@) {
        if is_export_line(after(u, "IMPORT,"@.len())) {
            Some(CommandView::Import(after(u, "IMPORT,"@.len())))
        } else {
            None
        }
    } else if has_prefix(u, "I2C,"@) {
        match unsigned_of(after(u, "I2C,"@.len()), 0xffff) {
            Some(address) => Some(CommandView::DeviceAddress(address as u16)),
            None => None,
        }
    } else if has_prefix(u, "T,"@) {
        match decimal_of(after(u, "T,"@.len())) {
            Some(t) => Some(CommandView::TemperatureCompensation(t)),
            None => None,
        }
    } else {
        None
    }
}

/// The command that an upper-case text stands for.
pub open spec fn decode(u: Seq<char>) -> Option<CommandView> {
    match plain_command_of(u) {
        Some(command) => Some(command),
        None => parameter_command_of(u),
    }
}

/// The command that a text stands for, whatever the case of its letters.
pub open spec fn command_of(s: Seq<char>) -> Option<CommandView> {
    decode(uppercase(s))
}

impl BpsRate {
    /// Reads a rate as it is written in a command.
    pub fn read(chars: &[char]) -> (rate: Option<BpsRate>)
        ensures
            rate == rate_of(chars@),
    {
        if is_text(chars, "300") {
            Some(BpsRate::Bps300)
        } else if is_text(chars, "1200") {
            Some(BpsRate::Bps1200)
        } else if is_text(chars, "2400") {
            Some(BpsRate::Bps2400)
        } else if is_text(chars, "9600") {
            Some(BpsRate::Bps9600)
        } else if is_text(chars, "19200") {
            Some(BpsRate::Bps19200)
        } else if is_text(chars, "38400") {
            Some(BpsRate::Bps38400)
        } else if is_text(chars, "57600") {
            Some(BpsRate::Bps57600)
        } else if is_text(chars, "115200") {
            Some(BpsRate::Bps115200)
        } else {
            None
        }
    }
}

/// Reads a command without parameter from its upper-case text.
fn read_plain_command(u: &[char]) -> (command: Option<Command>)
    ensures
        match command {
            Some(c) => plain_command_of(u@) == Some(c@),
            None => plain_command_of(u@) is None,
        },
{
    if is_text(u, "CAL,CLEAR") {
        Some(Command::CalibrationClear)
    } else if is_text(u, "CAL,?") {
        Some(Command::CalibrationState)
    } else if is_text(u, "EXPORT") {
        Some(Command::Export)
    } else if is_text(u, "EXPORT,?") {
        Some(Command::ExportInfo)
    } else if is_text(u, "FACTORY") {
        Some(Command::Factory)
    } else if is_text(u, "F") {
        Some(Command::Find)
    } else if is_text(u, "I") {
        Some(Command::DeviceInformation)
    } else if is_text(u, "L,1") {
        Some(Command::LedOn)
    } else if is_text(u, "L,0") {
        Some(Command::LedOff)
    } else if is_text(u, "L,?") {
        Some(Command::LedState)
    } else if is_text(u, "PLOCK,1") {
        Some(Command::ProtocolLockEnable)
    } else if is_text(u, "PLOCK,0") {
        Some(Command::ProtocolLockDisable)
    } else if is_text(u, "PLOCK,?") {
        Some(Command::ProtocolLockState)
    } else if is_text(u, "R") {
        Some(Command::Reading)
    } else if is_text(u, "SLEEP") {
        Some(Command::Sleep)
    } else if is_text(u, "SLOPE,?") {
        Some(Command::Slope)
    } else if is_text(u, "STATUS") {
        Some(Command::Status)
    } else if is_text(u, "T,?") {
        Some(Command::CompensatedTemperatureValue)
    } else {
        None
    }
}

/// Reads a command with a parameter from its upper-case text.
fn read_parameter_command(u: &[char]) -> (command: Option<Command>)
    ensures
        match command {
            Some(c) => parameter_command_of(u@) == Some(c@),
            None => parameter_command_of(u@) is None,
        },
{
    if let Some(rest) = strip_prefix(u, "BAUD,") {
        match BpsRate::read(rest) {
            Some(rate) => Some(Command::Baud(rate)),
            None => None,
        }
    } else if let Some(rest) = strip_prefix(u, "CAL,MID,") {
        match Decimal::read(rest) {
            Some(t) => Some(Command::CalibrationMid(t)),
            None => None,
        }
    } else if let Some(rest) = strip_prefix(u, "CAL,LOW,") {
        match Decimal::read(rest) {
            Some(t) => Some(Command::CalibrationLow(t)),
            None => None,
        }
    } else if let Some(rest) = strip_prefix(u, "CAL,HIGH,") {
        match Decimal::read(rest) {
            Some(t) => Some(Command::CalibrationHigh(t)),
            None => None,
        }
    } else if let Some(rest) = strip_prefix(u, "IMPORT,") {
        match ImportString::from_chars(rest) {
            Some(line) => Some(Command::Import(line)),
            None => None,
        }
    } else if let Some(rest) = strip_prefix(u, "I2C,") {
        match parse_unsigned(rest, 0xffff) {
            Some(address) => Some(Command::DeviceAddress(address as u16)),
            None => None,
        }
    } else if let Some(rest) = strip_prefix(u, "T,") {
        match Decimal::read(rest) {
            Some(t) => Some(Command::TemperatureCompensation(t)),
            None => None,
        }
    } else {
        None
    }
}

/// Reads a command from its wire text, in letters of either case. Nothing
/// may follow the command and its parameter.
pub fn parse_command(text: &str) -> (r: Result<Command, PhError>)
    ensures
        viewed(r) == or_error(command_of(text@), ErrorKind::CommandParse),
{
    let chars = chars_of(text);
    let upper = to_uppercase(chars.as_slice());
    match read_plain_command(upper.as_slice()) {
        Some(command) => Ok(command),
        None => match read_parameter_command(upper.as_slice()) {
            Some(command) => Ok(command),
            None => fail(ErrorKind::CommandParse),
        },
    }
}

impl std::str::FromStr for Command {
    type Err = PhError;

    /// Reads a command as `parse_command` does.
    fn from_str(s: &str) -> (r: Result<Command, PhError>)
        ensures
            viewed(r) == or_error(command_of(s@), ErrorKind::CommandParse),
    {
        parse_command(s)
    }
}

} // verus!
