//! pH sensor errors.
use vstd::prelude::*;

verus! {

/// The ways in which talking to the chip can fail.
#[derive(Copy, Clone, Eq, Debug, PartialEq, Structural)]
pub enum ErrorKind {
    /// A command parameter is outside what the chip accepts.
    InvalidParameter,
    /// The text is not the wire form of any command.
    CommandParse,
    /// The response was a number, but not one the probe can measure.
    InvalidReading,
    /// The command could not be written to the bus.
    I2CWrite,
    /// The response could not be read from the bus.
    I2CRead,
    /// The response does not start with a known status byte.
    MalformedResponse,
    /// The response text does not follow the grammar of the expected shape.
    ResponseParse,
    /// The chip has not finished processing the command.
    PendingResponse,
    /// The chip reported an error.
    DeviceErrorResponse,
    /// The chip has no data to send.
    NoDataExpectedResponse,
}

impl ErrorKind {
    /// The message of each kind, as a sequence of characters.
    pub open spec fn message_text(self) -> Seq<char> {
        match self {
            ErrorKind::InvalidParameter => "command parameter is out of range"@,
            ErrorKind::CommandParse => "could not parse command"@,
            ErrorKind::InvalidReading => "response was valid but reading is out of valid range"@,
            ErrorKind::I2CWrite => "command could not be written"@,
            ErrorKind::I2CRead => "response was not obtainable"@,
            ErrorKind::MalformedResponse => "response is not a valid nul-terminated UTF-8 string"@,
            ErrorKind::ResponseParse => "could not parse response"@,
            ErrorKind::PendingResponse => "response was not yet available"@,
            ErrorKind::DeviceErrorResponse => "the device responded with an error"@,
            ErrorKind::NoDataExpectedResponse => "the device has no data to respond"@,
        }
    }

    /// A short description for people.
    pub fn message(&self) -> (text: &'static str)
        ensures
            text@ == self.message_text(),
    {
        match self {
            ErrorKind::InvalidParameter => "command parameter is out of range",
            ErrorKind::CommandParse => "could not parse command",
            ErrorKind::InvalidReading => "response was valid but reading is out of valid range",
            ErrorKind::I2CWrite => "command could not be written",
            ErrorKind::I2CRead => "response was not obtainable",
            ErrorKind::MalformedResponse => "response is not a valid nul-terminated UTF-8 string",
            ErrorKind::ResponseParse => "could not parse response",
            ErrorKind::PendingResponse => "response was not yet available",
            ErrorKind::DeviceErrorResponse => "the device responded with an error",
            ErrorKind::NoDataExpectedResponse => "the device has no data to respond",
        }
    }
}

/// An error of this library: a kind, with nothing else attached.
#[derive(Copy, Clone, Eq, Debug, PartialEq, Structural)]
pub struct PhError {
    pub inner: ErrorKind,
}

impl PhError {
    /// The kind of this error.
    pub fn kind(&self) -> (kind: ErrorKind)
        ensures
            kind == self.inner,
    {
        self.inner
    }
}

/// The value, or where there is none the error of the given kind.
pub open spec fn or_error<T>(value: Option<T>, kind: ErrorKind) -> Result<T, PhError> {
    match value {
        Some(v) => Ok(v),
        None => Err(PhError { inner: kind }),
    }
}

/// A result with the view of its value in place of the value.
pub open spec fn viewed<T: View>(r: Result<T, PhError>) -> Result<T::V, PhError> {
    match r {
        Ok(v) => Ok(v@),
        Err(e) => Err(e),
    }
}

/// The result that is the error of the given kind.
pub fn fail<T>(kind: ErrorKind) -> (r: Result<T, PhError>)
    ensures
        r == Err::<T, PhError>(PhError { inner: kind }),
{
    Err(PhError { inner: kind })
}

impl From<ErrorKind> for PhError {
    fn from(kind: ErrorKind) -> (error: PhError) {
        PhError { inner: kind }
    }
}

impl vstd::std_specs::convert::FromSpecImpl<ErrorKind> for PhError {
    open spec fn obeys_from_spec() -> bool {
        true
    }

    open spec fn from_spec(kind: ErrorKind) -> PhError {
        PhError { inner: kind }
    }
}

} // verus!
