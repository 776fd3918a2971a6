//! Parses the responses that are particular to the pH chip.
use crate::decimal::{decimal_of, fixed_text, Decimal, Places};
use crate::errors::{fail, or_error, ErrorKind, PhError};
use crate::text::{
    chars_of, fields, has_prefix, is_text, lemma_prefixed_piece, lemma_split_nonempty,
    split_chars, strip_prefix, views,
};
use vstd::prelude::*;
use vstd::string::*;

verus! {

/// Minimum possible pH reading, per pH probe data sheet, in thousandths.
pub const PROBE_LOWER_LIMIT: i64 = 0;

/// Maximum possible pH reading, per pH probe data sheet, in thousandths.
pub const PROBE_UPPER_LIMIT: i64 = 14_000;

/// Calibration status of the pH chip.
#[derive(Copy, Clone, Eq, Debug, PartialEq, Structural)]
pub enum CalibrationStatus {
    OnePoint,
    TwoPoint,
    ThreePoint,
    NotCalibrated,
}

/// The calibration status that a response text stands for.
pub open spec fn calibration_status_of(s: Seq<char>) -> Option<CalibrationStatus> {
    if s == "?CAL,3"@ {
        Some(CalibrationStatus::ThreePoint)
    } else if s == "?CAL,2"@ {
        Some(CalibrationStatus::TwoPoint)
    } else if s == "?CAL,1"@ {
        Some(CalibrationStatus::OnePoint)
    } else if s == "?CAL,0"@ {
        Some(CalibrationStatus::NotCalibrated)
    } else {
        None
    }
}

impl CalibrationStatus {
    /// The response text of this status.
    pub open spec fn wire_text(self) -> Seq<char> {
        match self {
            CalibrationStatus::OnePoint => "?CAL,1"@,
            CalibrationStatus::TwoPoint => "?CAL,2"@,
            CalibrationStatus::ThreePoint => "?CAL,3"@,
            CalibrationStatus::NotCalibrated => "?CAL,0"@,
        }
    }

    /// The name of this status.
    pub open spec fn name_text(self) -> Seq<char> {
        match self {
            CalibrationStatus::OnePoint => "one-point"@,
            CalibrationStatus::TwoPoint => "two-point"@,
            CalibrationStatus::ThreePoint => "three-point"@,
            CalibrationStatus::NotCalibrated => "none"@,
        }
    }

    /// Every status is read back from its own response text.
    pub proof fn lemma_wire_round_trip(self)
        ensures
            calibration_status_of(self.wire_text()) == Some(self),
    {
        reveal_strlit("?CAL,0");
        reveal_strlit("?CAL,1");
        reveal_strlit("?CAL,2");
        reveal_strlit("?CAL,3");
        assert("?CAL,0"@[5] != "?CAL,1"@[5]);
        assert("?CAL,0"@[5] != "?CAL,2"@[5]);
        assert("?CAL,0"@[5] != "?CAL,3"@[5]);
        assert("?CAL,1"@[5] != "?CAL,2"@[5]);
        assert("?CAL,1"@[5] != "?CAL,3"@[5]);
        assert("?CAL,2"@[5] != "?CAL,3"@[5]);
    }

    /// Parses the result of the "Cal,?" command to query the device's
    /// calibration status: `?CAL,` and one of the digits 0 to 3, with nothing
    /// after it.
    pub fn parse(response: &str) -> (r: Result<CalibrationStatus, PhError>)
        ensures
            r == or_error(calibration_status_of(response@), ErrorKind::ResponseParse),
    {
        let chars = chars_of(response);
        proof {
            reveal_strlit("?CAL,");
            reveal_strlit("0");
            reveal_strlit("1");
            reveal_strlit("2");
            reveal_strlit("3");
            reveal_strlit("?CAL,0");
            reveal_strlit("?CAL,1");
            reveal_strlit("?CAL,2");
            reveal_strlit("?CAL,3");
            assert("?CAL,"@ + "0"@ =~= "?CAL,0"@);
            assert("?CAL,"@ + "1"@ =~= "?CAL,1"@);
            assert("?CAL,"@ + "2"@ =~= "?CAL,2"@);
            assert("?CAL,"@ + "3"@ =~= "?CAL,3"@);
            lemma_prefixed_piece(response@, "?CAL,"@, "0"@, ',');
            lemma_prefixed_piece(response@, "?CAL,"@, "1"@, ',');
            lemma_prefixed_piece(response@, "?CAL,"@, "2"@, ',');
            lemma_prefixed_piece(response@, "?CAL,"@, "3"@, ',');
        }
        if let Some(rest) = strip_prefix(chars.as_slice(), "?CAL,") {
            let split = split_chars(rest, ',');
            proof {
                lemma_split_nonempty(rest@, ',');
                assert(views(split@)[0] == split@[0]@);
            }
            let calibration = if is_text(split[0].as_slice(), "3") {
                CalibrationStatus::ThreePoint
            } else if is_text(split[0].as_slice(), "2") {
                CalibrationStatus::TwoPoint
            } else if is_text(split[0].as_slice(), "1") {
                CalibrationStatus::OnePoint
            } else if is_text(split[0].as_slice(), "0") {
                CalibrationStatus::NotCalibrated
            } else {
                return fail(ErrorKind::ResponseParse);
            };
            if split.len() == 1 {
                assert(views(split@) =~= seq![split@[0]@]);
                Ok(calibration)
            } else {
                fail(ErrorKind::ResponseParse)
            }
        } else {
            fail(ErrorKind::ResponseParse)
        }
    }

    /// The response text of this status.
    pub fn to_wire(&self) -> (text: &'static str)
        ensures
            text@ == self.wire_text(),
    {
        match self {
            CalibrationStatus::OnePoint => "?CAL,1",
            CalibrationStatus::TwoPoint => "?CAL,2",
            CalibrationStatus::ThreePoint => "?CAL,3",
            CalibrationStatus::NotCalibrated => "?CAL,0",
        }
    }

    /// The name of this status, for people.
    pub fn name(&self) -> (text: &'static str)
        ensures
            text@ == self.name_text(),
    {
        match self {
            CalibrationStatus::OnePoint => "one-point",
            CalibrationStatus::TwoPoint => "two-point",
            CalibrationStatus::ThreePoint => "three-point",
            CalibrationStatus::NotCalibrated => "none",
        }
    }
}

/// A pH reading.
#[derive(Copy, Clone, Eq, Debug, PartialEq, Structural)]
pub struct SensorReading(pub Decimal);

/// Whether a count of thousandths is a pH value that the probe can report.
pub open spec fn in_probe_range(thousandths: int) -> bool {
    PROBE_LOWER_LIMIT <= thousandths <= PROBE_UPPER_LIMIT
}

/// The reading that a response text stands for: a decimal number, which
/// must lie within the range of the probe.
pub open spec fn sensor_reading_of(s: Seq<char>) -> Result<SensorReading, PhError> {
    match decimal_of(s) {
        Some(value) => if in_probe_range(value.thousandths as int) {
            Ok(SensorReading(value))
        } else {
            Err(PhError { inner: ErrorKind::InvalidReading })
        },
        None => Err(PhError { inner: ErrorKind::ResponseParse }),
    }
}

impl SensorReading {
    /// The text of this reading, with three fractional digits.
    pub open spec fn wire_text(self) -> Seq<char> {
        fixed_text(self.0.thousandths as int, Places::Three)
    }

    /// Parses the result of the "R" command to get a pH reading.
    pub fn parse(response: &str) -> (r: Result<SensorReading, PhError>)
        ensures
            r == sensor_reading_of(response@),
    {
        match Decimal::parse(response) {
            Some(value) => {
                if PROBE_LOWER_LIMIT <= value.thousandths && value.thousandths
                    <= PROBE_UPPER_LIMIT {
                    Ok(SensorReading(value))
                } else {
                    fail(ErrorKind::InvalidReading)
                }
            },
            None => fail(ErrorKind::ResponseParse),
        }
    }

    /// The text of this reading, with three fractional digits.
    pub fn to_wire(&self) -> (text: String)
        ensures
            text@ == self.wire_text(),
    {
        self.0.to_fixed(Places::Three)
    }
}

/// Slope-points for the current sensor probe.
#[derive(Copy, Clone, Eq, Debug, PartialEq, Structural)]
pub struct ProbeSlope {
    pub acid_end: Decimal,
    pub base_end: Decimal,
}

/// The slope that a response text stands for: `?SLOPE,` and exactly two
/// fields, each a decimal number.
pub open spec fn probe_slope_of(s: Seq<char>) -> Option<ProbeSlope> {
    let values = fields(s.skip("?SLOPE,"@.len() as int));
    if has_prefix(s, "?SLOPE,"@) && values.len() == 2 {
        match (decimal_of(values[0]), decimal_of(values[1])) {
            (Some(acid_end), Some(base_end)) => Some(ProbeSlope { acid_end, base_end }),
            _ => None,
        }
    } else {
        None
    }
}

impl ProbeSlope {
    /// The two numbers with three fractional digits each, and a comma
    /// between them.
    pub open spec fn values_text(self) -> Seq<char> {
        fixed_text(self.acid_end.thousandths as int, Places::Three).push(',') + fixed_text(
            self.base_end.thousandths as int,
            Places::Three,
        )
    }

    /// The response text of this slope.
    pub open spec fn wire_text(self) -> Seq<char> {
        "?SLOPE,"@ + self.values_text()
    }

    /// Parses the result of the "Slope,?" command to get the slope of the
    /// probe.
    pub fn parse(response: &str) -> (r: Result<ProbeSlope, PhError>)
        ensures
            r == or_error(probe_slope_of(response@), ErrorKind::ResponseParse),
    {
        let chars = chars_of(response);
        if let Some(num_str) = strip_prefix(chars.as_slice(), "?SLOPE,") {
            let split = split_chars(num_str, ',');
            proof {
                lemma_split_nonempty(num_str@, ',');
                assert(views(split@)[0] == split@[0]@);
                if split.len() >= 2 {
                    assert(views(split@)[1] == split@[1]@);
                }
            }
            let acid_end = match Decimal::read(split[0].as_slice()) {
                Some(value) => value,
                None => {
                    return fail(ErrorKind::ResponseParse);
                },
            };
            if split.len() < 2 {
                return fail(ErrorKind::ResponseParse);
            }
            let base_end = match Decimal::read(split[1].as_slice()) {
                Some(value) => value,
                None => {
                    return fail(ErrorKind::ResponseParse);
                },
            };
            if split.len() > 2 {
                return fail(ErrorKind::ResponseParse);
            }
            Ok(ProbeSlope { acid_end, base_end })
        } else {
            fail(ErrorKind::ResponseParse)
        }
    }

    /// The response text of this slope.
    pub fn to_wire(&self) -> (text: String)
        ensures
            text@ == self.wire_text(),
    {
        let mut text = String::from_str("?SLOPE,");
        self.acid_end.write_fixed(&mut text, Places::Three);
        text.push(',');
        self.base_end.write_fixed(&mut text, Places::Three);
        assert(text@ =~= self.wire_text());
        text
    }

    /// The two numbers of this slope, for people.
    pub fn values(&self) -> (text: String)
        ensures
            text@ == self.values_text(),
    {
        let mut text = self.acid_end.to_fixed(Places::Three);
        text.push(',');
        self.base_end.write_fixed(&mut text, Places::Three);
        text
    }
}

/// Current temperature value used for pH compensation.
#[derive(Copy, Clone, Eq, Debug, PartialEq, Structural)]
pub struct CompensationValue(pub Decimal);

/// The compensation value that a response text stands for: `?T,` and a
/// decimal number, with nothing after it.
pub open spec fn compensation_value_of(s: Seq<char>) -> Option<CompensationValue> {
    if has_prefix(s, "?T,"@) {
        match decimal_of(s.skip("?T,"@.len() as int)) {
            Some(value) => Some(CompensationValue(value)),
            None => None,
        }
    } else {
        None
    }
}

impl CompensationValue {
    /// The number with three fractional digits.
    pub open spec fn value_text(self) -> Seq<char> {
        fixed_text(self.0.thousandths as int, Places::Three)
    }

    /// The response text of this value.
    pub open spec fn wire_text(self) -> Seq<char> {
        "?T,"@ + self.value_text()
    }

    /// Parses the result of the "T,?" command to get the device's
    /// temperature compensation value.
    pub fn parse(response: &str) -> (r: Result<CompensationValue, PhError>)
        ensures
            r == or_error(compensation_value_of(response@), ErrorKind::ResponseParse),
    {
        let chars = chars_of(response);
        if let Some(rest) = strip_prefix(chars.as_slice(), "?T,") {
            match Decimal::read(rest) {
                Some(value) => Ok(CompensationValue(value)),
                None => fail(ErrorKind::ResponseParse),
            }
        } else {
            fail(ErrorKind::ResponseParse)
        }
    }

    /// The response text of this value.
    pub fn to_wire(&self) -> (text: String)
        ensures
            text@ == self.wire_text(),
    {
        let mut text = String::from_str("?T,");
        self.0.write_fixed(&mut text, Places::Three);
        text
    }

    /// The number of this value, for people.
    pub fn value(&self) -> (text: String)
        ensures
            text@ == self.value_text(),
    {
        self.0.to_fixed(Places::Three)
    }
}

} // verus!
