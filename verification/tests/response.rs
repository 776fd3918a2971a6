use ezo_ph::decimal::Decimal;
use ezo_ph::errors::ErrorKind;
use ezo_ph::response::{
    CalibrationStatus, CompensationValue, ProbeSlope, SensorReading, PROBE_LOWER_LIMIT,
    PROBE_UPPER_LIMIT,
};

/// The number nearest to `value` that the library can hold.
fn dec(value: f64) -> Decimal {
    Decimal::from_thousandths((value * 1000.0).round() as i64)
}

#[test]
fn parses_calibration_status() {
    let response = "?CAL,1";
    assert_eq!(
        CalibrationStatus::parse(&response).unwrap(),
        CalibrationStatus::OnePoint
    );

    let response = "?CAL,2";
    assert_eq!(
        CalibrationStatus::parse(&response).unwrap(),
        CalibrationStatus::TwoPoint
    );

    let response = "?CAL,3";
    assert_eq!(
        CalibrationStatus::parse(&response).unwrap(),
        CalibrationStatus::ThreePoint
    );

    let response = "?CAL,0";
    assert_eq!(
        CalibrationStatus::parse(&response).unwrap(),
        CalibrationStatus::NotCalibrated
    );
}

#[test]
fn parsing_invalid_calibration_status_yields_error() {
    let response = "";
    assert!(CalibrationStatus::parse(&response).is_err());

    let response = "?CAL,";
    assert!(CalibrationStatus::parse(&response).is_err());

    let response = "?CAL,2.";
    assert!(CalibrationStatus::parse(&response).is_err());

    let response = "?CAL,-1";
    assert!(CalibrationStatus::parse(&response).is_err());

    let response = "?CAL,4";
    assert!(CalibrationStatus::parse(&response).is_err());

    let response = "?CAL,b";
    assert!(CalibrationStatus::parse(&response).is_err());

    let response = "?CAL,1,";
    assert!(CalibrationStatus::parse(&response).is_err());
}

#[test]
fn parses_sensor_reading() {
    let response = "0";
    assert_eq!(SensorReading::parse(response).unwrap(), SensorReading(dec(0.00)));

    let response = "12.5";
    assert_eq!(
        SensorReading::parse(response).unwrap(),
        SensorReading(dec(12.50))
    );

    let response = "14.0";
    assert_eq!(
        SensorReading::parse(response).unwrap(),
        SensorReading(dec(14.00))
    );
}

#[test]
fn parsing_invalid_sensor_reading_yields_error() {
    let response = "";
    assert!(SensorReading::parse(response).is_err());

    let response = "-x";
    assert!(SensorReading::parse(response).is_err());

    let response = "-0.5";
    assert!(SensorReading::parse(response).is_err());

    let response = "10.5.5";
    assert!(SensorReading::parse(response).is_err());

    let response = "14.1";
    assert!(SensorReading::parse(response).is_err());
}

#[test]
fn parses_probe_slope() {
    let response = "?SLOPE,99.7,-100.3";
    assert_eq!(
        ProbeSlope::parse(response).unwrap(),
        ProbeSlope {
            acid_end: dec(99.7),
            base_end: dec(-100.3)
        }
    );

    let response = "?SLOPE,97,-99.3";
    assert_eq!(
        ProbeSlope::parse(response).unwrap(),
        ProbeSlope {
            acid_end: dec(97.0),
            base_end: dec(-99.3)
        }
    );
}

#[test]
fn parsing_invalid_probe_slope_yields_error() {
    let response = "?SLOPE,";
    assert!(ProbeSlope::parse(response).is_err());

    let response = "?SLOPE,-1,";
    assert!(ProbeSlope::parse(response).is_err());

    let response = "?SLOPE,1,foo";
    assert!(ProbeSlope::parse(response).is_err());

    let response = "?SLOPE,1,foo,";
    assert!(ProbeSlope::parse(response).is_err());
}

#[test]
fn parses_temperature_compensation_value() {
    let response = "?T,14.56";
    assert_eq!(
        CompensationValue::parse(response).unwrap(),
        CompensationValue(dec(14.56))
    );
}

#[test]
fn parsing_invalid_temperature_compensation_value_yields_error() {
    let response = "";
    assert!(CompensationValue::parse(response).is_err());

    let response = "?T,";
    assert!(CompensationValue::parse(response).is_err());

    let response = "?T,X.00";
    assert!(CompensationValue::parse(response).is_err());

    let response = "?T,1.2,43";
    assert!(CompensationValue::parse(response).is_err());
}

#[test]
fn a_reading_out_of_range_is_not_a_parse_error() {
    assert_eq!(SensorReading::parse("14.0").unwrap(), SensorReading(dec(14.0)));
    assert_eq!(SensorReading::parse("14.000").unwrap().0.thousandths, 14_000);
    assert_eq!(SensorReading::parse("0").unwrap().0.thousandths, 0);
    assert_eq!(SensorReading::parse("-0").unwrap().0.thousandths, 0);
    assert_eq!(SensorReading::parse("14.1").unwrap_err().kind(), ErrorKind::InvalidReading);
    assert_eq!(SensorReading::parse("14.001").unwrap_err().kind(), ErrorKind::InvalidReading);
    assert_eq!(SensorReading::parse("-0.5").unwrap_err().kind(), ErrorKind::InvalidReading);
    assert_eq!(SensorReading::parse("-0.001").unwrap_err().kind(), ErrorKind::InvalidReading);
    assert_eq!(SensorReading::parse("10.5.5").unwrap_err().kind(), ErrorKind::ResponseParse);
    assert_eq!(SensorReading::parse("").unwrap_err().kind(), ErrorKind::ResponseParse);
    assert_eq!(SensorReading::parse("7,").unwrap_err().kind(), ErrorKind::ResponseParse);
    assert_eq!(SensorReading::parse(" 7").unwrap_err().kind(), ErrorKind::ResponseParse);
}

#[test]
fn the_probe_measures_from_zero_to_fourteen() {
    assert_eq!(PROBE_LOWER_LIMIT, 0);
    assert_eq!(PROBE_UPPER_LIMIT, 14_000);
}

#[test]
fn calibration_status_is_strict_about_prefix_and_case() {
    assert_eq!(CalibrationStatus::parse("?CAL,4").unwrap_err().kind(), ErrorKind::ResponseParse);
    assert!(CalibrationStatus::parse("?cal,3").is_err());
    assert!(CalibrationStatus::parse("CAL,3").is_err());
    assert!(CalibrationStatus::parse("?CAL,3 ").is_err());
    assert!(CalibrationStatus::parse("?CAL,03").is_err());
    assert!(CalibrationStatus::parse("?CAL,3,3").is_err());
    assert!(CalibrationStatus::parse("?CAL").is_err());
}

#[test]
fn calibration_status_has_a_wire_form_and_a_name() {
    let all = [
        (CalibrationStatus::OnePoint, "?CAL,1", "one-point"),
        (CalibrationStatus::TwoPoint, "?CAL,2", "two-point"),
        (CalibrationStatus::ThreePoint, "?CAL,3", "three-point"),
        (CalibrationStatus::NotCalibrated, "?CAL,0", "none"),
    ];
    for (status, wire, name) in all {
        assert_eq!(status.to_wire(), wire);
        assert_eq!(status.name(), name);
        assert_eq!(CalibrationStatus::parse(status.to_wire()).unwrap(), status);
    }
}

#[test]
fn probe_slope_takes_exactly_two_numbers() {
    assert_eq!(
        ProbeSlope::parse("?SLOPE,1,foo").unwrap_err().kind(),
        ErrorKind::ResponseParse
    );
    assert!(ProbeSlope::parse("?SLOPE,1").is_err());
    assert!(ProbeSlope::parse("?SLOPE,1,2,3").is_err());
    assert!(ProbeSlope::parse("?SLOPE,,2").is_err());
    assert!(ProbeSlope::parse("?slope,1,2").is_err());
    assert!(ProbeSlope::parse("SLOPE,1,2").is_err());
    assert!(ProbeSlope::parse("?SLOPE,1,2,").is_err());
    assert_eq!(
        ProbeSlope::parse("?SLOPE,1,2").unwrap(),
        ProbeSlope { acid_end: dec(1.0), base_end: dec(2.0) }
    );
}

#[test]
fn responses_are_written_with_three_digits() {
    let slope = ProbeSlope { acid_end: dec(99.7), base_end: dec(-100.3) };
    assert_eq!(slope.to_wire(), "?SLOPE,99.700,-100.300");
    assert_eq!(slope.values(), "99.700,-100.300");
    assert_eq!(ProbeSlope::parse(&slope.to_wire()).unwrap(), slope);

    let value = CompensationValue(dec(14.56));
    assert_eq!(value.to_wire(), "?T,14.560");
    assert_eq!(value.value(), "14.560");
    assert_eq!(CompensationValue::parse(&value.to_wire()).unwrap(), value);

    let reading = SensorReading(dec(7.0));
    assert_eq!(reading.to_wire(), "7.000");
    assert_eq!(SensorReading::parse(&reading.to_wire()).unwrap(), reading);
}

#[test]
fn compensation_value_takes_one_number() {
    assert_eq!(CompensationValue::parse("?T,").unwrap_err().kind(), ErrorKind::ResponseParse);
    assert_eq!(CompensationValue::parse("?T,-5").unwrap(), CompensationValue(dec(-5.0)));
    assert!(CompensationValue::parse("?T,19.5,").is_err());
    assert!(CompensationValue::parse("?t,19.5").is_err());
    assert!(CompensationValue::parse("T,19.5").is_err());
}
