use ezo_ph::command::{
    parse_command, BpsRate, Command, Encoded, ImportString, ResponseKind, MAX_DATA,
};
use ezo_ph::decimal::Decimal;
use ezo_ph::errors::ErrorKind;

/// The number nearest to `value` that the library can hold.
fn dec(value: f64) -> Decimal {
    Decimal::from_thousandths((value * 1000.0).round() as i64)
}

fn import(text: &str) -> Command {
    Command::Import(ImportString::new(text).unwrap())
}

#[test]
fn build_command_calibration_mid() {
    let cmd = Command::CalibrationMid(dec(7.00));
    assert_eq!(cmd.get_command_string(), "CAL,MID,7.00");
    assert_eq!(cmd.get_delay(), 900);
}

#[test]
fn parse_case_insensitive_command_calibration_mid() {
    let cmd = "cal,mid,0".parse::<Command>().unwrap();
    assert_eq!(cmd, Command::CalibrationMid(dec(0_f64)));

    let cmd = "Cal,MID,121.43".parse::<Command>().unwrap();
    assert_eq!(cmd, Command::CalibrationMid(dec(121.43)));
}

#[test]
fn parse_invalid_command_calibration_mid_yields_err() {
    let cmd = "cal,mid,".parse::<Command>();
    assert!(cmd.is_err());

    let cmd = "CAL,MID,1a21.43".parse::<Command>();
    assert!(cmd.is_err());
}

#[test]
fn build_command_calibration_low() {
    let cmd = Command::CalibrationLow(dec(4.));
    assert_eq!(cmd.get_command_string(), "CAL,LOW,4.00");
    assert_eq!(cmd.get_delay(), 900);
}

#[test]
fn parse_case_insensitive_command_calibration_low() {
    let cmd = "cal,low,0".parse::<Command>().unwrap();
    assert_eq!(cmd, Command::CalibrationLow(dec(0_f64)));

    let cmd = "Cal,loW,-121.43".parse::<Command>().unwrap();
    assert_eq!(cmd, Command::CalibrationLow(dec(-121.43)));
}

#[test]
fn parse_invalid_command_calibration_low_yields_err() {
    let cmd = "cal,low,".parse::<Command>();
    assert!(cmd.is_err());

    let cmd = "CAL,LOW,1a21.43".parse::<Command>();
    assert!(cmd.is_err());
}

#[test]
fn build_command_calibration_high() {
    let cmd = Command::CalibrationHigh(dec(10.056));
    assert_eq!(cmd.get_command_string(), "CAL,HIGH,10.06");
    assert_eq!(cmd.get_delay(), 900);
}

#[test]
fn parse_case_insensitive_command_calibration_high() {
    let cmd = "cal,high,0".parse::<Command>().unwrap();
    assert_eq!(cmd, Command::CalibrationHigh(dec(0_f64)));

    let cmd = "Cal,HIGH,4121.43".parse::<Command>().unwrap();
    assert_eq!(cmd, Command::CalibrationHigh(dec(4121.43)));
}

#[test]
fn parse_invalid_command_calibration_high_yields_err() {
    let cmd = "cal,high,".parse::<Command>();
    assert!(cmd.is_err());

    let cmd = "CAL,High,1a21.43".parse::<Command>();
    assert!(cmd.is_err());
}

#[test]
fn build_command_calibration_state() {
    let cmd = Command::CalibrationState;
    assert_eq!(cmd.get_command_string(), "CAL,?");
    assert_eq!(cmd.get_delay(), 300);
}

#[test]
fn parse_case_insensitive_command_calibration_state() {
    let cmd = "cal,?".parse::<Command>().unwrap();
    assert_eq!(cmd, Command::CalibrationState);

    let cmd = "Cal,?".parse::<Command>().unwrap();
    assert_eq!(cmd, Command::CalibrationState);
}

#[test]
fn build_command_reading() {
    let cmd = Command::Reading;
    assert_eq!(cmd.get_command_string(), "R");
    assert_eq!(cmd.get_delay(), 900);
}

#[test]
fn parse_case_insensitive_command_reading() {
    let cmd = "r".parse::<Command>().unwrap();
    assert_eq!(cmd, Command::Reading);

    let cmd = "R".parse::<Command>().unwrap();
    assert_eq!(cmd, Command::Reading);
}

#[test]
fn build_command_slope() {
    let cmd = Command::Slope;
    assert_eq!(cmd.get_command_string(), "SLOPE,?");
    assert_eq!(cmd.get_delay(), 300);
}

#[test]
fn parse_case_insensitive_command_slope() {
    let cmd = "Slope,?".parse::<Command>().unwrap();
    assert_eq!(cmd, Command::Slope);

    let cmd = "SLOPE,?".parse::<Command>().unwrap();
    assert_eq!(cmd, Command::Slope);
}

#[test]
fn parse_case_insensitive_command_temperature_compensation() {
    let cmd = "t,0".parse::<Command>().unwrap();
    assert_eq!(cmd, Command::TemperatureCompensation(dec(0_f64)));

    let cmd = "T,10.5".parse::<Command>().unwrap();
    assert_eq!(cmd, Command::TemperatureCompensation(dec(10.5)));
}

#[test]
fn parse_invalid_command_temperature_compensation_yields_err() {
    let cmd = "T,".parse::<Command>();
    assert!(cmd.is_err());

    let cmd = "T,$".parse::<Command>();
    assert!(cmd.is_err());

    let cmd = "T,1a21.43".parse::<Command>();
    assert!(cmd.is_err());
}

#[test]
fn build_command_temperature_compensation_value() {
    let cmd = Command::CompensatedTemperatureValue;
    assert_eq!(cmd.get_command_string(), "T,?");
    assert_eq!(cmd.get_delay(), 300);
}

#[test]
fn parse_case_insensitive_command_temperature_compensation_value() {
    let cmd = "t,?".parse::<Command>().unwrap();
    assert_eq!(cmd, Command::CompensatedTemperatureValue);

    let cmd = "T,?".parse::<Command>().unwrap();
    assert_eq!(cmd, Command::CompensatedTemperatureValue);
}

#[test]
fn build_command_temperature_compensation() {
    let cmd = Command::TemperatureCompensation(dec(19.5));
    assert_eq!(cmd.get_command_string(), "T,19.500");
    assert_eq!(cmd.get_delay(), 300);
    assert_eq!(cmd.get_response_kind(), Some(ResponseKind::Ack));
}

/// One command of each variant, with its wire text, delay and answer.
fn table() -> Vec<(Command, &'static str, u64, Option<ResponseKind>)> {
    vec![
        (Command::Baud(BpsRate::Bps9600), "BAUD,9600", 0, None),
        (Command::CalibrationMid(dec(7.0)), "CAL,MID,7.00", 900, Some(ResponseKind::Ack)),
        (Command::CalibrationLow(dec(4.0)), "CAL,LOW,4.00", 900, Some(ResponseKind::Ack)),
        (Command::CalibrationHigh(dec(10.0)), "CAL,HIGH,10.00", 900, Some(ResponseKind::Ack)),
        (Command::CalibrationClear, "CAL,CLEAR", 300, Some(ResponseKind::Ack)),
        (Command::CalibrationState, "CAL,?", 300, Some(ResponseKind::CalibrationStatus)),
        (Command::Export, "EXPORT", 300, Some(ResponseKind::Exported)),
        (Command::ExportInfo, "EXPORT,?", 300, Some(ResponseKind::ExportedInfo)),
        (import("59 6F 75 20"), "IMPORT,59 6F 75 20", 300, Some(ResponseKind::Ack)),
        (Command::Factory, "FACTORY", 0, None),
        (Command::Find, "F", 300, None),
        (Command::DeviceInformation, "I", 300, Some(ResponseKind::DeviceInfo)),
        (Command::DeviceAddress(99), "I2C,99", 300, None),
        (Command::LedOn, "L,1", 300, Some(ResponseKind::Ack)),
        (Command::LedOff, "L,0", 300, Some(ResponseKind::Ack)),
        (Command::LedState, "L,?", 300, Some(ResponseKind::LedStatus)),
        (Command::ProtocolLockEnable, "PLOCK,1", 300, Some(ResponseKind::Ack)),
        (Command::ProtocolLockDisable, "PLOCK,0", 300, Some(ResponseKind::Ack)),
        (Command::ProtocolLockState, "PLOCK,?", 300, Some(ResponseKind::ProtocolLockStatus)),
        (Command::Reading, "R", 900, Some(ResponseKind::SensorReading)),
        (Command::Sleep, "SLEEP", 0, None),
        (Command::Slope, "SLOPE,?", 300, Some(ResponseKind::ProbeSlope)),
        (Command::Status, "STATUS", 300, Some(ResponseKind::DeviceStatus)),
        (Command::TemperatureCompensation(dec(19.5)), "T,19.500", 300, Some(ResponseKind::Ack)),
        (
            Command::CompensatedTemperatureValue,
            "T,?",
            300,
            Some(ResponseKind::CompensationValue),
        ),
    ]
}

#[test]
fn encodes_every_command_as_the_table_says() {
    for (cmd, wire, delay, response) in table() {
        assert_eq!(
            cmd.encode(),
            Encoded { wire_string: wire.to_string(), delay_ms: delay, response }
        );
        assert_eq!(cmd.get_command_string(), wire);
        assert_eq!(cmd.get_delay(), delay);
        assert_eq!(cmd.get_response_kind(), response);
    }
}

#[test]
fn decodes_what_it_encodes() {
    for (cmd, wire, _, _) in table() {
        assert_eq!(parse_command(wire).unwrap(), cmd);
        assert_eq!(parse_command(&cmd.get_command_string()).unwrap(), cmd);
    }
}

#[test]
fn decodes_in_either_case() {
    for (cmd, wire, _, _) in table() {
        assert_eq!(parse_command(&wire.to_lowercase()).unwrap(), cmd);
    }
    assert_eq!(parse_command("baud,300").unwrap(), parse_command("BAUD,300").unwrap());
    assert_eq!(parse_command("baud,300").unwrap(), Command::Baud(BpsRate::Bps300));
    assert_eq!(parse_command("sLeEp").unwrap(), Command::Sleep);
    assert_eq!(parse_command("import,abc").unwrap(), import("ABC"));
}

#[test]
fn a_rounded_calibration_point_does_not_come_back() {
    let cmd = Command::CalibrationHigh(dec(10.056));
    let back = parse_command(&cmd.get_command_string()).unwrap();
    assert_eq!(back, Command::CalibrationHigh(dec(10.06)));
}

#[test]
fn a_line_in_lower_case_comes_back_in_upper_case() {
    let cmd = import("abc");
    assert_eq!(cmd.get_command_string(), "IMPORT,abc");
    assert_eq!(parse_command("IMPORT,abc").unwrap(), import("ABC"));
}

#[test]
fn reads_every_baud_rate() {
    let rates = [
        (BpsRate::Bps300, "300", 300),
        (BpsRate::Bps1200, "1200", 1200),
        (BpsRate::Bps2400, "2400", 2400),
        (BpsRate::Bps9600, "9600", 9600),
        (BpsRate::Bps19200, "19200", 19200),
        (BpsRate::Bps38400, "38400", 38400),
        (BpsRate::Bps57600, "57600", 57600),
        (BpsRate::Bps115200, "115200", 115200),
    ];
    for (rate, text, bps) in rates {
        assert_eq!(rate.as_str(), text);
        assert_eq!(rate.bps(), bps);
        let chars: Vec<char> = text.chars().collect();
        assert_eq!(BpsRate::read(&chars), Some(rate));
        assert_eq!(parse_command(&format!("BAUD,{}", text)).unwrap(), Command::Baud(rate));
    }
    assert!(parse_command("BAUD,301").is_err());
    assert!(parse_command("BAUD,").is_err());
    assert!(parse_command("BAUD").is_err());
    assert!(parse_command("BAUD,0300").is_err());
}

#[test]
fn rejects_what_follows_a_command() {
    assert!(parse_command("R,").is_err());
    assert!(parse_command("R ").is_err());
    assert!(parse_command(" R").is_err());
    assert!(parse_command("CAL,?,").is_err());
    assert!(parse_command("CAL,MID,7.00,").is_err());
    assert!(parse_command("CAL,MID,7.00,1").is_err());
    assert!(parse_command("BAUD,300,").is_err());
    assert!(parse_command("BAUD,300,1200").is_err());
    assert!(parse_command("I2C,99,").is_err());
    assert!(parse_command("T,19.5,").is_err());
    assert!(parse_command("SLEEP,1").is_err());
    assert!(parse_command("").is_err());
    assert!(parse_command("X").is_err());
}

#[test]
fn a_failed_parse_is_a_command_parse_error() {
    assert_eq!(parse_command("CAL,MID,x").unwrap_err().kind(), ErrorKind::CommandParse);
    assert_eq!(parse_command("").unwrap_err().kind(), ErrorKind::CommandParse);
    assert_eq!("nope".parse::<Command>().unwrap_err().kind(), ErrorKind::CommandParse);
}

#[test]
fn reads_a_device_address() {
    assert_eq!(parse_command("I2C,0").unwrap(), Command::DeviceAddress(0));
    assert_eq!(parse_command("i2c,100").unwrap(), Command::DeviceAddress(100));
    assert_eq!(parse_command("I2C,+7").unwrap(), Command::DeviceAddress(7));
    assert_eq!(parse_command("I2C,007").unwrap(), Command::DeviceAddress(7));
    assert_eq!(parse_command("I2C,65535").unwrap(), Command::DeviceAddress(65535));
    assert!(parse_command("I2C,65536").is_err());
    assert!(parse_command("I2C,-1").is_err());
    assert!(parse_command("I2C,").is_err());
    assert!(parse_command("I2C,+").is_err());
    assert!(parse_command("I2C,1.0").is_err());
    assert_eq!(Command::DeviceAddress(65535).get_command_string(), "I2C,65535");
    assert_eq!(Command::DeviceAddress(0).get_command_string(), "I2C,0");
}

#[test]
fn import_string_takes_one_to_twelve_printable_characters() {
    assert_eq!(ImportString::new("").unwrap_err().kind(), ErrorKind::InvalidParameter);
    assert_eq!(ImportString::new("a").unwrap().as_str(), "a");
    assert_eq!(ImportString::new("123456789012").unwrap().as_str(), "123456789012");
    assert_eq!(
        ImportString::new("1234567890123").unwrap_err().kind(),
        ErrorKind::InvalidParameter
    );
    assert!(ImportString::new("12345678901234567890").is_err());
    assert!(ImportString::new("a\nb").is_err());
    assert!(ImportString::new("a\u{0}b").is_err());
    assert!(ImportString::new("\u{7f}").is_err());
    assert!(ImportString::new("é").is_err());
    assert!(ImportString::new(" ~").is_ok());
    assert!(ImportString::new("a,b").is_ok());
    let line = ImportString::new("AB 12").unwrap();
    assert_eq!(line.clone(), line);
}

#[test]
fn reads_a_line_to_import() {
    assert_eq!(parse_command("IMPORT,AB 12").unwrap(), import("AB 12"));
    assert_eq!(parse_command("IMPORT,A,B").unwrap(), import("A,B"));
    assert!(parse_command("IMPORT,").is_err());
    assert!(parse_command("IMPORT").is_err());
    assert!(parse_command("IMPORT,1234567890123").is_err());
    assert_eq!(parse_command("IMPORT,123456789012").unwrap(), import("123456789012"));
}

#[test]
fn calibration_points_are_written_with_two_digits_and_temperature_with_three() {
    assert_eq!(Command::CalibrationMid(dec(7.0)).get_command_string(), "CAL,MID,7.00");
    assert_eq!(Command::CalibrationLow(dec(-0.004)).get_command_string(), "CAL,LOW,-0.00");
    assert_eq!(Command::CalibrationHigh(dec(0.125)).get_command_string(), "CAL,HIGH,0.12");
    assert_eq!(Command::CalibrationHigh(dec(0.135)).get_command_string(), "CAL,HIGH,0.14");
    assert_eq!(Command::TemperatureCompensation(dec(-3.25)).get_command_string(), "T,-3.250");
    assert_eq!(Command::TemperatureCompensation(dec(0.001)).get_command_string(), "T,0.001");
}

#[test]
fn the_read_buffer_holds_a_status_byte_and_four_hundred_characters() {
    assert_eq!(MAX_DATA, 401);
}
