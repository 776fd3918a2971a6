//! What holds of the commands, the responses and their texts taken together.
use crate::command::{
    after, command_of, decode, parameter_command_of, plain_command_of, rate_of, BpsRate,
    CommandView,
};
use crate::decimal::{
    fixed_text, is_numeric, lemma_fixed_text_shape, lemma_read_three_places,
    lemma_read_two_places, Decimal, Places,
};
use crate::device::is_export_line;
use crate::errors::PhError;
use crate::number::{all_digits, is_digit, lemma_numeral, numeral, unsigned_of};
use crate::response::{
    compensation_value_of, in_probe_range, probe_slope_of, sensor_reading_of, CompensationValue,
    ProbeSlope, SensorReading,
};
use crate::text::{
    all_printable, free_of, has_prefix, lemma_not_prefix, lemma_prefix_of_concat,
    lemma_split_append, lemma_split_free, lemma_uppercase_idempotent,
    lemma_uppercase_unchanged, no_lowercase, printable, uppercase,
};
use vstd::prelude::*;
use vstd::string::*;

verus! {

impl CommandView {
    /// Whether the wire text of this command says all that the command
    /// holds: a calibration point is a whole count of hundredths, and a line
    /// to import has no lower-case letter.
    pub open spec fn canonical(self) -> bool {
        match self {
            CommandView::CalibrationMid(t)
            | CommandView::CalibrationLow(t)
            | CommandView::CalibrationHigh(t) => t.thousandths % 10 == 0,
            CommandView::Import(line) => no_lowercase(line),
            _ => true,
        }
    }
}

/// Texts that differ only in the case of their letters stand for the same
/// command, or both for none.
pub proof fn lemma_case_insensitive(s: Seq<char>, t: Seq<char>)
    requires
        uppercase(s) == uppercase(t),
    ensures
        command_of(s) == command_of(t),
{
}

/// A text stands for the command that its upper-case form stands for.
pub proof fn lemma_uppercase_command(s: Seq<char>)
    ensures
        command_of(uppercase(s)) == command_of(s),
{
    lemma_uppercase_idempotent(s);
}

/// The wire text of a command is read back as that command, where the text
/// says all that the command holds.
pub proof fn lemma_round_trip(command: CommandView)
    requires
        command.valid(),
        command.canonical(),
    ensures
        command_of(command.wire_text()) == Some(command),
{
    match command {
        CommandView::Baud(rate) => lemma_round_trip_baud(rate),
        CommandView::CalibrationMid(t) => lemma_round_trip_mid(t),
        CommandView::CalibrationLow(t) => lemma_round_trip_low(t),
        CommandView::CalibrationHigh(t) => lemma_round_trip_high(t),
        CommandView::Import(line) => lemma_round_trip_import(line),
        CommandView::DeviceAddress(address) => lemma_round_trip_address(address),
        CommandView::TemperatureCompensation(t) => lemma_round_trip_temperature(t),
        _ => lemma_round_trip_plain(command),
    }
}

/// Every command goes over the wire as printable characters, so that each
/// is one byte and none is the closing NUL.
pub proof fn lemma_wire_text_printable(command: CommandView)
    requires
        command.valid(),
    ensures
        all_printable(command.wire_text()),
{
    lemma_plain_words();
    lemma_parameter_words();
    lemma_rate_words();
    match command {
        CommandView::Baud(rate) => lemma_printable_concat("BAUD,"@, rate.text()),
        CommandView::CalibrationMid(t) => {
            lemma_fixed_text_printable(t.thousandths as int, Places::Two);
            lemma_printable_concat("CAL,MID,"@, fixed_text(t.thousandths as int, Places::Two));
        },
        CommandView::CalibrationLow(t) => {
            lemma_fixed_text_printable(t.thousandths as int, Places::Two);
            lemma_printable_concat("CAL,LOW,"@, fixed_text(t.thousandths as int, Places::Two));
        },
        CommandView::CalibrationHigh(t) => {
            lemma_fixed_text_printable(t.thousandths as int, Places::Two);
            lemma_printable_concat("CAL,HIGH,"@, fixed_text(t.thousandths as int, Places::Two));
        },
        CommandView::Import(line) => lemma_printable_concat("IMPORT,"@, line),
        CommandView::DeviceAddress(address) => {
            let digits = numeral(address as nat);
            lemma_numeral(address as nat);
            assert(all_printable(digits)) by {
                assert forall|i: int| 0 <= i < digits.len() implies printable(
                    #[trigger] digits[i],
                ) by {
                    assert(is_digit(digits[i]));
                }
            }
            lemma_printable_concat("I2C,"@, digits);
        },
        CommandView::TemperatureCompensation(t) => {
            lemma_fixed_text_printable(t.thousandths as int, Places::Three);
            lemma_printable_concat("T,"@, fixed_text(t.thousandths as int, Places::Three));
        },
        _ => {},
    }
}

/// Two printable texts in a row are a printable text.
proof fn lemma_printable_concat(a: Seq<char>, b: Seq<char>)
    requires
        all_printable(a),
        all_printable(b),
    ensures
        all_printable(a + b),
{
    let whole = a + b;
    assert forall|i: int| 0 <= i < whole.len() implies printable(#[trigger] whole[i]) by {
        if i < a.len() {
            assert(whole[i] == a[i]);
        } else {
            assert(whole[i] == b[i - a.len()]);
        }
    }
}

/// The text of a number is printable.
proof fn lemma_fixed_text_printable(t: int, places: Places)
    ensures
        all_printable(fixed_text(t, places)),
{
    lemma_fixed_text_shape(t, places);
    let s = fixed_text(t, places);
    assert forall|i: int| 0 <= i < s.len() implies printable(#[trigger] s[i]) by {
        assert(is_numeric(s[i]));
    }
}

/// A reading that the probe can report is read back from its own text.
pub proof fn lemma_reading_round_trip(reading: SensorReading)
    requires
        in_probe_range(reading.0.thousandths as int),
    ensures
        sensor_reading_of(reading.wire_text()) == Ok::<SensorReading, PhError>(reading),
{
    lemma_read_three_places(reading.0.thousandths);
}

/// A compensation value is read back from its own response text.
pub proof fn lemma_compensation_round_trip(value: CompensationValue)
    ensures
        compensation_value_of(value.wire_text()) == Some(value),
{
    lemma_read_three_places(value.0.thousandths);
    lemma_prefix_of_concat("?T,"@, value.value_text());
}

/// A slope is read back from its own response text.
pub proof fn lemma_slope_round_trip(slope: ProbeSlope)
    ensures
        probe_slope_of(slope.wire_text()) == Some(slope),
{
    let acid = fixed_text(slope.acid_end.thousandths as int, Places::Three);
    let base = fixed_text(slope.base_end.thousandths as int, Places::Three);
    lemma_read_three_places(slope.acid_end.thousandths);
    lemma_read_three_places(slope.base_end.thousandths);
    lemma_fixed_text_commas(slope.acid_end.thousandths as int, Places::Three);
    lemma_fixed_text_commas(slope.base_end.thousandths as int, Places::Three);
    lemma_prefix_of_concat("?SLOPE,"@, slope.values_text());
    lemma_split_free(acid, ',');
    lemma_split_append(acid, base, ',');
    assert(seq![acid].push(base) =~= seq![acid, base]);
}

/// The text of a number holds no comma.
proof fn lemma_fixed_text_commas(t: int, places: Places)
    ensures
        free_of(fixed_text(t, places), ','),
{
    lemma_fixed_text_shape(t, places);
    let s = fixed_text(t, places);
    assert forall|i: int| 0 <= i < s.len() implies #[trigger] s[i] != ',' by {
        assert(is_numeric(s[i]));
    }
}

/// The length, the ends and the case of each command without parameter.
proof fn lemma_plain_words()
    ensures
        "CAL,CLEAR"@.len() == 9,
        "CAL,CLEAR"@[0] == 'C',
        "CAL,CLEAR"@[8] == 'R',
        no_lowercase("CAL,CLEAR"@),
        all_printable("CAL,CLEAR"@),
        "CAL,?"@.len() == 5,
        "CAL,?"@[0] == 'C',
        "CAL,?"@[4] == '?',
        no_lowercase("CAL,?"@),
        all_printable("CAL,?"@),
        "EXPORT"@.len() == 6,
        "EXPORT"@[0] == 'E',
        "EXPORT"@[5] == 'T',
        no_lowercase("EXPORT"@),
        all_printable("EXPORT"@),
        "EXPORT,?"@.len() == 8,
        "EXPORT,?"@[0] == 'E',
        "EXPORT,?"@[7] == '?',
        no_lowercase("EXPORT,?"@),
        all_printable("EXPORT,?"@),
        "FACTORY"@.len() == 7,
        "FACTORY"@[0] == 'F',
        "FACTORY"@[6] == 'Y',
        no_lowercase("FACTORY"@),
        all_printable("FACTORY"@),
        "F"@.len() == 1,
        "F"@[0] == 'F',
        no_lowercase("F"@),
        all_printable("F"@),
        "I"@.len() == 1,
        "I"@[0] == 'I',
        no_lowercase("I"@),
        all_printable("I"@),
        "L,1"@.len() == 3,
        "L,1"@[0] == 'L',
        "L,1"@[2] == '1',
        no_lowercase("L,1"@),
        all_printable("L,1"@),
        "L,0"@.len() == 3,
        "L,0"@[0] == 'L',
        "L,0"@[2] == '0',
        no_lowercase("L,0"@),
        all_printable("L,0"@),
        "L,?"@.len() == 3,
        "L,?"@[0] == 'L',
        "L,?"@[2] == '?',
        no_lowercase("L,?"@),
        all_printable("L,?"@),
        "PLOCK,1"@.len() == 7,
        "PLOCK,1"@[0] == 'P',
        "PLOCK,1"@[6] == '1',
        no_lowercase("PLOCK,1"@),
        all_printable("PLOCK,1"@),
        "PLOCK,0"@.len() == 7,
        "PLOCK,0"@[0] == 'P',
        "PLOCK,0"@[6] == '0',
        no_lowercase("PLOCK,0"@),
        all_printable("PLOCK,0"@),
        "PLOCK,?"@.len() == 7,
        "PLOCK,?"@[0] == 'P',
        "PLOCK,?"@[6] == '?',
        no_lowercase("PLOCK,?"@),
        all_printable("PLOCK,?"@),
        "R"@.len() == 1,
        "R"@[0] == 'R',
        no_lowercase("R"@),
        all_printable("R"@),
        "SLEEP"@.len() == 5,
        "SLEEP"@[0] == 'S',
        "SLEEP"@[4] == 'P',
        no_lowercase("SLEEP"@),
        all_printable("SLEEP"@),
        "SLOPE,?"@.len() == 7,
        "SLOPE,?"@[0] == 'S',
        "SLOPE,?"@[6] == '?',
        no_lowercase("SLOPE,?"@),
        all_printable("SLOPE,?"@),
        "STATUS"@.len() == 6,
        "STATUS"@[0] == 'S',
        "STATUS"@[5] == 'S',
        no_lowercase("STATUS"@),
        all_printable("STATUS"@),
        "T,?"@.len() == 3,
        "T,?"@[0] == 'T',
        "T,?"@[2] == '?',
        no_lowercase("T,?"@),
        all_printable("T,?"@),
{
    reveal_strlit("CAL,CLEAR");
    reveal_strlit("CAL,?");
    reveal_strlit("EXPORT");
    reveal_strlit("EXPORT,?");
    reveal_strlit("FACTORY");
    reveal_strlit("F");
    reveal_strlit("I");
    reveal_strlit("L,1");
    reveal_strlit("L,0");
    reveal_strlit("L,?");
    reveal_strlit("PLOCK,1");
    reveal_strlit("PLOCK,0");
    reveal_strlit("PLOCK,?");
    reveal_strlit("R");
    reveal_strlit("SLEEP");
    reveal_strlit("SLOPE,?");
    reveal_strlit("STATUS");
    reveal_strlit("T,?");
}

/// The length, the telling characters and the case of each command name
/// that a parameter follows.
proof fn lemma_parameter_words()
    ensures
        "BAUD,"@.len() == 5,
        "BAUD,"@[0] == 'B',
        no_lowercase("BAUD,"@),
        all_printable("BAUD,"@),
        "CAL,MID,"@.len() == 8,
        "CAL,MID,"@[0] == 'C',
        "CAL,MID,"@[4] == 'M',
        no_lowercase("CAL,MID,"@),
        all_printable("CAL,MID,"@),
        "CAL,LOW,"@.len() == 8,
        "CAL,LOW,"@[0] == 'C',
        "CAL,LOW,"@[4] == 'L',
        no_lowercase("CAL,LOW,"@),
        all_printable("CAL,LOW,"@),
        "CAL,HIGH,"@.len() == 9,
        "CAL,HIGH,"@[0] == 'C',
        "CAL,HIGH,"@[4] == 'H',
        no_lowercase("CAL,HIGH,"@),
        all_printable("CAL,HIGH,"@),
        "IMPORT,"@.len() == 7,
        "IMPORT,"@[0] == 'I',
        "IMPORT,"@[1] == 'M',
        no_lowercase("IMPORT,"@),
        all_printable("IMPORT,"@),
        "I2C,"@.len() == 4,
        "I2C,"@[0] == 'I',
        "I2C,"@[1] == '2',
        no_lowercase("I2C,"@),
        all_printable("I2C,"@),
        "T,"@.len() == 2,
        "T,"@[0] == 'T',
        "T,"@[1] == ',',
        no_lowercase("T,"@),
        all_printable("T,"@),
{
    reveal_strlit("BAUD,");
    reveal_strlit("CAL,MID,");
    reveal_strlit("CAL,LOW,");
    reveal_strlit("CAL,HIGH,");
    reveal_strlit("IMPORT,");
    reveal_strlit("I2C,");
    reveal_strlit("T,");
}

/// The length, the first character and the case of each rate.
proof fn lemma_rate_words()
    ensures
        "300"@.len() == 3,
        "300"@[0] == '3',
        no_lowercase("300"@),
        all_printable("300"@),
        "1200"@.len() == 4,
        "1200"@[0] == '1',
        no_lowercase("1200"@),
        all_printable("1200"@),
        "2400"@.len() == 4,
        "2400"@[0] == '2',
        no_lowercase("2400"@),
        all_printable("2400"@),
        "9600"@.len() == 4,
        "9600"@[0] == '9',
        no_lowercase("9600"@),
        all_printable("9600"@),
        "19200"@.len() == 5,
        "19200"@[0] == '1',
        no_lowercase("19200"@),
        all_printable("19200"@),
        "38400"@.len() == 5,
        "38400"@[0] == '3',
        no_lowercase("38400"@),
        all_printable("38400"@),
        "57600"@.len() == 5,
        "57600"@[0] == '5',
        no_lowercase("57600"@),
        all_printable("57600"@),
        "115200"@.len() == 6,
        "115200"@[0] == '1',
        no_lowercase("115200"@),
        all_printable("115200"@),
{
    reveal_strlit("300");
    reveal_strlit("1200");
    reveal_strlit("2400");
    reveal_strlit("9600");
    reveal_strlit("19200");
    reveal_strlit("38400");
    reveal_strlit("57600");
    reveal_strlit("115200");
}

/// A text of a name with its comma and a parameter, neither with a
/// lower-case letter, is its own upper-case form, begins with the name, and
/// the parameter follows.
proof fn lemma_name_and_parameter(name: Seq<char>, parameter: Seq<char>)
    requires
        no_lowercase(name),
        no_lowercase(parameter),
    ensures
        uppercase(name + parameter) == name + parameter,
        has_prefix(name + parameter, name),
        after(name + parameter, name.len()) == parameter,
        forall|i: int| 0 <= i < name.len() ==> (name + parameter)[i] == name[i],
        (name + parameter).len() == name.len() + parameter.len(),
{
    let whole = name + parameter;
    assert(no_lowercase(whole)) by {
        assert forall|i: int| 0 <= i < whole.len() implies !('a' <= #[trigger] whole[i] && whole[i]
            <= 'z') by {
            if i < name.len() {
                assert(whole[i] == name[i]);
            } else {
                assert(whole[i] == parameter[i - name.len()]);
            }
        }
    }
    lemma_uppercase_unchanged(whole);
    lemma_prefix_of_concat(name, parameter);
}

/// The text of a number holds no lower-case letter.
proof fn lemma_fixed_text_case(t: int, places: Places)
    ensures
        no_lowercase(fixed_text(t, places)),
{
    lemma_fixed_text_shape(t, places);
    let s = fixed_text(t, places);
    assert forall|i: int| 0 <= i < s.len() implies !('a' <= #[trigger] s[i] && s[i] <= 'z') by {
        assert(is_numeric(s[i]));
    }
}

proof fn lemma_round_trip_plain(command: CommandView)
    requires
        command.wire_text() == "CAL,CLEAR"@ || command.wire_text() == "CAL,?"@
            || command.wire_text() == "EXPORT"@ || command.wire_text() == "EXPORT,?"@
            || command.wire_text() == "FACTORY"@ || command.wire_text() == "F"@
            || command.wire_text() == "I"@ || command.wire_text() == "L,1"@
            || command.wire_text() == "L,0"@ || command.wire_text() == "L,?"@
            || command.wire_text() == "PLOCK,1"@ || command.wire_text() == "PLOCK,0"@
            || command.wire_text() == "PLOCK,?"@ || command.wire_text() == "R"@
            || command.wire_text() == "SLEEP"@ || command.wire_text() == "SLOPE,?"@
            || command.wire_text() == "STATUS"@ || command.wire_text() == "T,?"@,
        !(command is Baud),
        !(command is CalibrationMid),
        !(command is CalibrationLow),
        !(command is CalibrationHigh),
        !(command is Import),
        !(command is DeviceAddress),
        !(command is TemperatureCompensation),
    ensures
        command_of(command.wire_text()) == Some(command),
{
    lemma_plain_words();
    lemma_uppercase_unchanged(command.wire_text());
}

proof fn lemma_round_trip_baud(rate: BpsRate)
    ensures
        command_of(CommandView::Baud(rate).wire_text()) == Some(CommandView::Baud(rate)),
{
    let text = CommandView::Baud(rate).wire_text();
    lemma_plain_words();
    lemma_parameter_words();
    lemma_rate_words();
    lemma_name_and_parameter("BAUD,"@, rate.text());
    assert(text[0] == 'B');
    assert(plain_command_of(text) is None);
    assert(rate_of(rate.text()) == Some(rate));
}

proof fn lemma_round_trip_mid(t: Decimal)
    requires
        t.thousandths % 10 == 0,
    ensures
        command_of(CommandView::CalibrationMid(t).wire_text()) == Some(
            CommandView::CalibrationMid(t),
        ),
{
    let number = fixed_text(t.thousandths as int, Places::Two);
    let text = CommandView::CalibrationMid(t).wire_text();
    lemma_plain_words();
    lemma_parameter_words();
    lemma_fixed_text_case(t.thousandths as int, Places::Two);
    lemma_fixed_text_shape(t.thousandths as int, Places::Two);
    lemma_read_two_places(t.thousandths);
    lemma_name_and_parameter("CAL,MID,"@, number);
    assert(text[0] == 'C' && text[4] == 'M');
    assert(plain_command_of(text) is None);
    lemma_not_prefix(text, "BAUD,"@, 0);
}

proof fn lemma_round_trip_low(t: Decimal)
    requires
        t.thousandths % 10 == 0,
    ensures
        command_of(CommandView::CalibrationLow(t).wire_text()) == Some(
            CommandView::CalibrationLow(t),
        ),
{
    let number = fixed_text(t.thousandths as int, Places::Two);
    let text = CommandView::CalibrationLow(t).wire_text();
    lemma_plain_words();
    lemma_parameter_words();
    lemma_fixed_text_case(t.thousandths as int, Places::Two);
    lemma_fixed_text_shape(t.thousandths as int, Places::Two);
    lemma_read_two_places(t.thousandths);
    lemma_name_and_parameter("CAL,LOW,"@, number);
    assert(text[0] == 'C' && text[4] == 'L');
    assert(plain_command_of(text) is None);
    lemma_not_prefix(text, "BAUD,"@, 0);
    lemma_not_prefix(text, "CAL,MID,"@, 4);
}

proof fn lemma_round_trip_high(t: Decimal)
    requires
        t.thousandths % 10 == 0,
    ensures
        command_of(CommandView::CalibrationHigh(t).wire_text()) == Some(
            CommandView::CalibrationHigh(t),
        ),
{
    let number = fixed_text(t.thousandths as int, Places::Two);
    let text = CommandView::CalibrationHigh(t).wire_text();
    lemma_plain_words();
    lemma_parameter_words();
    lemma_fixed_text_case(t.thousandths as int, Places::Two);
    lemma_fixed_text_shape(t.thousandths as int, Places::Two);
    lemma_read_two_places(t.thousandths);
    lemma_name_and_parameter("CAL,HIGH,"@, number);
    assert(text[0] == 'C' && text[4] == 'H');
    assert(plain_command_of(text) is None);
    lemma_not_prefix(text, "BAUD,"@, 0);
    lemma_not_prefix(text, "CAL,MID,"@, 4);
    lemma_not_prefix(text, "CAL,LOW,"@, 4);
}

proof fn lemma_round_trip_import(line: Seq<char>)
    requires
        is_export_line(line),
        no_lowercase(line),
    ensures
        command_of(CommandView::Import(line).wire_text()) == Some(CommandView::Import(line)),
{
    let text = CommandView::Import(line).wire_text();
    lemma_plain_words();
    lemma_parameter_words();
    lemma_name_and_parameter("IMPORT,"@, line);
    assert(text[0] == 'I' && text[1] == 'M');
    assert(plain_command_of(text) is None);
    lemma_not_prefix(text, "BAUD,"@, 0);
    lemma_not_prefix(text, "CAL,MID,"@, 0);
    lemma_not_prefix(text, "CAL,LOW,"@, 0);
    lemma_not_prefix(text, "CAL,HIGH,"@, 0);
}

proof fn lemma_round_trip_address(address: u16)
    ensures
        command_of(CommandView::DeviceAddress(address).wire_text()) == Some(
            CommandView::DeviceAddress(address),
        ),
{
    let digits = numeral(address as nat);
    let text = CommandView::DeviceAddress(address).wire_text();
    lemma_plain_words();
    lemma_parameter_words();
    lemma_numeral(address as nat);
    assert(no_lowercase(digits)) by {
        assert forall|i: int| 0 <= i < digits.len() implies !('a' <= #[trigger] digits[i]
            && digits[i] <= 'z') by {
            assert(is_digit(digits[i]));
        }
    }
    lemma_name_and_parameter("I2C,"@, digits);
    assert(text[0] == 'I' && text[1] == '2');
    assert(plain_command_of(text) is None);
    lemma_not_prefix(text, "BAUD,"@, 0);
    lemma_not_prefix(text, "CAL,MID,"@, 0);
    lemma_not_prefix(text, "CAL,LOW,"@, 0);
    lemma_not_prefix(text, "CAL,HIGH,"@, 0);
    lemma_not_prefix(text, "IMPORT,"@, 1);
    assert(is_digit(digits[0]));
    assert(unsigned_of(digits, 0xffff) == Some(address as nat));
}

proof fn lemma_round_trip_temperature(t: Decimal)
    ensures
        command_of(CommandView::TemperatureCompensation(t).wire_text()) == Some(
            CommandView::TemperatureCompensation(t),
        ),
{
    let number = fixed_text(t.thousandths as int, Places::Three);
    let text = CommandView::TemperatureCompensation(t).wire_text();
    lemma_plain_words();
    lemma_parameter_words();
    lemma_fixed_text_case(t.thousandths as int, Places::Three);
    lemma_fixed_text_shape(t.thousandths as int, Places::Three);
    lemma_read_three_places(t.thousandths);
    lemma_name_and_parameter("T,"@, number);
    assert(text[0] == 'T' && text[1] == ',');
    assert(plain_command_of(text) is None);
    lemma_not_prefix(text, "BAUD,"@, 0);
    lemma_not_prefix(text, "CAL,MID,"@, 0);
    lemma_not_prefix(text, "CAL,LOW,"@, 0);
    lemma_not_prefix(text, "CAL,HIGH,"@, 0);
    lemma_not_prefix(text, "IMPORT,"@, 0);
    lemma_not_prefix(text, "I2C,"@, 0);
}

} // verus!
