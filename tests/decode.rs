use capcodes::capacitors::{Capacitance, Capacitor, Error, Series};
use capcodes::murata;
use capcodes::parts::{Dielectric, EIAInchCode, Height, RatedVoltage, Tolerance};
use std::str::FromStr;

#[test]
fn decodes_full_part_number() {
    let c = Capacitor::decode("GRM033R61A224ME90#").unwrap();
    assert_eq!(c.series, Series::Murata(murata::Series::GRM));
    assert_eq!(c.dimensions, EIAInchCode::_0201);
    assert_eq!(c.max_height, Height::new(0, 3));
    assert_eq!(c.dielectric, Dielectric::X5R);
    assert_eq!(c.voltage, RatedVoltage::DC_10V);
    assert_eq!(c.capacitance, Capacitance::PicoFarads(220000));
    assert_eq!(c.tolerance, Tolerance::PM20);
    assert_eq!(c.other, "E90#");
    assert_eq!(c.render(false), "CAP 220nF±20% 10V X5R 0201(0603 Metric) Height=0.3mm");
    assert_eq!(c.render(true), "C0201_220NC10VX5R");
}

#[test]
fn from_str_matches_decode() {
    let c = Capacitor::from_str("GRM188R71C104KA01D").unwrap();
    assert_eq!(c.dimensions, EIAInchCode::_0603);
    assert_eq!(c.max_height, Height::new(0, 8));
    assert_eq!(c.dielectric, Dielectric::X7R);
    assert_eq!(c.voltage, RatedVoltage::DC_16V);
    assert_eq!(c.capacitance, Capacitance::PicoFarads(100000));
    assert_eq!(c.tolerance, Tolerance::PM10);
    assert_eq!(c.other, "A01D");
}

#[test]
fn exact_length_leaves_nothing_over() {
    let c = Capacitor::decode("GRM033R61A224M").unwrap();
    assert_eq!(c.other, "");
}

#[test]
fn small_capacitance_with_d_tolerance() {
    let c = Capacitor::decode("GRM0335C1H3R3DA01").unwrap();
    assert_eq!(c.dielectric, Dielectric::C0G);
    assert_eq!(c.voltage, RatedVoltage::DC_50V);
    assert_eq!(c.capacitance, Capacitance::AttoFarads(33));
    assert_eq!(c.tolerance, Tolerance::AttoFarads(500, 500));
}

#[test]
fn unknown_series() {
    assert_eq!(Capacitor::decode("XYZ033R61A224ME90#").unwrap_err(), Error::UnknownSeries);
    assert_eq!(Capacitor::decode("GR").unwrap_err(), Error::UnknownSeries);
    assert_eq!(Capacitor::decode("").unwrap_err(), Error::UnknownSeries);
    assert_eq!(Capacitor::decode(" GRM033R61A224ME90#").unwrap_err(), Error::UnknownSeries);
}

#[test]
fn short_part_number_is_insufficient_data() {
    assert_eq!(Capacitor::decode("GRM033R61A224").unwrap_err(), Error::InsufficientData);
    assert_eq!(Capacitor::decode("GRM").unwrap_err(), Error::InsufficientData);
    assert_eq!(murata::parse("KRM").unwrap_err(), Error::InsufficientData);
}

#[test]
fn each_field_error() {
    assert_eq!(Capacitor::decode("GRM993R61A224M").unwrap_err(), Error::WrongDimensionCode);
    assert_eq!(Capacitor::decode("GRM03ZR61A224M").unwrap_err(), Error::WrongHeightCode);
    assert_eq!(Capacitor::decode("GRM033ZZ1A224M").unwrap_err(), Error::WrongDielectricCode);
    assert_eq!(Capacitor::decode("GRM033R6ZZ224M").unwrap_err(), Error::WrongVoltageCode);
    assert_eq!(Capacitor::decode("GRM033R61A22RM").unwrap_err(), Error::WrongCapacitanceCode);
    assert_eq!(Capacitor::decode("GRM033R61A224Z").unwrap_err(), Error::WrongToleranceCode);
}

#[test]
fn first_failing_field_decides() {
    assert_eq!(Capacitor::decode("GRM99ZZZZZZZZZ").unwrap_err(), Error::WrongDimensionCode);
}

#[test]
fn capacitance_digit_form() {
    assert_eq!(murata::parse_capacitance("224"), Ok(Capacitance::PicoFarads(220000)));
    assert_eq!(murata::parse_capacitance("100"), Ok(Capacitance::PicoFarads(10)));
    assert_eq!(murata::parse_capacitance("109"), Ok(Capacitance::PicoFarads(10_000_000_000)));
}

#[test]
fn capacitance_r_forms() {
    assert_eq!(murata::parse_capacitance("3R3"), Ok(Capacitance::AttoFarads(33)));
    assert_eq!(murata::parse_capacitance("R33"), Ok(Capacitance::AttoFarads(330)));
}

#[test]
fn capacitance_trailing_r_fails() {
    assert_eq!(murata::parse_capacitance("33R"), Err(Error::WrongCapacitanceCode));
    assert_eq!(murata::parse_capacitance("3RR"), Err(Error::WrongCapacitanceCode));
}

#[test]
fn capacitance_malformed_codes_fail() {
    assert_eq!(murata::parse_capacitance("A24"), Err(Error::WrongCapacitanceCode));
    assert_eq!(murata::parse_capacitance("2R"), Err(Error::WrongCapacitanceCode));
    assert_eq!(murata::parse_capacitance("2244"), Err(Error::WrongCapacitanceCode));
    assert_eq!(murata::parse_capacitance("#24"), Err(Error::WrongCapacitanceCode));
}

#[test]
fn tolerance_d_depends_on_capacitance() {
    let d = 'D';
    assert_eq!(murata::parse_tolerance(&Capacitance::PicoFarads(10), d), Ok(Tolerance::PM05));
    assert_eq!(murata::parse_tolerance(&Capacitance::PicoFarads(220000), d), Ok(Tolerance::PM05));
    assert_eq!(murata::parse_tolerance(&Capacitance::PicoFarads(9), d), Ok(Tolerance::AttoFarads(500, 500)));
    assert_eq!(murata::parse_tolerance(&Capacitance::AttoFarads(33), d), Ok(Tolerance::AttoFarads(500, 500)));
    assert_eq!(murata::parse_tolerance(&Capacitance::NonStandard, d), Err(Error::WrongToleranceCode));
}

#[test]
fn tolerance_fixed_codes() {
    let c = Capacitance::PicoFarads(1000);
    assert_eq!(murata::parse_tolerance(&c, 'B'), Ok(Tolerance::AttoFarads(100, 100)));
    assert_eq!(murata::parse_tolerance(&c, 'C'), Ok(Tolerance::AttoFarads(250, 250)));
    assert_eq!(murata::parse_tolerance(&c, 'F'), Ok(Tolerance::PM1));
    assert_eq!(murata::parse_tolerance(&c, 'G'), Ok(Tolerance::PM2));
    assert_eq!(murata::parse_tolerance(&c, 'J'), Ok(Tolerance::PM5));
    assert_eq!(murata::parse_tolerance(&c, 'K'), Ok(Tolerance::PM10));
    assert_eq!(murata::parse_tolerance(&c, 'M'), Ok(Tolerance::PM20));
    assert_eq!(murata::parse_tolerance(&c, 'W'), Ok(Tolerance::AttoFarads(50, 50)));
    assert_eq!(murata::parse_tolerance(&c, 'X'), Err(Error::WrongToleranceCode));
}

#[test]
fn voltage_codes() {
    assert_eq!(murata::parse_voltage("1A"), Ok(RatedVoltage::DC_10V));
    assert_eq!(murata::parse_voltage("0J"), Ok(RatedVoltage::DC_6V3));
    assert_eq!(murata::parse_voltage("3F"), Ok(RatedVoltage::CustomDC(3150)));
    assert_eq!(murata::parse_voltage("GB"), Ok(RatedVoltage::AC_250V));
    assert_eq!(murata::parse_voltage("YA"), Ok(RatedVoltage::DC_35V));
    assert_eq!(murata::parse_voltage("1"), Err(Error::WrongVoltageCode));
    assert_eq!(murata::parse_voltage("ZZ"), Err(Error::WrongVoltageCode));
}

#[test]
fn dielectric_codes() {
    assert_eq!(murata::parse_dielectric("R6"), Ok(Dielectric::X5R));
    assert_eq!(murata::parse_dielectric("5C"), Ok(Dielectric::C0G));
    assert_eq!(murata::parse_dielectric("B1"), Ok(Dielectric::B));
    assert_eq!(murata::parse_dielectric("B3"), Ok(Dielectric::B));
    assert_eq!(murata::parse_dielectric("R6 "), Err(Error::WrongDielectricCode));
    assert_eq!(murata::parse_dielectric("X7"), Err(Error::WrongDielectricCode));
}

#[test]
fn height_codes() {
    assert_eq!(murata::parse_height_code('1'), Ok(Height::new(0, 125)));
    assert_eq!(murata::parse_height_code('9'), Ok(Height::new(0, 85)));
    assert_eq!(murata::parse_height_code('A'), Ok(Height::new(1, 0)));
    assert_eq!(murata::parse_height_code('Z'), Err(Error::WrongHeightCode));
}

#[test]
fn series_and_dimension_codes() {
    assert_eq!(murata::Series::from_code("GRM"), Some(murata::Series::GRM));
    assert_eq!(murata::Series::from_code("LLR"), Some(murata::Series::LLR));
    assert_eq!(murata::Series::from_code("GRMX"), None);
    assert_eq!(murata::Series::from_str("KR3").unwrap(), murata::Series::KR3);
    assert!(murata::Series::from_str("ABC").is_err());
    assert_eq!(murata::Dimensions::from_str("1U").unwrap(), murata::Dimensions::_1U);
    assert_eq!(murata::Dimensions::parse_code("99"), Err(Error::WrongDimensionCode));
}

#[test]
fn non_ascii_tail_is_kept() {
    let c = Capacitor::decode("GRM033R61A224Mé").unwrap();
    assert_eq!(c.other, "é");
}

#[test]
fn from_str_surfaces_field_errors() {
    assert_eq!(Capacitor::from_str("GRM033R61A224").unwrap_err(), Error::InsufficientData);
    assert_eq!(Capacitor::from_str("CL10A105KB8NNNC").unwrap_err(), Error::UnknownSeries);
    assert_eq!(Capacitor::from_str("GRM033R61A22RM").unwrap_err(), Error::WrongCapacitanceCode);
}

#[test]
fn dimension_codes_from_str() {
    let table = [
        ("01", murata::Dimensions::_01),
        ("02", murata::Dimensions::_02),
        ("0D", murata::Dimensions::_0D),
        ("03", murata::Dimensions::_03),
        ("05", murata::Dimensions::_05),
        ("08", murata::Dimensions::_08),
        ("1U", murata::Dimensions::_1U),
        ("15", murata::Dimensions::_15),
        ("18", murata::Dimensions::_18),
        ("21", murata::Dimensions::_21),
        ("22", murata::Dimensions::_22),
        ("31", murata::Dimensions::_31),
        ("32", murata::Dimensions::_32),
        ("42", murata::Dimensions::_42),
        ("43", murata::Dimensions::_43),
        ("52", murata::Dimensions::_52),
        ("55", murata::Dimensions::_55),
    ];
    for (code, d) in table {
        assert_eq!(murata::Dimensions::from_str(code), Ok(d));
    }
    assert_eq!(murata::Dimensions::from_str("0d"), Err(Error::WrongDimensionCode));
    assert_eq!(murata::Dimensions::from_str("031"), Err(Error::WrongDimensionCode));
    assert_eq!(murata::Series::from_str("XYZ"), Err(Error::UnknownSeries));
}
