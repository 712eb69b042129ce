//! Murata part numbers: series, package, height, dielectric, voltage,
//! capacitance and tolerance codes, and the decoder for a whole part number.

use crate::capacitors::{
    self, decoded, part_number_code, Capacitance, Capacitor, CapacitorView, Error,
};
use crate::parts::{Dielectric, EIAInchCode, Height, RatedVoltage, SizeCode, Tolerance};
use std::str::FromStr;
use vstd::prelude::*;

verus! {

/// Murata capacitor series, named by the first three characters of a part number.
#[derive(Debug, Clone, Copy, PartialEq, Eq, Structural)]
pub enum Series {
    GA2,
    GA3,
    GJM,
    GMA,
    GMD,
    GQM,
    GR3,
    GR4,
    GRJ,
    GRM,
    KR3,
    KRM,
    LLA,
    LLL,
    LLM,
    LLR,
}

/// The series named by three characters.
pub open spec fn series_of(a: char, b: char, c: char) -> Option<Series> {
    match (a, b, c) {
        ('G', 'A', '2') => Some(Series::GA2),
        ('G', 'A', '3') => Some(Series::GA3),
        ('G', 'J', 'M') => Some(Series::GJM),
        ('G', 'M', 'A') => Some(Series::GMA),
        ('G', 'M', 'D') => Some(Series::GMD),
        ('G', 'Q', 'M') => Some(Series::GQM),
        ('G', 'R', '3') => Some(Series::GR3),
        ('G', 'R', '4') => Some(Series::GR4),
        ('G', 'R', 'J') => Some(Series::GRJ),
        ('G', 'R', 'M') => Some(Series::GRM),
        ('K', 'R', '3') => Some(Series::KR3),
        ('K', 'R', 'M') => Some(Series::KRM),
        ('L', 'L', 'A') => Some(Series::LLA),
        ('L', 'L', 'L') => Some(Series::LLL),
        ('L', 'L', 'M') => Some(Series::LLM),
        ('L', 'L', 'R') => Some(Series::LLR),
        _ => None,
    }
}

/// The series that a three-character code names.
pub open spec fn series_code(code: Seq<char>) -> Option<Series> {
    if code.len() == 3 {
        series_of(code[0], code[1], code[2])
    } else {
        None
    }
}

impl Series {
    /// The series that `code` names, if any.
    pub fn from_code(code: &str) -> (r: Option<Series>)
        ensures
            r == series_code(code@),
    {
        if code.unicode_len() != 3 {
            return None;
        }
        match (code.get_char(0), code.get_char(1), code.get_char(2)) {
            ('G', 'A', '2') => Some(Series::GA2),
            ('G', 'A', '3') => Some(Series::GA3),
            ('G', 'J', 'M') => Some(Series::GJM),
            ('G', 'M', 'A') => Some(Series::GMA),
            ('G', 'M', 'D') => Some(Series::GMD),
            ('G', 'Q', 'M') => Some(Series::GQM),
            ('G', 'R', '3') => Some(Series::GR3),
            ('G', 'R', '4') => Some(Series::GR4),
            ('G', 'R', 'J') => Some(Series::GRJ),
            ('G', 'R', 'M') => Some(Series::GRM),
            ('K', 'R', '3') => Some(Series::KR3),
            ('K', 'R', 'M') => Some(Series::KRM),
            ('L', 'L', 'A') => Some(Series::LLA),
            ('L', 'L', 'L') => Some(Series::LLL),
            ('L', 'L', 'M') => Some(Series::LLM),
            ('L', 'L', 'R') => Some(Series::LLR),
            _ => None,
        }
    }
}

/// Murata package codes.
#[derive(Debug, Clone, Copy, PartialEq, Eq, Structural)]
pub enum Dimensions {
    _01,
    _02,
    _0D,
    _03,
    _05,
    _08,
    _1U,
    _15,
    _18,
    _21,
    _22,
    _31,
    _32,
    _42,
    _43,
    _52,
    _55,
}

/// The package code that two characters name.
pub open spec fn dimensions_code(code: Seq<char>) -> Result<Dimensions, Error> {
    if code.len() == 2 {
        match (code[0], code[1]) {
            ('0', '1') => Ok(Dimensions::_01),
            ('0', '2') => Ok(Dimensions::_02),
            ('0', 'D') => Ok(Dimensions::_0D),
            ('0', '3') => Ok(Dimensions::_03),
            ('0', '5') => Ok(Dimensions::_05),
            ('0', '8') => Ok(Dimensions::_08),
            ('1', 'U') => Ok(Dimensions::_1U),
            ('1', '5') => Ok(Dimensions::_15),
            ('1', '8') => Ok(Dimensions::_18),
            ('2', '1') => Ok(Dimensions::_21),
            ('2', '2') => Ok(Dimensions::_22),
            ('3', '1') => Ok(Dimensions::_31),
            ('3', '2') => Ok(Dimensions::_32),
            ('4', '2') => Ok(Dimensions::_42),
            ('4', '3') => Ok(Dimensions::_43),
            ('5', '2') => Ok(Dimensions::_52),
            ('5', '5') => Ok(Dimensions::_55),
            _ => Err(Error::WrongDimensionCode),
        }
    } else {
        Err(Error::WrongDimensionCode)
    }
}

impl Dimensions {
    /// The package code that `code` names.
    pub fn parse_code(code: &str) -> (r: Result<Dimensions, Error>)
        ensures
            r == dimensions_code(code@),
    {
        if code.unicode_len() != 2 {
            return Err(Error::WrongDimensionCode);
        }
        match (code.get_char(0), code.get_char(1)) {
            ('0', '1') => Ok(Dimensions::_01),
            ('0', '2') => Ok(Dimensions::_02),
            ('0', 'D') => Ok(Dimensions::_0D),
            ('0', '3') => Ok(Dimensions::_03),
            ('0', '5') => Ok(Dimensions::_05),
            ('0', '8') => Ok(Dimensions::_08),
            ('1', 'U') => Ok(Dimensions::_1U),
            ('1', '5') => Ok(Dimensions::_15),
            ('1', '8') => Ok(Dimensions::_18),
            ('2', '1') => Ok(Dimensions::_21),
            ('2', '2') => Ok(Dimensions::_22),
            ('3', '1') => Ok(Dimensions::_31),
            ('3', '2') => Ok(Dimensions::_32),
            ('4', '2') => Ok(Dimensions::_42),
            ('4', '3') => Ok(Dimensions::_43),
            ('5', '2') => Ok(Dimensions::_52),
            ('5', '5') => Ok(Dimensions::_55),
            _ => Err(Error::WrongDimensionCode),
        }
    }
}

impl SizeCode for Dimensions {
    type MFCode = Self;

    open spec fn eia_spec(code: Self) -> EIAInchCode {
        match code {
            Dimensions::_01 => EIAInchCode::_008004,
            Dimensions::_02 => EIAInchCode::_01005,
            Dimensions::_0D => EIAInchCode::_015015,
            Dimensions::_03 => EIAInchCode::_0201,
            Dimensions::_05 => EIAInchCode::_0202,
            Dimensions::_08 => EIAInchCode::_0303,
            Dimensions::_1U => EIAInchCode::_02404,
            Dimensions::_15 => EIAInchCode::_0402,
            Dimensions::_18 => EIAInchCode::_0603,
            Dimensions::_21 => EIAInchCode::_0805,
            Dimensions::_22 => EIAInchCode::_1111,
            Dimensions::_31 => EIAInchCode::_1206,
            Dimensions::_32 => EIAInchCode::_1210,
            Dimensions::_42 => EIAInchCode::_1808,
            Dimensions::_43 => EIAInchCode::_1812,
            Dimensions::_52 => EIAInchCode::_2211,
            Dimensions::_55 => EIAInchCode::_2220,
        }
    }

    open spec fn mfcode_spec(size: EIAInchCode) -> Option<Self> {
        match size {
            EIAInchCode::_008004 => Some(Dimensions::_01),
            EIAInchCode::_01005 => Some(Dimensions::_02),
            EIAInchCode::_015015 => Some(Dimensions::_0D),
            EIAInchCode::_0201 => Some(Dimensions::_03),
            EIAInchCode::_0202 => Some(Dimensions::_05),
            EIAInchCode::_0303 => Some(Dimensions::_08),
            EIAInchCode::_02404 => Some(Dimensions::_1U),
            EIAInchCode::_0402 => Some(Dimensions::_15),
            EIAInchCode::_0603 => Some(Dimensions::_18),
            EIAInchCode::_0805 => Some(Dimensions::_21),
            EIAInchCode::_1111 => Some(Dimensions::_22),
            EIAInchCode::_1206 => Some(Dimensions::_31),
            EIAInchCode::_1210 => Some(Dimensions::_32),
            EIAInchCode::_1808 => Some(Dimensions::_42),
            EIAInchCode::_1812 => Some(Dimensions::_43),
            EIAInchCode::_2211 => Some(Dimensions::_52),
            EIAInchCode::_2220 => Some(Dimensions::_55),
            _ => None,
        }
    }

    fn to_eia(code: Self) -> (r: EIAInchCode) {
        match code {
            Dimensions::_01 => EIAInchCode::_008004,
            Dimensions::_02 => EIAInchCode::_01005,
            Dimensions::_0D => EIAInchCode::_015015,
            Dimensions::_03 => EIAInchCode::_0201,
            Dimensions::_05 => EIAInchCode::_0202,
            Dimensions::_08 => EIAInchCode::_0303,
            Dimensions::_1U => EIAInchCode::_02404,
            Dimensions::_15 => EIAInchCode::_0402,
            Dimensions::_18 => EIAInchCode::_0603,
            Dimensions::_21 => EIAInchCode::_0805,
            Dimensions::_22 => EIAInchCode::_1111,
            Dimensions::_31 => EIAInchCode::_1206,
            Dimensions::_32 => EIAInchCode::_1210,
            Dimensions::_42 => EIAInchCode::_1808,
            Dimensions::_43 => EIAInchCode::_1812,
            Dimensions::_52 => EIAInchCode::_2211,
            Dimensions::_55 => EIAInchCode::_2220,
        }
    }

    fn to_mfcode(size: EIAInchCode) -> (r: Option<Self>) {
        match size {
            EIAInchCode::_008004 => Some(Dimensions::_01),
            EIAInchCode::_01005 => Some(Dimensions::_02),
            EIAInchCode::_015015 => Some(Dimensions::_0D),
            EIAInchCode::_0201 => Some(Dimensions::_03),
            EIAInchCode::_0202 => Some(Dimensions::_05),
            EIAInchCode::_0303 => Some(Dimensions::_08),
            EIAInchCode::_02404 => Some(Dimensions::_1U),
            EIAInchCode::_0402 => Some(Dimensions::_15),
            EIAInchCode::_0603 => Some(Dimensions::_18),
            EIAInchCode::_0805 => Some(Dimensions::_21),
            EIAInchCode::_1111 => Some(Dimensions::_22),
            EIAInchCode::_1206 => Some(Dimensions::_31),
            EIAInchCode::_1210 => Some(Dimensions::_32),
            EIAInchCode::_1808 => Some(Dimensions::_42),
            EIAInchCode::_1812 => Some(Dimensions::_43),
            EIAInchCode::_2211 => Some(Dimensions::_52),
            EIAInchCode::_2220 => Some(Dimensions::_55),
            _ => None,
        }
    }
}

/// Every Murata package code comes back from its EIA size.
pub proof fn lemma_size_round_trip(code: Dimensions)
    ensures
        Dimensions::mfcode_spec(Dimensions::eia_spec(code)) == Some(code),
{
}

/// The maximum height that a height code stands for.
pub open spec fn height_code(code: char) -> Result<Height, Error> {
    match code {
        '1' => Ok(Height { decimal: 0, fractional: 125 }),
        '2' => Ok(Height { decimal: 0, fractional: 2 }),
        '3' => Ok(Height { decimal: 0, fractional: 3 }),
        '4' => Ok(Height { decimal: 0, fractional: 4 }),
        '5' => Ok(Height { decimal: 0, fractional: 5 }),
        '6' => Ok(Height { decimal: 0, fractional: 6 }),
        '7' => Ok(Height { decimal: 0, fractional: 7 }),
        '8' => Ok(Height { decimal: 0, fractional: 8 }),
        '9' => Ok(Height { decimal: 0, fractional: 85 }),
        'A' => Ok(Height { decimal: 1, fractional: 0 }),
        'B' => Ok(Height { decimal: 1, fractional: 25 }),
        'C' => Ok(Height { decimal: 1, fractional: 6 }),
        'D' => Ok(Height { decimal: 2, fractional: 0 }),
        'E' => Ok(Height { decimal: 2, fractional: 5 }),
        'M' => Ok(Height { decimal: 1, fractional: 15 }),
        'Q' => Ok(Height { decimal: 1, fractional: 5 }),
        'X' => Ok(Height { decimal: 0, fractional: 0 }),
        _ => Err(Error::WrongHeightCode),
    }
}

/// Decodes the height code of a part number.
pub fn parse_height_code(code: char) -> (r: Result<Height, Error>)
    ensures
        r == height_code(code),
{
    match code {
        '1' => Ok(Height::new(0, 125)),
        '2' => Ok(Height::new(0, 2)),
        '3' => Ok(Height::new(0, 3)),
        '4' => Ok(Height::new(0, 4)),
        '5' => Ok(Height::new(0, 5)),
        '6' => Ok(Height::new(0, 6)),
        '7' => Ok(Height::new(0, 7)),
        '8' => Ok(Height::new(0, 8)),
        '9' => Ok(Height::new(0, 85)),
        'A' => Ok(Height::new(1, 0)),
        'B' => Ok(Height::new(1, 25)),
        'C' => Ok(Height::new(1, 6)),
        'D' => Ok(Height::new(2, 0)),
        'E' => Ok(Height::new(2, 5)),
        'M' => Ok(Height::new(1, 15)),
        'Q' => Ok(Height::new(1, 5)),
        'X' => Ok(Height::new(0, 0)),
        _ => Err(Error::WrongHeightCode),
    }
}

/// The dielectric class that a two-character code names.
pub open spec fn dielectric_code(code: Seq<char>) -> Result<Dielectric, Error> {
    if code.len() == 2 {
        match (code[0], code[1]) {
            ('5', 'C') => Ok(Dielectric::C0G),
            ('R', '7') => Ok(Dielectric::X7R),
            ('R', '6') => Ok(Dielectric::X5R),
            ('C', '8') => Ok(Dielectric::X6S),
            ('1', 'X') => Ok(Dielectric::SL),
            ('2', 'C') => Ok(Dielectric::CH),
            ('3', 'C') => Ok(Dielectric::CJ),
            ('3', 'U') => Ok(Dielectric::UJ),
            ('4', 'C') => Ok(Dielectric::CK),
            ('5', 'G') => Ok(Dielectric::X8G),
            ('7', 'U') => Ok(Dielectric::U2J),
            ('B', '1') => Ok(Dielectric::B),
            ('B', '3') => Ok(Dielectric::B),
            ('C', '7') => Ok(Dielectric::X7S),
            ('D', '7') => Ok(Dielectric::X7T),
            ('D', '8') => Ok(Dielectric::X6T),
            ('E', '7') => Ok(Dielectric::X7U),
            ('R', '1') => Ok(Dielectric::R),
            _ => Err(Error::WrongDielectricCode),
        }
    } else {
        Err(Error::WrongDielectricCode)
    }
}

/// Decodes the two-character dielectric code of a part number.
pub fn parse_dielectric(code: &str) -> (r: Result<Dielectric, Error>)
    ensures
        r == dielectric_code(code@),
{
    if code.unicode_len() != 2 {
        return Err(Error::WrongDielectricCode);
    }
    match (code.get_char(0), code.get_char(1)) {
        ('5', 'C') => Ok(Dielectric::C0G),
        ('R', '7') => Ok(Dielectric::X7R),
        ('R', '6') => Ok(Dielectric::X5R),
        ('C', '8') => Ok(Dielectric::X6S),
        ('1', 'X') => Ok(Dielectric::SL),
        ('2', 'C') => Ok(Dielectric::CH),
        ('3', 'C') => Ok(Dielectric::CJ),
        ('3', 'U') => Ok(Dielectric::UJ),
        ('4', 'C') => Ok(Dielectric::CK),
        ('5', 'G') => Ok(Dielectric::X8G),
        ('7', 'U') => Ok(Dielectric::U2J),
        ('B', '1') => Ok(Dielectric::B),
        ('B', '3') => Ok(Dielectric::B),
        ('C', '7') => Ok(Dielectric::X7S),
        ('D', '7') => Ok(Dielectric::X7T),
        ('D', '8') => Ok(Dielectric::X6T),
        ('E', '7') => Ok(Dielectric::X7U),
        ('R', '1') => Ok(Dielectric::R),
        _ => Err(Error::WrongDielectricCode),
    }
}

/// The rated voltage that a two-character code names.
pub open spec fn voltage_code(code: Seq<char>) -> Result<RatedVoltage, Error> {
    if code.len() == 2 {
        match (code[0], code[1]) {
            ('0', 'E') => Ok(RatedVoltage::DC_2V5),
            ('0', 'G') => Ok(RatedVoltage::DC_4V),
            ('0', 'J') => Ok(RatedVoltage::DC_6V3),
            ('1', 'A') => Ok(RatedVoltage::DC_10V),
            ('1', 'C') => Ok(RatedVoltage::DC_16V),
            ('1', 'E') => Ok(RatedVoltage::DC_25V),
            ('1', 'H') => Ok(RatedVoltage::DC_50V),
            ('1', 'J') => Ok(RatedVoltage::DC_63V),
            ('2', 'A') => Ok(RatedVoltage::DC_100V),
            ('2', 'D') => Ok(RatedVoltage::DC_200V),
            ('2', 'E') => Ok(RatedVoltage::DC_250V),
            ('2', 'W') => Ok(RatedVoltage::DC_450V),
            ('2', 'H') => Ok(RatedVoltage::DC_500V),
            ('2', 'J') => Ok(RatedVoltage::DC_630V),
            ('3', 'A') => Ok(RatedVoltage::DC_1kV),
            ('3', 'D') => Ok(RatedVoltage::DC_2kV),
            ('3', 'F') => Ok(RatedVoltage::CustomDC(3150)),
            ('E', '2') => Ok(RatedVoltage::AC_250V),
            ('G', 'B') => Ok(RatedVoltage::AC_250V),
            ('G', 'D') => Ok(RatedVoltage::AC_250V),
            ('G', 'F') => Ok(RatedVoltage::AC_250V),
            ('Y', 'A') => Ok(RatedVoltage::DC_35V),
            _ => Err(Error::WrongVoltageCode),
        }
    } else {
        Err(Error::WrongVoltageCode)
    }
}

/// Decodes the two-character rated-voltage code of a part number.
pub fn parse_voltage(code: &str) -> (r: Result<RatedVoltage, Error>)
    ensures
        r == voltage_code(code@),
{
    if code.unicode_len() != 2 {
        return Err(Error::WrongVoltageCode);
    }
    match (code.get_char(0), code.get_char(1)) {
        ('0', 'E') => Ok(RatedVoltage::DC_2V5),
        ('0', 'G') => Ok(RatedVoltage::DC_4V),
        ('0', 'J') => Ok(RatedVoltage::DC_6V3),
        ('1', 'A') => Ok(RatedVoltage::DC_10V),
        ('1', 'C') => Ok(RatedVoltage::DC_16V),
        ('1', 'E') => Ok(RatedVoltage::DC_25V),
        ('1', 'H') => Ok(RatedVoltage::DC_50V),
        ('1', 'J') => Ok(RatedVoltage::DC_63V),
        ('2', 'A') => Ok(RatedVoltage::DC_100V),
        ('2', 'D') => Ok(RatedVoltage::DC_200V),
        ('2', 'E') => Ok(RatedVoltage::DC_250V),
        ('2', 'W') => Ok(RatedVoltage::DC_450V),
        ('2', 'H') => Ok(RatedVoltage::DC_500V),
        ('2', 'J') => Ok(RatedVoltage::DC_630V),
        ('3', 'A') => Ok(RatedVoltage::DC_1kV),
        ('3', 'D') => Ok(RatedVoltage::DC_2kV),
        ('3', 'F') => Ok(RatedVoltage::CustomDC(3150)),
        ('E', '2') => Ok(RatedVoltage::AC_250V),
        ('G', 'B') => Ok(RatedVoltage::AC_250V),
        ('G', 'D') => Ok(RatedVoltage::AC_250V),
        ('G', 'F') => Ok(RatedVoltage::AC_250V),
        ('Y', 'A') => Ok(RatedVoltage::DC_35V),
        _ => Err(Error::WrongVoltageCode),
    }
}
/// Whether `c` is an ASCII decimal digit.
pub open spec fn is_digit(c: char) -> bool {
    '0' <= c && c <= '9'
}

/// The value of a decimal digit.
pub open spec fn digit_value(c: char) -> nat {
    (c as nat - '0' as nat) as nat
}

/// Ten to the power `e`.
pub open spec fn pow10(e: nat) -> nat
    decreases e,
{
    if e == 0 {
        1
    } else {
        10 * pow10((e - 1) as nat)
    }
}

/// The capacitance that a three-character code names. `R` marks the decimal
/// point: leading, it gives tenths and hundredths of a picofarad (`R33`);
/// in the middle, a digit on each side (`3R3`); trailing, it is no code.
/// Three digits give two significant digits and a power of ten, in
/// picofarads (`224` is 220000pF).
pub open spec fn capacitance_code(code: Seq<char>) -> Result<Capacitance, Error> {
    if code.len() != 3 {
        Err(Error::WrongCapacitanceCode)
    } else if code[0] == 'R' {
        if is_digit(code[1]) && is_digit(code[2]) {
            Ok(Capacitance::AttoFarads(((10 * digit_value(code[1]) + digit_value(code[2])) * 10) as u16))
        } else {
            Err(Error::WrongCapacitanceCode)
        }
    } else if code[1] == 'R' {
        if is_digit(code[0]) && is_digit(code[2]) {
            Ok(Capacitance::AttoFarads((10 * digit_value(code[0]) + digit_value(code[2])) as u16))
        } else {
            Err(Error::WrongCapacitanceCode)
        }
    } else if is_digit(code[0]) && is_digit(code[1]) && is_digit(code[2]) {
        Ok(Capacitance::PicoFarads(
            ((10 * digit_value(code[0]) + digit_value(code[1])) * pow10(digit_value(code[2]))) as u64))
    } else {
        Err(Error::WrongCapacitanceCode)
    }
}

fn digit(c: char) -> (r: Option<u64>)
    ensures
        r matches Some(d) ==> is_digit(c) && d as nat == digit_value(c) && d < 10,
        r is None ==> !is_digit(c),
{
    if '0' <= c && c <= '9' {
        Some((c as u32 - '0' as u32) as u64)
    } else {
        None
    }
}

fn ten_pow(e: u64) -> (r: u64)
    requires
        e < 10,
    ensures
        r as nat == pow10(e as nat),
        r <= 1_000_000_000,
{
    proof {
        reveal_with_fuel(pow10, 10);
    }
    if e == 0 {
        1
    } else if e == 1 {
        10
    } else if e == 2 {
        100
    } else if e == 3 {
        1_000
    } else if e == 4 {
        10_000
    } else if e == 5 {
        100_000
    } else if e == 6 {
        1_000_000
    } else if e == 7 {
        10_000_000
    } else if e == 8 {
        100_000_000
    } else {
        1_000_000_000
    }
}

/// Decodes the three-character capacitance code of a part number.
pub fn parse_capacitance(code: &str) -> (r: Result<Capacitance, Error>)
    ensures
        r == capacitance_code(code@),
{
    if code.unicode_len() != 3 {
        return Err(Error::WrongCapacitanceCode);
    }
    let c0 = code.get_char(0);
    let c1 = code.get_char(1);
    let c2 = code.get_char(2);
    if c0 == 'R' {
        match (digit(c1), digit(c2)) {
            (Some(d1), Some(d2)) => Ok(Capacitance::AttoFarads(((d1 * 10 + d2) * 10) as u16)),
            _ => Err(Error::WrongCapacitanceCode),
        }
    } else if c1 == 'R' {
        match (digit(c0), digit(c2)) {
            (Some(d0), Some(d2)) => Ok(Capacitance::AttoFarads((d0 * 10 + d2) as u16)),
            _ => Err(Error::WrongCapacitanceCode),
        }
    } else {
        match (digit(c0), digit(c1), digit(c2)) {
            (Some(d0), Some(d1), Some(d2)) => {
                let z = ten_pow(d2);
                let m = d0 * 10 + d1;
                assert(m * z <= 99 * 1_000_000_000) by (nonlinear_arith)
                    requires
                        m <= 99,
                        z <= 1_000_000_000,
                ;
                Ok(Capacitance::PicoFarads(m * z))
            },
            _ => Err(Error::WrongCapacitanceCode),
        }
    }
}

/// The tolerance that a code names, given the capacitance already decoded.
/// `D` is ±0.5pF below ten picofarads and ±0.5% from ten picofarads up.
pub open spec fn tolerance_code(capacitance: Capacitance, code: char) -> Result<Tolerance, Error> {
    match code {
        'B' => Ok(Tolerance::AttoFarads(100, 100)),
        'C' => Ok(Tolerance::AttoFarads(250, 250)),
        'D' => match capacitance {
            Capacitance::AttoFarads(_) => Ok(Tolerance::AttoFarads(500, 500)),
            Capacitance::PicoFarads(p) => if p < 10 {
                Ok(Tolerance::AttoFarads(500, 500))
            } else {
                Ok(Tolerance::PM05)
            },
            Capacitance::NonStandard => Err(Error::WrongToleranceCode),
        },
        'F' => Ok(Tolerance::PM1),
        'G' => Ok(Tolerance::PM2),
        'J' => Ok(Tolerance::PM5),
        'K' => Ok(Tolerance::PM10),
        'M' => Ok(Tolerance::PM20),
        'W' => Ok(Tolerance::AttoFarads(50, 50)),
        _ => Err(Error::WrongToleranceCode),
    }
}

/// Decodes the tolerance code of a part number, which may depend on the
/// capacitance decoded before it.
pub fn parse_tolerance(capacitance: &Capacitance, code: char) -> (r: Result<Tolerance, Error>)
    ensures
        r == tolerance_code(*capacitance, code),
{
    match code {
        'B' => Ok(Tolerance::AttoFarads(100, 100)),
        'C' => Ok(Tolerance::AttoFarads(250, 250)),
        'D' => match capacitance {
            Capacitance::AttoFarads(_) => Ok(Tolerance::AttoFarads(500, 500)),
            Capacitance::PicoFarads(p) => {
                if *p < 10 {
                    Ok(Tolerance::AttoFarads(500, 500))
                } else {
                    Ok(Tolerance::PM05)
                }
            },
            Capacitance::NonStandard => Err(Error::WrongToleranceCode),
        },
        'F' => Ok(Tolerance::PM1),
        'G' => Ok(Tolerance::PM2),
        'J' => Ok(Tolerance::PM5),
        'K' => Ok(Tolerance::PM10),
        'M' => Ok(Tolerance::PM20),
        'W' => Ok(Tolerance::AttoFarads(50, 50)),
        _ => Err(Error::WrongToleranceCode),
    }
}

/// Length of the fixed fields of a Murata part number; what follows is kept
/// as it stands.
pub const FIELDS_LEN: usize = 14;

/// The record that a Murata part number decodes to: series (characters 0..3),
/// then, once at least fourteen characters are there, package (3..5), height
/// (5), dielectric (6..8), voltage (8..10), capacitance (10..13), tolerance
/// (13), and the rest kept verbatim. The first field that fails gives the error.
pub open spec fn part_code(s: Seq<char>) -> Result<CapacitorView, Error> {
    if s.len() < 3 {
        Err(Error::UnknownSeries)
    } else {
        match series_code(s.subrange(0, 3)) {
            None => Err(Error::UnknownSeries),
            Some(series) => if s.len() < FIELDS_LEN {
                Err(Error::InsufficientData)
            } else {
                match dimensions_code(s.subrange(3, 5)) {
                    Err(e) => Err(e),
                    Ok(dimensions) => match height_code(s[5]) {
                        Err(e) => Err(e),
                        Ok(max_height) => match dielectric_code(s.subrange(6, 8)) {
                            Err(e) => Err(e),
                            Ok(dielectric) => match voltage_code(s.subrange(8, 10)) {
                                Err(e) => Err(e),
                                Ok(voltage) => match capacitance_code(s.subrange(10, 13)) {
                                    Err(e) => Err(e),
                                    Ok(capacitance) => match tolerance_code(capacitance, s[13]) {
                                        Err(e) => Err(e),
                                        Ok(tolerance) => Ok(
                                            CapacitorView {
                                                series: capacitors::Series::Murata(series),
                                                dimensions: Dimensions::eia_spec(dimensions),
                                                max_height,
                                                dielectric,
                                                voltage,
                                                capacitance,
                                                tolerance,
                                                other: s.subrange(FIELDS_LEN as int, s.len() as int),
                                            },
                                        ),
                                    },
                                },
                            },
                        },
                    },
                }
            },
        }
    }
}

/// Decodes a Murata part number.
pub fn parse(part_number: &str) -> (r: Result<Capacitor, Error>)
    ensures
        decoded(r) == part_code(part_number@),
{
    let len = part_number.unicode_len();
    if len < 3 {
        return Err(Error::UnknownSeries);
    }
    let series = match Series::from_code(part_number.substring_char(0, 3)) {
        Some(s) => capacitors::Series::Murata(s),
        None => {
            return Err(Error::UnknownSeries);
        },
    };
    if len < FIELDS_LEN {
        return Err(Error::InsufficientData);
    }
    let dimensions = Dimensions::parse_code(part_number.substring_char(3, 5))?;
    let max_height = parse_height_code(part_number.get_char(5))?;
    let dielectric = parse_dielectric(part_number.substring_char(6, 8))?;
    let voltage = parse_voltage(part_number.substring_char(8, 10))?;
    let capacitance = parse_capacitance(part_number.substring_char(10, 13))?;
    let tolerance = parse_tolerance(&capacitance, part_number.get_char(13))?;
    let other = part_number.substring_char(FIELDS_LEN, len);
    Ok(
        Capacitor {
            series,
            dimensions: Dimensions::to_eia(dimensions),
            max_height,
            dielectric,
            voltage,
            capacitance,
            tolerance,
            other: other.to_owned(),
        },
    )
}

impl FromStr for Series {
    type Err = Error;

    fn from_str(s: &str) -> (r: Result<Series, Error>)
        ensures
            r == (match series_code(s@) {
                Some(series) => Ok(series),
                None => Err(Error::UnknownSeries),
            }),
    {
        match Series::from_code(s) {
            Some(series) => Ok(series),
            None => Err(Error::UnknownSeries),
        }
    }
}

impl FromStr for Dimensions {
    type Err = Error;

    fn from_str(s: &str) -> (r: Result<Dimensions, Error>)
        ensures
            r == dimensions_code(s@),
    {
        Dimensions::parse_code(s)
    }
}

/// The three forms of a capacitance code, for any digits `a`, `b`, `c`:
/// `abc` is `ab` times ten to the `c` picofarads, `aRb` reads the digits as
/// they stand, and `Rab` scales them by ten.
pub proof fn lemma_capacitance_code_forms(a: char, b: char, c: char)
    requires
        is_digit(a),
        is_digit(b),
        is_digit(c),
    ensures
        capacitance_code(seq![a, b, c]) == Ok::<Capacitance, Error>(
            Capacitance::PicoFarads(((10 * digit_value(a) + digit_value(b)) * pow10(digit_value(c))) as u64),
        ),
        capacitance_code(seq![a, 'R', b]) == Ok::<Capacitance, Error>(
            Capacitance::AttoFarads((10 * digit_value(a) + digit_value(b)) as u16),
        ),
        capacitance_code(seq!['R', a, b]) == Ok::<Capacitance, Error>(
            Capacitance::AttoFarads(((10 * digit_value(a) + digit_value(b)) * 10) as u16),
        ),
{
}

/// A capacitance code whose last character is `R` is never decoded.
pub proof fn lemma_trailing_r_rejected(code: Seq<char>)
    requires
        code.len() == 3,
        code[2] == 'R',
    ensures
        capacitance_code(code) == Err::<Capacitance, Error>(Error::WrongCapacitanceCode),
{
}

/// The tolerance code `D` is ±0.5% for a capacitance of ten picofarads or
/// more, and the ±0.5pF band for any smaller capacitance.
pub proof fn lemma_tolerance_d(capacitance: Capacitance)
    ensures
        capacitance matches Capacitance::PicoFarads(p) && p >= 10 ==> tolerance_code(capacitance, 'D')
            == Ok::<Tolerance, Error>(Tolerance::PM05),
        capacitance is AttoFarads || (capacitance matches Capacitance::PicoFarads(p) && p < 10)
            ==> tolerance_code(capacitance, 'D') == Ok::<Tolerance, Error>(
            Tolerance::AttoFarads(500, 500),
        ),
{
}

/// A part number with a known Murata series but fewer characters than the
/// fixed fields take is rejected as insufficient data.
pub proof fn lemma_short_part_number(s: Seq<char>)
    requires
        3 <= s.len() < FIELDS_LEN,
        series_code(s.subrange(0, 3)) is Some,
    ensures
        part_number_code(s) == Err::<CapacitorView, Error>(Error::InsufficientData),
{
}

} // verus!
