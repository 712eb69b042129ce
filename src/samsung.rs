//! Samsung part numbers: series and package codes.

use crate::capacitors::Error;
use crate::parts::{EIAInchCode, SizeCode};
use std::str::FromStr;
use vstd::prelude::*;

verus! {

/// Samsung capacitor series.
#[derive(Debug, Clone, Copy, PartialEq, Eq, Structural)]
pub enum Series {
    CL,
}

/// The series that a two-character code names.
pub open spec fn series_code(code: Seq<char>) -> Option<Series> {
    if code.len() == 2 && code[0] == 'C' && code[1] == 'L' {
        Some(Series::CL)
    } else {
        None
    }
}

impl Series {
    /// The series that `code` names, if any.
    pub fn from_code(code: &str) -> (r: Option<Series>)
        ensures
            r == series_code(code@),
    {
        if code.unicode_len() != 2 {
            return None;
        }
        if code.get_char(0) == 'C' && code.get_char(1) == 'L' {
            Some(Series::CL)
        } else {
            None
        }
    }
}

impl FromStr for Series {
    type Err = Error;

    fn from_str(s: &str) -> (r: Result<Series, Error>)
        ensures
            r == (match series_code(s@) {
                Some(series) => Ok(series),
                None => Err(Error::UnknownSeries),
            }),
    {
        match Series::from_code(s) {
            Some(series) => Ok(series),
            None => Err(Error::UnknownSeries),
        }
    }
}

/// Samsung package codes.
#[derive(Debug, Clone, Copy, PartialEq, Eq, Structural)]
pub enum Dimensions {
    _02,
    _03,
    _05,
    _10,
    _21,
    _31,
    _32,
    _42,
    _43,
    _55,
}

impl SizeCode for Dimensions {
    type MFCode = Self;

    open spec fn eia_spec(code: Self) -> EIAInchCode {
        match code {
            Dimensions::_02 => EIAInchCode::_01005,
            Dimensions::_03 => EIAInchCode::_0201,
            Dimensions::_05 => EIAInchCode::_0402,
            Dimensions::_10 => EIAInchCode::_0603,
            Dimensions::_21 => EIAInchCode::_0805,
            Dimensions::_31 => EIAInchCode::_1206,
            Dimensions::_32 => EIAInchCode::_1210,
            Dimensions::_42 => EIAInchCode::_1808,
            Dimensions::_43 => EIAInchCode::_1812,
            Dimensions::_55 => EIAInchCode::_2220,
        }
    }

    open spec fn mfcode_spec(size: EIAInchCode) -> Option<Self> {
        match size {
            EIAInchCode::_01005 => Some(Dimensions::_02),
            EIAInchCode::_0201 => Some(Dimensions::_03),
            EIAInchCode::_0402 => Some(Dimensions::_05),
            EIAInchCode::_0603 => Some(Dimensions::_10),
            EIAInchCode::_0805 => Some(Dimensions::_21),
            EIAInchCode::_1206 => Some(Dimensions::_31),
            EIAInchCode::_1210 => Some(Dimensions::_32),
            EIAInchCode::_1808 => Some(Dimensions::_42),
            EIAInchCode::_1812 => Some(Dimensions::_43),
            EIAInchCode::_2220 => Some(Dimensions::_55),
            _ => None,
        }
    }

    fn to_eia(code: Self) -> (r: EIAInchCode) {
        match code {
            Dimensions::_02 => EIAInchCode::_01005,
            Dimensions::_03 => EIAInchCode::_0201,
            Dimensions::_05 => EIAInchCode::_0402,
            Dimensions::_10 => EIAInchCode::_0603,
            Dimensions::_21 => EIAInchCode::_0805,
            Dimensions::_31 => EIAInchCode::_1206,
            Dimensions::_32 => EIAInchCode::_1210,
            Dimensions::_42 => EIAInchCode::_1808,
            Dimensions::_43 => EIAInchCode::_1812,
            Dimensions::_55 => EIAInchCode::_2220,
        }
    }

    fn to_mfcode(size: EIAInchCode) -> (r: Option<Self>) {
        match size {
            EIAInchCode::_01005 => Some(Dimensions::_02),
            EIAInchCode::_0201 => Some(Dimensions::_03),
            EIAInchCode::_0402 => Some(Dimensions::_05),
            EIAInchCode::_0603 => Some(Dimensions::_10),
            EIAInchCode::_0805 => Some(Dimensions::_21),
            EIAInchCode::_1206 => Some(Dimensions::_31),
            EIAInchCode::_1210 => Some(Dimensions::_32),
            EIAInchCode::_1808 => Some(Dimensions::_42),
            EIAInchCode::_1812 => Some(Dimensions::_43),
            EIAInchCode::_2220 => Some(Dimensions::_55),
            _ => None,
        }
    }
}

/// Every Samsung package code comes back from its EIA size.
pub proof fn lemma_size_round_trip(code: Dimensions)
    ensures
        Dimensions::mfcode_spec(Dimensions::eia_spec(code)) == Some(code),
{
}

} // verus!
