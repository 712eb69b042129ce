//! Package size codes (EIA inch and IEC metric), the mapping between the two
//! systems, and the value types shared by all manufacturers.

use crate::text::{decimal, push_decimal};
use vstd::prelude::*;

verus! {

/// Package size code of the IEC metric system, in tenths of a millimetre.
#[allow(non_camel_case_types)]
#[derive(Debug, Clone, Copy, PartialEq, Eq, Structural)]
pub enum IECMetricCode {
    _0201,
    _03015,
    _0402,
    _0404,
    _0505,
    _0603,
    _0610,
    _0805,
    _0808,
    _1005,
    _1310,
    _1608,
    _2012,
    _2520,
    _2828,
    _3216,
    _3225,
    _3625,
    _3838,
    _4516,
    _4520,
    _4532,
    _4564,
    _5025,
    _5050,
    _5664,
    _5728,
    _5750,
    _5764,
    _6332,
    _6432,
    _6450,
    _7450,
    _8484,
    _9210,
    _100100,
    _140127,
    _203153,
}

/// Package size code of the EIA inch system, in hundredths of an inch.
#[allow(non_camel_case_types)]
#[derive(Debug, Clone, Copy, PartialEq, Eq, Structural)]
pub enum EIAInchCode {
    _008004,
    _009005,
    _01005,
    _015015,
    _0201,
    _0202,
    _02404,
    _0302,
    _0303,
    _0402,
    _0504,
    _0603,
    _0805,
    _1008,
    _1111,
    _1206,
    _1210,
    _1410,
    _1515,
    _1806,
    _1808,
    _1812,
    _1825,
    _2010,
    _2020,
    _2211,
    _2220,
    _2225,
    _2512,
    _2520,
    _2920,
    _3333,
    _3640,
    _4040,
    _5550,
    _8060,
}

/// The EIA code of a metric size. Two pairs of metric codes share one EIA code.
pub open spec fn inch_of_metric(c: IECMetricCode) -> EIAInchCode {
    match c {
        IECMetricCode::_0201 => EIAInchCode::_008004,
        IECMetricCode::_03015 => EIAInchCode::_009005,
        IECMetricCode::_0402 => EIAInchCode::_01005,
        IECMetricCode::_0404 => EIAInchCode::_015015,
        IECMetricCode::_0505 => EIAInchCode::_0202,
        IECMetricCode::_0603 => EIAInchCode::_0201,
        IECMetricCode::_0610 => EIAInchCode::_02404,
        IECMetricCode::_0805 => EIAInchCode::_0302,
        IECMetricCode::_0808 => EIAInchCode::_0303,
        IECMetricCode::_1005 => EIAInchCode::_0402,
        IECMetricCode::_1310 => EIAInchCode::_0504,
        IECMetricCode::_1608 => EIAInchCode::_0603,
        IECMetricCode::_2012 => EIAInchCode::_0805,
        IECMetricCode::_2520 => EIAInchCode::_1008,
        IECMetricCode::_2828 => EIAInchCode::_1111,
        IECMetricCode::_3216 => EIAInchCode::_1206,
        IECMetricCode::_3225 => EIAInchCode::_1210,
        IECMetricCode::_3625 => EIAInchCode::_1410,
        IECMetricCode::_3838 => EIAInchCode::_1515,
        IECMetricCode::_4516 => EIAInchCode::_1806,
        IECMetricCode::_4520 => EIAInchCode::_1808,
        IECMetricCode::_4532 => EIAInchCode::_1812,
        IECMetricCode::_4564 => EIAInchCode::_1825,
        IECMetricCode::_5025 => EIAInchCode::_2010,
        IECMetricCode::_5050 => EIAInchCode::_2020,
        IECMetricCode::_5728 => EIAInchCode::_2211,
        IECMetricCode::_5750 => EIAInchCode::_2220,
        IECMetricCode::_5664 => EIAInchCode::_2225,
        IECMetricCode::_5764 => EIAInchCode::_2225,
        IECMetricCode::_6332 => EIAInchCode::_2512,
        IECMetricCode::_6432 => EIAInchCode::_2512,
        IECMetricCode::_6450 => EIAInchCode::_2520,
        IECMetricCode::_7450 => EIAInchCode::_2920,
        IECMetricCode::_8484 => EIAInchCode::_3333,
        IECMetricCode::_9210 => EIAInchCode::_3640,
        IECMetricCode::_100100 => EIAInchCode::_4040,
        IECMetricCode::_140127 => EIAInchCode::_5550,
        IECMetricCode::_203153 => EIAInchCode::_8060,
    }
}

/// The canonical IEC code of an EIA size.
pub open spec fn metric_of_inch(c: EIAInchCode) -> IECMetricCode {
    match c {
        EIAInchCode::_008004 => IECMetricCode::_0201,
        EIAInchCode::_009005 => IECMetricCode::_03015,
        EIAInchCode::_01005 => IECMetricCode::_0402,
        EIAInchCode::_015015 => IECMetricCode::_0404,
        EIAInchCode::_0201 => IECMetricCode::_0603,
        EIAInchCode::_0202 => IECMetricCode::_0505,
        EIAInchCode::_02404 => IECMetricCode::_0610,
        EIAInchCode::_0302 => IECMetricCode::_0805,
        EIAInchCode::_0303 => IECMetricCode::_0808,
        EIAInchCode::_0402 => IECMetricCode::_1005,
        EIAInchCode::_0504 => IECMetricCode::_1310,
        EIAInchCode::_0603 => IECMetricCode::_1608,
        EIAInchCode::_0805 => IECMetricCode::_2012,
        EIAInchCode::_1008 => IECMetricCode::_2520,
        EIAInchCode::_1111 => IECMetricCode::_2828,
        EIAInchCode::_1206 => IECMetricCode::_3216,
        EIAInchCode::_1210 => IECMetricCode::_3225,
        EIAInchCode::_1410 => IECMetricCode::_3625,
        EIAInchCode::_1515 => IECMetricCode::_3838,
        EIAInchCode::_1806 => IECMetricCode::_4516,
        EIAInchCode::_1808 => IECMetricCode::_4520,
        EIAInchCode::_1812 => IECMetricCode::_4532,
        EIAInchCode::_1825 => IECMetricCode::_4564,
        EIAInchCode::_2010 => IECMetricCode::_5025,
        EIAInchCode::_2020 => IECMetricCode::_5050,
        EIAInchCode::_2211 => IECMetricCode::_5728,
        EIAInchCode::_2220 => IECMetricCode::_5750,
        EIAInchCode::_2225 => IECMetricCode::_5764,
        EIAInchCode::_2512 => IECMetricCode::_6332,
        EIAInchCode::_2520 => IECMetricCode::_6450,
        EIAInchCode::_2920 => IECMetricCode::_7450,
        EIAInchCode::_3333 => IECMetricCode::_8484,
        EIAInchCode::_3640 => IECMetricCode::_9210,
        EIAInchCode::_4040 => IECMetricCode::_100100,
        EIAInchCode::_5550 => IECMetricCode::_140127,
        EIAInchCode::_8060 => IECMetricCode::_203153,
    }
}

/// The digits of a metric size code.
pub open spec fn metric_name(c: IECMetricCode) -> Seq<char> {
    match c {
        IECMetricCode::_0201 => "0201"@,
        IECMetricCode::_03015 => "03015"@,
        IECMetricCode::_0402 => "0402"@,
        IECMetricCode::_0404 => "0404"@,
        IECMetricCode::_0505 => "0505"@,
        IECMetricCode::_0603 => "0603"@,
        IECMetricCode::_0610 => "0610"@,
        IECMetricCode::_0805 => "0805"@,
        IECMetricCode::_0808 => "0808"@,
        IECMetricCode::_1005 => "1005"@,
        IECMetricCode::_1310 => "1310"@,
        IECMetricCode::_1608 => "1608"@,
        IECMetricCode::_2012 => "2012"@,
        IECMetricCode::_2520 => "2520"@,
        IECMetricCode::_2828 => "2828"@,
        IECMetricCode::_3216 => "3216"@,
        IECMetricCode::_3225 => "3225"@,
        IECMetricCode::_3625 => "3625"@,
        IECMetricCode::_3838 => "3838"@,
        IECMetricCode::_4516 => "4516"@,
        IECMetricCode::_4520 => "4520"@,
        IECMetricCode::_4532 => "4532"@,
        IECMetricCode::_4564 => "4564"@,
        IECMetricCode::_5025 => "5025"@,
        IECMetricCode::_5050 => "5050"@,
        IECMetricCode::_5664 => "5664"@,
        IECMetricCode::_5728 => "5728"@,
        IECMetricCode::_5750 => "5750"@,
        IECMetricCode::_5764 => "5764"@,
        IECMetricCode::_6332 => "6332"@,
        IECMetricCode::_6432 => "6432"@,
        IECMetricCode::_6450 => "6450"@,
        IECMetricCode::_7450 => "7450"@,
        IECMetricCode::_8484 => "8484"@,
        IECMetricCode::_9210 => "9210"@,
        IECMetricCode::_100100 => "100100"@,
        IECMetricCode::_140127 => "140127"@,
        IECMetricCode::_203153 => "203153"@,
    }
}

/// The digits of an inch size code.
pub open spec fn inch_name(c: EIAInchCode) -> Seq<char> {
    match c {
        EIAInchCode::_008004 => "008004"@,
        EIAInchCode::_009005 => "009005"@,
        EIAInchCode::_01005 => "01005"@,
        EIAInchCode::_015015 => "015015"@,
        EIAInchCode::_0201 => "0201"@,
        EIAInchCode::_0202 => "0202"@,
        EIAInchCode::_02404 => "02404"@,
        EIAInchCode::_0302 => "0302"@,
        EIAInchCode::_0303 => "0303"@,
        EIAInchCode::_0402 => "0402"@,
        EIAInchCode::_0504 => "0504"@,
        EIAInchCode::_0603 => "0603"@,
        EIAInchCode::_0805 => "0805"@,
        EIAInchCode::_1008 => "1008"@,
        EIAInchCode::_1111 => "1111"@,
        EIAInchCode::_1206 => "1206"@,
        EIAInchCode::_1210 => "1210"@,
        EIAInchCode::_1410 => "1410"@,
        EIAInchCode::_1515 => "1515"@,
        EIAInchCode::_1806 => "1806"@,
        EIAInchCode::_1808 => "1808"@,
        EIAInchCode::_1812 => "1812"@,
        EIAInchCode::_1825 => "1825"@,
        EIAInchCode::_2010 => "2010"@,
        EIAInchCode::_2020 => "2020"@,
        EIAInchCode::_2211 => "2211"@,
        EIAInchCode::_2220 => "2220"@,
        EIAInchCode::_2225 => "2225"@,
        EIAInchCode::_2512 => "2512"@,
        EIAInchCode::_2520 => "2520"@,
        EIAInchCode::_2920 => "2920"@,
        EIAInchCode::_3333 => "3333"@,
        EIAInchCode::_3640 => "3640"@,
        EIAInchCode::_4040 => "4040"@,
        EIAInchCode::_5550 => "5550"@,
        EIAInchCode::_8060 => "8060"@,
    }
}

impl From<IECMetricCode> for EIAInchCode {
    fn from(c: IECMetricCode) -> (r: EIAInchCode) {
        match c {
            IECMetricCode::_0201 => EIAInchCode::_008004,
            IECMetricCode::_03015 => EIAInchCode::_009005,
            IECMetricCode::_0402 => EIAInchCode::_01005,
            IECMetricCode::_0404 => EIAInchCode::_015015,
            IECMetricCode::_0505 => EIAInchCode::_0202,
            IECMetricCode::_0603 => EIAInchCode::_0201,
            IECMetricCode::_0610 => EIAInchCode::_02404,
            IECMetricCode::_0805 => EIAInchCode::_0302,
            IECMetricCode::_0808 => EIAInchCode::_0303,
            IECMetricCode::_1005 => EIAInchCode::_0402,
            IECMetricCode::_1310 => EIAInchCode::_0504,
            IECMetricCode::_1608 => EIAInchCode::_0603,
            IECMetricCode::_2012 => EIAInchCode::_0805,
            IECMetricCode::_2520 => EIAInchCode::_1008,
            IECMetricCode::_2828 => EIAInchCode::_1111,
            IECMetricCode::_3216 => EIAInchCode::_1206,
            IECMetricCode::_3225 => EIAInchCode::_1210,
            IECMetricCode::_3625 => EIAInchCode::_1410,
            IECMetricCode::_3838 => EIAInchCode::_1515,
            IECMetricCode::_4516 => EIAInchCode::_1806,
            IECMetricCode::_4520 => EIAInchCode::_1808,
            IECMetricCode::_4532 => EIAInchCode::_1812,
            IECMetricCode::_4564 => EIAInchCode::_1825,
            IECMetricCode::_5025 => EIAInchCode::_2010,
            IECMetricCode::_5050 => EIAInchCode::_2020,
            IECMetricCode::_5728 => EIAInchCode::_2211,
            IECMetricCode::_5750 => EIAInchCode::_2220,
            IECMetricCode::_5664 => EIAInchCode::_2225,
            IECMetricCode::_5764 => EIAInchCode::_2225,
            IECMetricCode::_6332 => EIAInchCode::_2512,
            IECMetricCode::_6432 => EIAInchCode::_2512,
            IECMetricCode::_6450 => EIAInchCode::_2520,
            IECMetricCode::_7450 => EIAInchCode::_2920,
            IECMetricCode::_8484 => EIAInchCode::_3333,
            IECMetricCode::_9210 => EIAInchCode::_3640,
            IECMetricCode::_100100 => EIAInchCode::_4040,
            IECMetricCode::_140127 => EIAInchCode::_5550,
            IECMetricCode::_203153 => EIAInchCode::_8060,
        }
    }
}

impl vstd::std_specs::convert::FromSpecImpl<IECMetricCode> for EIAInchCode {
    open spec fn obeys_from_spec() -> bool {
        true
    }

    open spec fn from_spec(c: IECMetricCode) -> EIAInchCode {
        inch_of_metric(c)
    }
}

impl From<EIAInchCode> for IECMetricCode {
    fn from(c: EIAInchCode) -> (r: IECMetricCode) {
        match c {
            EIAInchCode::_008004 => IECMetricCode::_0201,
            EIAInchCode::_009005 => IECMetricCode::_03015,
            EIAInchCode::_01005 => IECMetricCode::_0402,
            EIAInchCode::_015015 => IECMetricCode::_0404,
            EIAInchCode::_0201 => IECMetricCode::_0603,
            EIAInchCode::_0202 => IECMetricCode::_0505,
            EIAInchCode::_02404 => IECMetricCode::_0610,
            EIAInchCode::_0302 => IECMetricCode::_0805,
            EIAInchCode::_0303 => IECMetricCode::_0808,
            EIAInchCode::_0402 => IECMetricCode::_1005,
            EIAInchCode::_0504 => IECMetricCode::_1310,
            EIAInchCode::_0603 => IECMetricCode::_1608,
            EIAInchCode::_0805 => IECMetricCode::_2012,
            EIAInchCode::_1008 => IECMetricCode::_2520,
            EIAInchCode::_1111 => IECMetricCode::_2828,
            EIAInchCode::_1206 => IECMetricCode::_3216,
            EIAInchCode::_1210 => IECMetricCode::_3225,
            EIAInchCode::_1410 => IECMetricCode::_3625,
            EIAInchCode::_1515 => IECMetricCode::_3838,
            EIAInchCode::_1806 => IECMetricCode::_4516,
            EIAInchCode::_1808 => IECMetricCode::_4520,
            EIAInchCode::_1812 => IECMetricCode::_4532,
            EIAInchCode::_1825 => IECMetricCode::_4564,
            EIAInchCode::_2010 => IECMetricCode::_5025,
            EIAInchCode::_2020 => IECMetricCode::_5050,
            EIAInchCode::_2211 => IECMetricCode::_5728,
            EIAInchCode::_2220 => IECMetricCode::_5750,
            EIAInchCode::_2225 => IECMetricCode::_5764,
            EIAInchCode::_2512 => IECMetricCode::_6332,
            EIAInchCode::_2520 => IECMetricCode::_6450,
            EIAInchCode::_2920 => IECMetricCode::_7450,
            EIAInchCode::_3333 => IECMetricCode::_8484,
            EIAInchCode::_3640 => IECMetricCode::_9210,
            EIAInchCode::_4040 => IECMetricCode::_100100,
            EIAInchCode::_5550 => IECMetricCode::_140127,
            EIAInchCode::_8060 => IECMetricCode::_203153,
        }
    }
}

impl vstd::std_specs::convert::FromSpecImpl<EIAInchCode> for IECMetricCode {
    open spec fn obeys_from_spec() -> bool {
        true
    }

    open spec fn from_spec(c: EIAInchCode) -> IECMetricCode {
        metric_of_inch(c)
    }
}
/// The second IEC code of an EIA size that two metric sizes share, if it has one.
pub open spec fn metric_alternate_of(c: EIAInchCode) -> Option<IECMetricCode> {
    match c {
        EIAInchCode::_2225 => Some(IECMetricCode::_5664),
        EIAInchCode::_2512 => Some(IECMetricCode::_6432),
        _ => None,
    }
}

/// Text of a size code, with its system named in the alternate style.
pub open spec fn size_text(digits: Seq<char>, system: Seq<char>, alternate: bool) -> Seq<char> {
    if alternate {
        digits + system
    } else {
        digits
    }
}

impl EIAInchCode {
    /// The digits of this size code.
    pub fn name(&self) -> (r: &'static str)
        ensures
            r@ == inch_name(*self),
    {
        match self {
            EIAInchCode::_008004 => "008004",
            EIAInchCode::_009005 => "009005",
            EIAInchCode::_01005 => "01005",
            EIAInchCode::_015015 => "015015",
            EIAInchCode::_0201 => "0201",
            EIAInchCode::_0202 => "0202",
            EIAInchCode::_02404 => "02404",
            EIAInchCode::_0302 => "0302",
            EIAInchCode::_0303 => "0303",
            EIAInchCode::_0402 => "0402",
            EIAInchCode::_0504 => "0504",
            EIAInchCode::_0603 => "0603",
            EIAInchCode::_0805 => "0805",
            EIAInchCode::_1008 => "1008",
            EIAInchCode::_1111 => "1111",
            EIAInchCode::_1206 => "1206",
            EIAInchCode::_1210 => "1210",
            EIAInchCode::_1410 => "1410",
            EIAInchCode::_1515 => "1515",
            EIAInchCode::_1806 => "1806",
            EIAInchCode::_1808 => "1808",
            EIAInchCode::_1812 => "1812",
            EIAInchCode::_1825 => "1825",
            EIAInchCode::_2010 => "2010",
            EIAInchCode::_2020 => "2020",
            EIAInchCode::_2211 => "2211",
            EIAInchCode::_2220 => "2220",
            EIAInchCode::_2225 => "2225",
            EIAInchCode::_2512 => "2512",
            EIAInchCode::_2520 => "2520",
            EIAInchCode::_2920 => "2920",
            EIAInchCode::_3333 => "3333",
            EIAInchCode::_3640 => "3640",
            EIAInchCode::_4040 => "4040",
            EIAInchCode::_5550 => "5550",
            EIAInchCode::_8060 => "8060",
        }
    }

    /// The metric code, other than the canonical one, that also maps to this size.
    pub fn metric_alternate(&self) -> (r: Option<IECMetricCode>)
        ensures
            r == metric_alternate_of(*self),
    {
        match self {
            EIAInchCode::_2225 => Some(IECMetricCode::_5664),
            EIAInchCode::_2512 => Some(IECMetricCode::_6432),
            _ => None,
        }
    }

    /// The size code as text: `0603`, or `0603 Inch` in the alternate style.
    pub fn render(&self, alternate: bool) -> (r: String)
        ensures
            r@ == size_text(inch_name(*self), " Inch"@, alternate),
    {
        let mut s = String::new();
        s.append(self.name());
        if alternate {
            s.append(" Inch");
        }
        assert(s@ =~= size_text(inch_name(*self), " Inch"@, alternate));
        s
    }
}

impl IECMetricCode {
    /// The digits of this size code.
    pub fn name(&self) -> (r: &'static str)
        ensures
            r@ == metric_name(*self),
    {
        match self {
            IECMetricCode::_0201 => "0201",
            IECMetricCode::_03015 => "03015",
            IECMetricCode::_0402 => "0402",
            IECMetricCode::_0404 => "0404",
            IECMetricCode::_0505 => "0505",
            IECMetricCode::_0603 => "0603",
            IECMetricCode::_0610 => "0610",
            IECMetricCode::_0805 => "0805",
            IECMetricCode::_0808 => "0808",
            IECMetricCode::_1005 => "1005",
            IECMetricCode::_1310 => "1310",
            IECMetricCode::_1608 => "1608",
            IECMetricCode::_2012 => "2012",
            IECMetricCode::_2520 => "2520",
            IECMetricCode::_2828 => "2828",
            IECMetricCode::_3216 => "3216",
            IECMetricCode::_3225 => "3225",
            IECMetricCode::_3625 => "3625",
            IECMetricCode::_3838 => "3838",
            IECMetricCode::_4516 => "4516",
            IECMetricCode::_4520 => "4520",
            IECMetricCode::_4532 => "4532",
            IECMetricCode::_4564 => "4564",
            IECMetricCode::_5025 => "5025",
            IECMetricCode::_5050 => "5050",
            IECMetricCode::_5664 => "5664",
            IECMetricCode::_5728 => "5728",
            IECMetricCode::_5750 => "5750",
            IECMetricCode::_5764 => "5764",
            IECMetricCode::_6332 => "6332",
            IECMetricCode::_6432 => "6432",
            IECMetricCode::_6450 => "6450",
            IECMetricCode::_7450 => "7450",
            IECMetricCode::_8484 => "8484",
            IECMetricCode::_9210 => "9210",
            IECMetricCode::_100100 => "100100",
            IECMetricCode::_140127 => "140127",
            IECMetricCode::_203153 => "203153",
        }
    }

    /// The size code as text: `1608`, or `1608 Metric` in the alternate style.
    pub fn render(&self, alternate: bool) -> (r: String)
        ensures
            r@ == size_text(metric_name(*self), " Metric"@, alternate),
    {
        let mut s = String::new();
        s.append(self.name());
        if alternate {
            s.append(" Metric");
        }
        assert(s@ =~= size_text(metric_name(*self), " Metric"@, alternate));
        s
    }
}

/// Going from an inch code to its canonical metric code and back gives the
/// inch code again; so the metric code of that round trip is the metric code
/// one started from.
pub proof fn lemma_inch_metric_round_trip(e: EIAInchCode)
    ensures
        inch_of_metric(metric_of_inch(e)) == e,
        metric_of_inch(inch_of_metric(metric_of_inch(e))) == metric_of_inch(e),
{
}

/// The metric codes of an inch size are exactly its canonical code and, for the
/// two ambiguous sizes, its alternate: every metric code maps to some inch code
/// whose canonical or alternate metric code it is.
pub proof fn lemma_metric_codes_of_inch(m: IECMetricCode, e: EIAInchCode)
    ensures
        inch_of_metric(m) == e <==> (m == metric_of_inch(e) || metric_alternate_of(e) == Some(m)),
{
}

/// Ceramic dielectric class (temperature characteristic).
#[derive(Debug, Clone, Copy, PartialEq, Eq, Structural)]
pub enum Dielectric {
    SL,
    CH,
    CJ,
    UJ,
    CK,
    C0G,
    X8G,
    U2J,
    B,
    X5R,
    X6S,
    X6T,
    X7R,
    X7S,
    X7T,
    X7U,
    R,
    Y5V,
}

/// The name of a dielectric class.
pub open spec fn dielectric_name(d: Dielectric) -> Seq<char> {
    match d {
        Dielectric::SL => "SL"@,
        Dielectric::CH => "CH"@,
        Dielectric::CJ => "CJ"@,
        Dielectric::UJ => "UJ"@,
        Dielectric::CK => "CK"@,
        Dielectric::C0G => "C0G"@,
        Dielectric::X8G => "X8G"@,
        Dielectric::U2J => "U2J"@,
        Dielectric::B => "B"@,
        Dielectric::X5R => "X5R"@,
        Dielectric::X6S => "X6S"@,
        Dielectric::X6T => "X6T"@,
        Dielectric::X7R => "X7R"@,
        Dielectric::X7S => "X7S"@,
        Dielectric::X7T => "X7T"@,
        Dielectric::X7U => "X7U"@,
        Dielectric::R => "R"@,
        Dielectric::Y5V => "Y5V"@,
    }
}

impl Dielectric {
    /// The name of this dielectric class, such as `X7R`.
    pub fn name(&self) -> (r: &'static str)
        ensures
            r@ == dielectric_name(*self),
    {
        match self {
            Dielectric::SL => "SL",
            Dielectric::CH => "CH",
            Dielectric::CJ => "CJ",
            Dielectric::UJ => "UJ",
            Dielectric::CK => "CK",
            Dielectric::C0G => "C0G",
            Dielectric::X8G => "X8G",
            Dielectric::U2J => "U2J",
            Dielectric::B => "B",
            Dielectric::X5R => "X5R",
            Dielectric::X6S => "X6S",
            Dielectric::X6T => "X6T",
            Dielectric::X7R => "X7R",
            Dielectric::X7S => "X7S",
            Dielectric::X7T => "X7T",
            Dielectric::X7U => "X7U",
            Dielectric::R => "R",
            Dielectric::Y5V => "Y5V",
        }
    }
}
/// Maps a manufacturer's package code onto the EIA inch code, and back.
pub trait SizeCode {
    type MFCode;

    /// The EIA size of a manufacturer code.
    spec fn eia_spec(code: Self::MFCode) -> EIAInchCode;

    /// The manufacturer code of an EIA size, where the manufacturer has one.
    spec fn mfcode_spec(size: EIAInchCode) -> Option<Self::MFCode>;

    /// The EIA size of a manufacturer package code.
    fn to_eia(code: Self::MFCode) -> (r: EIAInchCode)
        ensures
            r == Self::eia_spec(code),
    ;

    /// The manufacturer package code of an EIA size, where there is one.
    fn to_mfcode(size: EIAInchCode) -> (r: Option<Self::MFCode>)
        ensures
            r == Self::mfcode_spec(size),
            r matches Some(c) ==> Self::eia_spec(c) == size,
    ;
}

/// Rated voltage: a standard rating, or a custom whole number of volts.
#[allow(non_camel_case_types)]
#[derive(Debug, Clone, Copy, PartialEq, Eq, Structural)]
pub enum RatedVoltage {
    DC_2V5,
    DC_4V,
    DC_6V3,
    DC_10V,
    DC_16V,
    DC_25V,
    DC_35V,
    DC_50V,
    DC_63V,
    DC_100V,
    DC_200V,
    DC_250V,
    DC_450V,
    DC_500V,
    DC_630V,
    DC_1kV,
    DC_2kV,
    DC_3kV,
    DC_3kV15,
    AC_250V,
    CustomDC(u32),
    CustomAC(u32),
}

/// A voltage as whole volts, tenths of a volt, and whether it is DC.
pub open spec fn voltage_parts(v: RatedVoltage) -> (nat, nat, bool) {
    match v {
        RatedVoltage::DC_2V5 => (2, 5, true),
        RatedVoltage::DC_4V => (4, 0, true),
        RatedVoltage::DC_6V3 => (6, 3, true),
        RatedVoltage::DC_10V => (10, 0, true),
        RatedVoltage::DC_16V => (16, 0, true),
        RatedVoltage::DC_25V => (25, 0, true),
        RatedVoltage::DC_35V => (35, 0, true),
        RatedVoltage::DC_50V => (50, 0, true),
        RatedVoltage::DC_63V => (63, 0, true),
        RatedVoltage::DC_100V => (100, 0, true),
        RatedVoltage::DC_200V => (200, 0, true),
        RatedVoltage::DC_250V => (250, 0, true),
        RatedVoltage::DC_450V => (450, 0, true),
        RatedVoltage::DC_500V => (500, 0, true),
        RatedVoltage::DC_630V => (630, 0, true),
        RatedVoltage::DC_1kV => (1000, 0, true),
        RatedVoltage::DC_2kV => (2000, 0, true),
        RatedVoltage::DC_3kV => (3000, 0, true),
        RatedVoltage::DC_3kV15 => (3150, 0, true),
        RatedVoltage::AC_250V => (250, 0, false),
        RatedVoltage::CustomDC(v) => (v as nat, 0, true),
        RatedVoltage::CustomAC(v) => (v as nat, 0, false),
    }
}

/// Text of a voltage: `16V`, `250VAC`; `6.3V`, or `6V3` in the infix style.
pub open spec fn voltage_text(v: RatedVoltage, infix: bool) -> Seq<char> {
    let (whole, tenths, is_dc) = voltage_parts(v);
    if tenths == 0 {
        if is_dc {
            decimal(whole) + "V"@
        } else {
            decimal(whole) + "VAC"@
        }
    } else if infix {
        decimal(whole) + "V"@ + decimal(tenths)
    } else {
        decimal(whole) + "."@ + decimal(tenths) + "V"@
    }
}

impl RatedVoltage {
    fn parts(&self) -> (r: (u32, u32, bool))
        ensures
            (r.0 as nat, r.1 as nat, r.2) == voltage_parts(*self),
    {
        match self {
            RatedVoltage::DC_2V5 => (2, 5, true),
            RatedVoltage::DC_4V => (4, 0, true),
            RatedVoltage::DC_6V3 => (6, 3, true),
            RatedVoltage::DC_10V => (10, 0, true),
            RatedVoltage::DC_16V => (16, 0, true),
            RatedVoltage::DC_25V => (25, 0, true),
            RatedVoltage::DC_35V => (35, 0, true),
            RatedVoltage::DC_50V => (50, 0, true),
            RatedVoltage::DC_63V => (63, 0, true),
            RatedVoltage::DC_100V => (100, 0, true),
            RatedVoltage::DC_200V => (200, 0, true),
            RatedVoltage::DC_250V => (250, 0, true),
            RatedVoltage::DC_450V => (450, 0, true),
            RatedVoltage::DC_500V => (500, 0, true),
            RatedVoltage::DC_630V => (630, 0, true),
            RatedVoltage::DC_1kV => (1000, 0, true),
            RatedVoltage::DC_2kV => (2000, 0, true),
            RatedVoltage::DC_3kV => (3000, 0, true),
            RatedVoltage::DC_3kV15 => (3150, 0, true),
            RatedVoltage::AC_250V => (250, 0, false),
            RatedVoltage::CustomDC(v) => (*v, 0, true),
            RatedVoltage::CustomAC(v) => (*v, 0, false),
        }
    }

    /// The voltage as text, in the verbose or the infix style.
    pub fn render(&self, infix: bool) -> (r: String)
        ensures
            r@ == voltage_text(*self, infix),
    {
        let (whole, tenths, is_dc) = self.parts();
        let mut s = String::new();
        push_decimal(&mut s, whole as u64);
        if tenths == 0 {
            if is_dc {
                s.append("V");
            } else {
                s.append("VAC");
            }
        } else if infix {
            s.append("V");
            push_decimal(&mut s, tenths as u64);
        } else {
            s.append(".");
            push_decimal(&mut s, tenths as u64);
            s.append("V");
        }
        assert(s@ =~= voltage_text(*self, infix));
        s
    }
}

/// Capacitance tolerance: a named band, a percentage band, or an absolute band.
#[allow(non_camel_case_types)]
#[derive(Debug, Clone, Copy, PartialEq, Eq, Structural)]
pub enum Tolerance {
    /// ±0.5%
    PM05,
    /// ±1%
    PM1,
    /// ±2%
    PM2,
    /// +5%
    P5,
    /// -5%
    M5,
    /// ±5%
    PM5,
    /// ±10%
    PM10,
    /// ±20%
    PM20,
    /// Percentage band: the deviation below, then the deviation above.
    /// `Percent(x, y)` is -x% +y%.
    Percent(u8, u8),
    /// ±0.1pF
    PM0pF1,
    /// ±0.25pF
    PM0pF25,
    /// ±0.5pF
    PM0pF5,
    /// ±1pF
    PM1pF,
    /// Absolute band: the deviation below, then the deviation above.
    /// `AttoFarads(x, y)` is -x +y.
    AttoFarads(u64, u64),
}

/// A band of `lower` below and `upper` above, in the given unit.
pub open spec fn band_text(lower: nat, upper: nat, unit: Seq<char>) -> Seq<char> {
    if upper == lower {
        "±"@ + decimal(lower) + unit
    } else {
        "-"@ + decimal(lower) + "+"@ + decimal(upper) + unit
    }
}

/// Text of a tolerance. The infix style gives a class letter (`U` ultra
/// precise, `P` precise, `S` standard, `C` coarse), or nothing for bands
/// without a class.
pub open spec fn tolerance_text(t: Tolerance, infix: bool) -> Seq<char> {
    if infix {
        match t {
            Tolerance::PM05 => "U"@,
            Tolerance::PM1 => "P"@,
            Tolerance::PM2 => "P"@,
            Tolerance::PM5 => "P"@,
            Tolerance::PM10 => "S"@,
            Tolerance::PM20 => "C"@,
            Tolerance::PM0pF1 => "U"@,
            Tolerance::PM0pF25 => "P"@,
            Tolerance::PM0pF5 => "S"@,
            Tolerance::PM1pF => "C"@,
            _ => Seq::empty(),
        }
    } else {
        match t {
            Tolerance::PM05 => "±0.5%"@,
            Tolerance::PM1 => "±1%"@,
            Tolerance::PM2 => "±2%"@,
            Tolerance::P5 => "+5%"@,
            Tolerance::M5 => "-5%"@,
            Tolerance::PM5 => "±5%"@,
            Tolerance::PM10 => "±10%"@,
            Tolerance::PM20 => "±20%"@,
            Tolerance::Percent(lower, upper) => band_text(lower as nat, upper as nat, "%"@),
            Tolerance::PM0pF1 => "±0.1pF"@,
            Tolerance::PM0pF25 => "±0.25pF"@,
            Tolerance::PM0pF5 => "±0.5pF"@,
            Tolerance::PM1pF => "±1pF"@,
            Tolerance::AttoFarads(lower, upper) => band_text(lower as nat, upper as nat, "pF"@),
        }
    }
}

fn push_band(s: &mut String, lower: u64, upper: u64, unit: &str)
    ensures
        final(s)@ == old(s)@ + band_text(lower as nat, upper as nat, unit@),
{
    if upper == lower {
        s.append("±");
        push_decimal(s, lower);
    } else {
        s.append("-");
        push_decimal(s, lower);
        s.append("+");
        push_decimal(s, upper);
    }
    s.append(unit);
    assert(final(s)@ =~= old(s)@ + band_text(lower as nat, upper as nat, unit@));
}

impl Tolerance {
    /// The tolerance as text, in the verbose or the infix style.
    pub fn render(&self, infix: bool) -> (r: String)
        ensures
            r@ == tolerance_text(*self, infix),
    {
        let mut s = String::new();
        if infix {
            match self {
                Tolerance::PM05 => s.append("U"),
                Tolerance::PM1 => s.append("P"),
                Tolerance::PM2 => s.append("P"),
                Tolerance::PM5 => s.append("P"),
                Tolerance::PM10 => s.append("S"),
                Tolerance::PM20 => s.append("C"),
                Tolerance::PM0pF1 => s.append("U"),
                Tolerance::PM0pF25 => s.append("P"),
                Tolerance::PM0pF5 => s.append("S"),
                Tolerance::PM1pF => s.append("C"),
                _ => {},
            }
        } else {
            match self {
                Tolerance::PM05 => s.append("±0.5%"),
                Tolerance::PM1 => s.append("±1%"),
                Tolerance::PM2 => s.append("±2%"),
                Tolerance::P5 => s.append("+5%"),
                Tolerance::M5 => s.append("-5%"),
                Tolerance::PM5 => s.append("±5%"),
                Tolerance::PM10 => s.append("±10%"),
                Tolerance::PM20 => s.append("±20%"),
                Tolerance::Percent(lower, upper) => push_band(&mut s, *lower as u64, *upper as u64, "%"),
                Tolerance::PM0pF1 => s.append("±0.1pF"),
                Tolerance::PM0pF25 => s.append("±0.25pF"),
                Tolerance::PM0pF5 => s.append("±0.5pF"),
                Tolerance::PM1pF => s.append("±1pF"),
                Tolerance::AttoFarads(lower, upper) => push_band(&mut s, *lower, *upper, "pF"),
            }
        }
        assert(s@ =~= tolerance_text(*self, infix));
        s
    }
}

/// Maximum mounted height in millimetres: whole millimetres, and the digits
/// after the decimal point as a number (`0.125mm` is `{0, 125}`).
#[derive(Debug, Clone, Copy, PartialEq, Eq, Structural)]
pub struct Height {
    pub decimal: u8,
    pub fractional: u8,
}

/// Text of a height: `1mm`, `0.85mm`.
pub open spec fn height_text(h: Height) -> Seq<char> {
    if h.fractional == 0 {
        decimal(h.decimal as nat) + "mm"@
    } else {
        decimal(h.decimal as nat) + "."@ + decimal(h.fractional as nat) + "mm"@
    }
}

impl Height {
    /// A height of `decimal` millimetres and the fraction digits `fractional`.
    pub fn new(decimal: u8, fractional: u8) -> (r: Self)
        ensures
            r.decimal == decimal,
            r.fractional == fractional,
    {
        Height { decimal, fractional }
    }

    /// The height as text.
    pub fn render(&self) -> (r: String)
        ensures
            r@ == height_text(*self),
    {
        let mut s = String::new();
        push_decimal(&mut s, self.decimal as u64);
        if self.fractional != 0 {
            s.append(".");
            push_decimal(&mut s, self.fractional as u64);
        }
        s.append("mm");
        assert(s@ =~= height_text(*self));
        s
    }
}

} // verus!
