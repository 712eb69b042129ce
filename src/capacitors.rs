//! Capacitance values, the decoded capacitor record, decode errors, and the
//! dispatcher that hands a part number to each manufacturer's decoder.

use crate::murata;
use crate::parts::{
    dielectric_name, height_text, inch_name, metric_name, metric_of_inch, size_text,
    tolerance_text, voltage_text, Dielectric, EIAInchCode, Height, IECMetricCode, RatedVoltage,
    Tolerance,
};
use crate::samsung;
use crate::text::{decimal, push_decimal};
use std::str::FromStr;
use vstd::prelude::*;

verus! {

/// A capacitance: thousandths of a picofarad for small values, whole
/// picofarads from ten picofarads up, or a marker for a non-standard value.
#[derive(Debug, Clone, Copy, PartialEq, Eq, Structural)]
pub enum Capacitance {
    AttoFarads(u16),
    PicoFarads(u64),
    NonStandard,
}

/// Drops up to two trailing zeros of a three-digit fraction.
pub open spec fn strip_zeros(x: nat) -> nat {
    if x % 100 == 0 {
        x / 100
    } else if x % 10 == 0 {
        x / 10
    } else {
        x
    }
}

/// Drops up to two trailing zeros of a three-digit fraction.
pub fn strip_zeros_right(x: u16) -> (r: u16)
    ensures
        r as nat == strip_zeros(x as nat),
{
    if x % 100 == 0 {
        x / 100
    } else if x % 10 == 0 {
        x / 10
    } else {
        x
    }
}

/// The unit of picofarads, nanofarads or microfarads (`scale` 0, 1, 2): a
/// letter that stands for the decimal point in the infix style, else a unit.
pub open spec fn unit_text(scale: nat, infix: bool) -> Seq<char> {
    if infix {
        if scale == 0 {
            "P"@
        } else if scale == 1 {
            "N"@
        } else {
            "U"@
        }
    } else {
        if scale == 0 {
            "pF"@
        } else if scale == 1 {
            "nF"@
        } else {
            "uF"@
        }
    }
}

/// A value of `whole` units and a three-digit `fraction` at one scale.
pub open spec fn scaled_text(whole: nat, fraction: nat, scale: nat, infix: bool) -> Seq<char> {
    if fraction == 0 {
        decimal(whole) + unit_text(scale, infix)
    } else if infix {
        decimal(whole) + unit_text(scale, true) + decimal(strip_zeros(fraction))
    } else {
        decimal(whole) + "."@ + decimal(strip_zeros(fraction)) + unit_text(scale, false)
    }
}

/// Text of a capacitance: `2.2uF`, `470pF`; in the infix style `2U2`, `4N7`, `3P3`.
/// Picofarad values under 1000 stay in picofarads, those under 1000000 are
/// given in nanofarads, larger ones in microfarads.
pub open spec fn capacitance_text(c: Capacitance, infix: bool) -> Seq<char> {
    match c {
        Capacitance::AttoFarads(a) => {
            if a < 1000 {
                if infix {
                    "0P"@ + decimal(a as nat / 100)
                } else {
                    "0."@ + decimal(a as nat / 100) + "pF"@
                }
            } else if infix {
                decimal(a as nat / 1000) + "P"@ + decimal(strip_zeros(a as nat % 1000))
            } else {
                decimal(a as nat / 1000) + "."@ + decimal(strip_zeros(a as nat % 1000)) + "pF"@
            }
        },
        Capacitance::PicoFarads(p) => {
            if p < 1000 {
                decimal(p as nat) + unit_text(0, infix)
            } else if p < 1_000_000 {
                scaled_text(p as nat / 1000, p as nat % 1000, 1, infix)
            } else {
                scaled_text(p as nat / 1_000_000, (p as nat / 1000) % 1000, 2, infix)
            }
        },
        Capacitance::NonStandard => "NonSTD"@,
    }
}

fn push_unit(s: &mut String, scale: u8, infix: bool)
    requires
        scale <= 2,
    ensures
        final(s)@ == old(s)@ + unit_text(scale as nat, infix),
{
    if infix {
        if scale == 0 {
            s.append("P");
        } else if scale == 1 {
            s.append("N");
        } else {
            s.append("U");
        }
    } else {
        if scale == 0 {
            s.append("pF");
        } else if scale == 1 {
            s.append("nF");
        } else {
            s.append("uF");
        }
    }
}

fn push_scaled(s: &mut String, whole: u64, fraction: u16, scale: u8, infix: bool)
    requires
        scale <= 2,
    ensures
        final(s)@ == old(s)@ + scaled_text(whole as nat, fraction as nat, scale as nat, infix),
{
    push_decimal(s, whole);
    if fraction == 0 {
        push_unit(s, scale, infix);
    } else if infix {
        push_unit(s, scale, true);
        push_decimal(s, strip_zeros_right(fraction) as u64);
    } else {
        s.append(".");
        push_decimal(s, strip_zeros_right(fraction) as u64);
        push_unit(s, scale, false);
    }
    assert(final(s)@ =~= old(s)@ + scaled_text(whole as nat, fraction as nat, scale as nat, infix));
}

/// The capacitance as text, in the verbose or the infix style.
pub fn format_capacitance(c: &Capacitance, infix: bool) -> (r: String)
    ensures
        r@ == capacitance_text(*c, infix),
{
    let mut s = String::new();
    match c {
        Capacitance::AttoFarads(a) => {
            let a = *a;
            if a < 1000 {
                if infix {
                    s.append("0P");
                    push_decimal(&mut s, (a / 100) as u64);
                } else {
                    s.append("0.");
                    push_decimal(&mut s, (a / 100) as u64);
                    s.append("pF");
                }
            } else {
                let whole = a / 1000;
                let fraction = a % 1000;
                push_decimal(&mut s, whole as u64);
                if infix {
                    s.append("P");
                    push_decimal(&mut s, strip_zeros_right(fraction) as u64);
                } else {
                    s.append(".");
                    push_decimal(&mut s, strip_zeros_right(fraction) as u64);
                    s.append("pF");
                }
            }
        },
        Capacitance::PicoFarads(p) => {
            let p = *p;
            if p < 1000 {
                push_decimal(&mut s, p);
                push_unit(&mut s, 0, infix);
            } else if p < 1_000_000 {
                push_scaled(&mut s, p / 1000, (p % 1000) as u16, 1, infix);
            } else {
                let n = p / 1000;
                assert(n / 1000 == p as nat / 1_000_000);
                push_scaled(&mut s, n / 1000, (n % 1000) as u16, 2, infix);
            }
        },
        Capacitance::NonStandard => {
            s.append("NonSTD");
        },
    }
    assert(s@ =~= capacitance_text(*c, infix));
    s
}

impl Capacitance {
    /// The capacitance as text, in the verbose or the infix style.
    pub fn render(&self, infix: bool) -> (r: String)
        ensures
            r@ == capacitance_text(*self, infix),
    {
        format_capacitance(self, infix)
    }
}

/// Why a part number could not be decoded.
#[derive(Debug, Clone, Copy, PartialEq, Eq, Structural)]
pub enum Error {
    UnknownSeries,
    WrongDimensionCode,
    WrongHeightCode,
    WrongDielectricCode,
    WrongVoltageCode,
    WrongCapacitanceCode,
    WrongToleranceCode,
    InsufficientData,
}


/// Which manufacturer's series a part belongs to.
#[derive(Debug, Clone, Copy, PartialEq, Eq, Structural)]
pub enum Series {
    Samsung(samsung::Series),
    Murata(murata::Series),
}

/// A decoded capacitor part number.
#[derive(Debug, Clone)]
pub struct Capacitor {
    pub series: Series,
    pub dimensions: EIAInchCode,
    pub max_height: Height,
    pub dielectric: Dielectric,
    pub voltage: RatedVoltage,
    pub capacitance: Capacitance,
    pub tolerance: Tolerance,
    /// The part of the part number after the decoded fields.
    pub other: String,
}

/// The mathematical value of a `Capacitor`.
pub struct CapacitorView {
    pub series: Series,
    pub dimensions: EIAInchCode,
    pub max_height: Height,
    pub dielectric: Dielectric,
    pub voltage: RatedVoltage,
    pub capacitance: Capacitance,
    pub tolerance: Tolerance,
    pub other: Seq<char>,
}

impl View for Capacitor {
    type V = CapacitorView;

    open spec fn view(&self) -> CapacitorView {
        CapacitorView {
            series: self.series,
            dimensions: self.dimensions,
            max_height: self.max_height,
            dielectric: self.dielectric,
            voltage: self.voltage,
            capacitance: self.capacitance,
            tolerance: self.tolerance,
            other: self.other@,
        }
    }
}

/// The outcome of a decode, with the record taken to its view.
pub open spec fn decoded(r: Result<Capacitor, Error>) -> Result<CapacitorView, Error> {
    match r {
        Ok(c) => Ok(c@),
        Err(e) => Err(e),
    }
}

/// Text of a decoded capacitor. The alternate style is a compact code:
/// `C`, the inch size, `_`, then capacitance, tolerance class and voltage in
/// the infix style, and the dielectric. The verbose style reads
/// `CAP 220nF±20% 10V X5R 0201(0603 Metric) Height=0.125mm`.
pub open spec fn capacitor_text(c: CapacitorView, alternate: bool) -> Seq<char> {
    if alternate {
        "C"@ + inch_name(c.dimensions) + "_"@ + capacitance_text(c.capacitance, true)
            + tolerance_text(c.tolerance, true) + voltage_text(c.voltage, true) + dielectric_name(
            c.dielectric,
        )
    } else {
        "CAP "@ + capacitance_text(c.capacitance, false) + tolerance_text(c.tolerance, false) + " "@
            + voltage_text(c.voltage, false) + " "@ + dielectric_name(c.dielectric) + " "@
            + inch_name(c.dimensions) + "("@ + size_text(
            metric_name(metric_of_inch(c.dimensions)),
            " Metric"@,
            true,
        ) + ") Height="@ + height_text(c.max_height)
    }
}

/// What decoding a part number gives: the first manufacturer whose series
/// prefix matches decides; a part number that none of them knows is an
/// unknown series.
pub open spec fn part_number_code(s: Seq<char>) -> Result<CapacitorView, Error> {
    murata::part_code(s)
}

impl Capacitor {
    /// Decodes a part number, trying each manufacturer's decoder in turn.
    /// Only an unknown series moves on to the next decoder; any other error
    /// is returned at once.
    pub fn decode(part_number: &str) -> (r: Result<Capacitor, Error>)
        ensures
            decoded(r) == part_number_code(part_number@),
    {
        match murata::parse(part_number) {
            Err(Error::UnknownSeries) => {},
            found => {
                return found;
            },
        }
        Err(Error::UnknownSeries)
    }

    /// The capacitor as text, verbose or in the alternate compact style.
    pub fn render(&self, alternate: bool) -> (r: String)
        ensures
            r@ == capacitor_text(self@, alternate),
    {
        let mut s = String::new();
        if alternate {
            s.append("C");
            s.append(self.dimensions.name());
            s.append("_");
            s.append(format_capacitance(&self.capacitance, true).as_str());
            s.append(self.tolerance.render(true).as_str());
            s.append(self.voltage.render(true).as_str());
            s.append(self.dielectric.name());
        } else {
            s.append("CAP ");
            s.append(format_capacitance(&self.capacitance, false).as_str());
            s.append(self.tolerance.render(false).as_str());
            s.append(" ");
            s.append(self.voltage.render(false).as_str());
            s.append(" ");
            s.append(self.dielectric.name());
            s.append(" ");
            s.append(self.dimensions.name());
            s.append("(");
            let metric = IECMetricCode::from(self.dimensions);
            s.append(metric.render(true).as_str());
            s.append(") Height=");
            s.append(self.max_height.render().as_str());
        }
        assert(s@ =~= capacitor_text(self@, alternate));
        s
    }
}

impl FromStr for Capacitor {
    type Err = Error;

    fn from_str(s: &str) -> (r: Result<Capacitor, Error>)
        ensures
            decoded(r) == part_number_code(s@),
    {
        Capacitor::decode(s)
    }
}

} // verus!
