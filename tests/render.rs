use capcodes::capacitors::{format_capacitance, strip_zeros_right, Capacitance};
use capcodes::parts::{Dielectric, Height, RatedVoltage, Tolerance};

#[test]
fn picofarads_promoted_to_nanofarads() {
    assert_eq!(format_capacitance(&Capacitance::PicoFarads(220000), false), "220nF");
    assert_eq!(format_capacitance(&Capacitance::PicoFarads(220000), true), "220N");
    assert_eq!(format_capacitance(&Capacitance::PicoFarads(4700), false), "4.7nF");
    assert_eq!(format_capacitance(&Capacitance::PicoFarads(4700), true), "4N7");
    assert_eq!(format_capacitance(&Capacitance::PicoFarads(1500), false), "1.5nF");
}

#[test]
fn picofarad_and_microfarad_scales() {
    assert_eq!(format_capacitance(&Capacitance::PicoFarads(470), false), "470pF");
    assert_eq!(format_capacitance(&Capacitance::PicoFarads(470), true), "470P");
    assert_eq!(format_capacitance(&Capacitance::PicoFarads(999999), false), "999.999nF");
    assert_eq!(format_capacitance(&Capacitance::PicoFarads(1_000_000), false), "1uF");
    assert_eq!(format_capacitance(&Capacitance::PicoFarads(2_200_000), false), "2.2uF");
    assert_eq!(format_capacitance(&Capacitance::PicoFarads(2_200_000), true), "2U2");
}

#[test]
fn small_capacitances() {
    assert_eq!(Capacitance::AttoFarads(3300).render(false), "3.3pF");
    assert_eq!(Capacitance::AttoFarads(3300).render(true), "3P3");
    assert_eq!(Capacitance::AttoFarads(330).render(false), "0.3pF");
    assert_eq!(Capacitance::AttoFarads(330).render(true), "0P3");
    assert_eq!(Capacitance::NonStandard.render(false), "NonSTD");
}

#[test]
fn strips_up_to_two_zeros() {
    assert_eq!(strip_zeros_right(500), 5);
    assert_eq!(strip_zeros_right(250), 25);
    assert_eq!(strip_zeros_right(123), 123);
    assert_eq!(strip_zeros_right(0), 0);
}

#[test]
fn voltages() {
    assert_eq!(RatedVoltage::DC_6V3.render(false), "6.3V");
    assert_eq!(RatedVoltage::DC_6V3.render(true), "6V3");
    assert_eq!(RatedVoltage::DC_16V.render(true), "16V");
    assert_eq!(RatedVoltage::DC_1kV.render(false), "1000V");
    assert_eq!(RatedVoltage::AC_250V.render(false), "250VAC");
    assert_eq!(RatedVoltage::CustomDC(3150).render(false), "3150V");
    assert_eq!(RatedVoltage::CustomAC(120).render(true), "120VAC");
}

#[test]
fn tolerances() {
    assert_eq!(Tolerance::PM05.render(false), "±0.5%");
    assert_eq!(Tolerance::PM05.render(true), "U");
    assert_eq!(Tolerance::PM20.render(true), "C");
    assert_eq!(Tolerance::M5.render(false), "-5%");
    assert_eq!(Tolerance::P5.render(true), "");
    assert_eq!(Tolerance::Percent(5, 5).render(false), "±5%");
    assert_eq!(Tolerance::Percent(10, 20).render(false), "-10+20%");
    assert_eq!(Tolerance::AttoFarads(500, 500).render(false), "±500pF");
    assert_eq!(Tolerance::AttoFarads(100, 250).render(false), "-100+250pF");
    assert_eq!(Tolerance::PM0pF25.render(false), "±0.25pF");
}

#[test]
fn heights_and_dielectrics() {
    assert_eq!(Height::new(0, 125).render(), "0.125mm");
    assert_eq!(Height::new(1, 0).render(), "1mm");
    assert_eq!(Dielectric::C0G.name(), "C0G");
    assert_eq!(Dielectric::X7R.name(), "X7R");
}
