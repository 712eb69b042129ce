use capcodes::capacitors::Error;
use capcodes::murata;
use capcodes::parts::{EIAInchCode, IECMetricCode, SizeCode};
use capcodes::samsung;
use std::str::FromStr;

#[test]
fn inch_metric_round_trip() {
    let codes = [
        EIAInchCode::_008004,
        EIAInchCode::_0201,
        EIAInchCode::_0402,
        EIAInchCode::_0603,
        EIAInchCode::_1206,
        EIAInchCode::_2225,
        EIAInchCode::_2512,
        EIAInchCode::_8060,
    ];
    for e in codes {
        let m = IECMetricCode::from(e);
        assert_eq!(EIAInchCode::from(m), e);
        assert_eq!(IECMetricCode::from(EIAInchCode::from(m)), m);
    }
    assert_eq!(IECMetricCode::from(EIAInchCode::_0603), IECMetricCode::_1608);
}

#[test]
fn ambiguous_metric_codes() {
    assert_eq!(EIAInchCode::from(IECMetricCode::_5664), EIAInchCode::_2225);
    assert_eq!(EIAInchCode::from(IECMetricCode::_5764), EIAInchCode::_2225);
    assert_eq!(EIAInchCode::from(IECMetricCode::_6332), EIAInchCode::_2512);
    assert_eq!(EIAInchCode::from(IECMetricCode::_6432), EIAInchCode::_2512);
    assert_eq!(IECMetricCode::from(EIAInchCode::_2225), IECMetricCode::_5764);
    assert_eq!(EIAInchCode::_2225.metric_alternate(), Some(IECMetricCode::_5664));
    assert_eq!(EIAInchCode::_2512.metric_alternate(), Some(IECMetricCode::_6432));
    assert_eq!(EIAInchCode::_0603.metric_alternate(), None);
}

#[test]
fn size_names() {
    assert_eq!(EIAInchCode::_0603.render(false), "0603");
    assert_eq!(EIAInchCode::_0603.render(true), "0603 Inch");
    assert_eq!(IECMetricCode::_100100.render(true), "100100 Metric");
    assert_eq!(IECMetricCode::_03015.name(), "03015");
}

#[test]
fn murata_sizes() {
    assert_eq!(murata::Dimensions::to_eia(murata::Dimensions::_18), EIAInchCode::_0603);
    assert_eq!(murata::Dimensions::to_mfcode(EIAInchCode::_0603), Some(murata::Dimensions::_18));
    assert_eq!(murata::Dimensions::to_mfcode(EIAInchCode::_009005), None);
    let d = murata::Dimensions::_1U;
    assert_eq!(murata::Dimensions::to_mfcode(murata::Dimensions::to_eia(d)), Some(d));
}

#[test]
fn samsung_sizes() {
    assert_eq!(samsung::Dimensions::to_eia(samsung::Dimensions::_10), EIAInchCode::_0603);
    assert_eq!(samsung::Dimensions::to_mfcode(EIAInchCode::_0805), Some(samsung::Dimensions::_21));
    assert_eq!(samsung::Dimensions::to_mfcode(EIAInchCode::_0303), None);
}

#[test]
fn samsung_series_codes() {
    assert_eq!(samsung::Series::from_code("CL"), Some(samsung::Series::CL));
    assert_eq!(samsung::Series::from_str("CL").unwrap(), samsung::Series::CL);
    assert_eq!(samsung::Series::from_str("CLX").unwrap_err(), Error::UnknownSeries);
    assert_eq!(samsung::Series::from_str("GR").unwrap_err(), Error::UnknownSeries);
}
