use meso::error::{DecodeError, FetchError};
use meso::fetch::{ForecastClient, HazardClient};
use meso::forecast_codec::TemperatureForecast;
use meso::hazard::{HazardKind, RiskCategory, RiskValue};
use meso::risk_codec::{Feature, FeatureCollection};

#[test]
fn hazard_query_address_is_exact() {
    assert_eq!(
        HazardClient::query_url(HazardKind::Tornado, "-86.6018", "34.7382"),
        "https://mapservices.weather.noaa.gov/vector/rest/services/outlooks/SPC_wx_outlks/MapServer//3/query?f=json&geometry=-86.6018,34.7382&geometryType=esriGeometryPoint&inSR=4326&spatialRel=esriSpatialRelIntersects&outFields=*"
    );
    for kind in HazardKind::all() {
        let url = HazardClient::query_url(kind, "1.5", "2.5");
        assert!(url.contains(&format!("MapServer//{}/query?", kind.layer_id())));
        assert!(url.contains("geometry=1.5,2.5&"));
    }
}

#[test]
fn forecast_address_is_fixed() {
    assert_eq!(ForecastClient::url(), "https://blend.mdl.nws.noaa.gov/nbm-text-new?ele=NBS&sta=KHSV&cyc=Latest");
}

#[test]
fn transport_failure_is_a_network_error() {
    assert_eq!(
        HazardClient::conclude(HazardKind::Wind, Err("connection refused".to_string())),
        Err(FetchError::Network("connection refused".to_string()))
    );
    assert_eq!(
        ForecastClient::conclude(Err("dns".to_string())),
        Err(FetchError::Network("dns".to_string()))
    );
}

#[test]
fn decode_failure_is_a_decode_error() {
    assert_eq!(
        HazardClient::conclude(HazardKind::Hail, Ok(FeatureCollection { features: None })),
        Err(FetchError::Decode(DecodeError::Malformed))
    );
    assert_eq!(
        HazardClient::conclude(
            HazardKind::Categorical,
            Ok(FeatureCollection { features: Some(vec![Feature { dn: Some(99) }]) })
        ),
        Err(FetchError::Decode(DecodeError::UnknownCategory(99)))
    );
    assert_eq!(
        ForecastClient::conclude(Ok("no record here".to_string())),
        Err(FetchError::Decode(DecodeError::MissingField("temps")))
    );
}

#[test]
fn delivered_payload_gives_its_value() {
    assert_eq!(
        HazardClient::conclude(
            HazardKind::Categorical,
            Ok(FeatureCollection { features: Some(vec![Feature { dn: Some(4) }]) })
        ),
        Ok(RiskValue::Categorical(RiskCategory::Slight))
    );
    assert_eq!(
        HazardClient::conclude(HazardKind::Wind, Ok(FeatureCollection { features: Some(vec![]) })),
        Ok(RiskValue::Percentage(0))
    );
    assert_eq!(
        ForecastClient::conclude(Ok("NBS KHSV\nTXN 55 78\n".to_string())),
        Ok(TemperatureForecast { high: 78, low: 55 })
    );
}
