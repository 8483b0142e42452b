//! The outcome of a fetch, from what the transport delivered.

use vstd::prelude::*;
use crate::error::{DecodeError, FetchError};
use crate::forecast_codec::{decode_forecast, ForecastCodec, TemperatureForecast};
use crate::hazard::{HazardKind, RiskValue};
use crate::risk_codec::{decode_risk, FeatureCollection, RiskCodec};

verus! {

/// The outcome of a hazard fetch: a transport failure is a network error
/// with the transport's detail, a payload that does not decode is a decode
/// error, and any other payload gives its risk.
pub open spec fn hazard_outcome(
    kind: HazardKind,
    delivered: Result<FeatureCollection, String>,
) -> Result<RiskValue, FetchError> {
    match delivered {
        Ok(payload) => match decode_risk(payload, kind) {
            Ok(risk) => Ok(risk),
            Err(error) => Err(FetchError::Decode(error)),
        },
        Err(detail) => Err(FetchError::Network(detail)),
    }
}

/// The outcome of a forecast fetch, in the same way.
pub open spec fn forecast_outcome(delivered: Result<String, String>) -> Result<
    TemperatureForecast,
    FetchError,
> {
    match delivered {
        Ok(text) => match decode_forecast(text@) {
            Ok(forecast) => Ok(forecast),
            Err(error) => Err(FetchError::Decode(error)),
        },
        Err(detail) => Err(FetchError::Network(detail)),
    }
}

/// The address of a point-intersection query for a hazard kind: the
/// service's base path, the kind's layer, and a query for every field of the
/// features that intersect the point at the given longitude and latitude,
/// in geographic coordinates, answered as JSON.
pub open spec fn hazard_query_url(
    kind: HazardKind,
    longitude: Seq<char>,
    latitude: Seq<char>,
) -> Seq<char> {
    "https://mapservices.weather.noaa.gov/vector/rest/services/outlooks/SPC_wx_outlks/MapServer//"@
        + kind.spec_layer_text() + "/query?f=json&geometry="@ + longitude + ","@ + latitude
        + "&geometryType=esriGeometryPoint&inSR=4326&spatialRel=esriSpatialRelIntersects&outFields=*"@
}

/// The client of the hazard-outlook query service.
pub struct HazardClient;

impl HazardClient {
    /// Builds the address of the query for `kind` at the point whose
    /// coordinates are given in decimal degrees.
    pub fn query_url(kind: HazardKind, longitude: &str, latitude: &str) -> (url: String)
        ensures
            url@ == hazard_query_url(kind, longitude@, latitude@),
    {
        let mut url = String::from_str(
            "https://mapservices.weather.noaa.gov/vector/rest/services/outlooks/SPC_wx_outlks/MapServer//",
        );
        url.append(kind.layer_text());
        url.append("/query?f=json&geometry=");
        url.append(longitude);
        url.append(",");
        url.append(latitude);
        url.append(
            "&geometryType=esriGeometryPoint&inSR=4326&spatialRel=esriSpatialRelIntersects&outFields=*",
        );
        url
    }

    /// Concludes a hazard fetch from what the one network call delivered. An
    /// error never turns into a risk value.
    pub fn conclude(kind: HazardKind, delivered: Result<FeatureCollection, String>) -> (outcome:
        Result<RiskValue, FetchError>)
        ensures
            outcome == hazard_outcome(kind, delivered),
            outcome is Ok <==> delivered is Ok && decode_risk(delivered->Ok_0, kind) is Ok,
            outcome matches Ok(RiskValue::Categorical(_)) ==> kind == HazardKind::Categorical,
    {
        match delivered {
            Ok(payload) => match RiskCodec::decode(&payload, kind) {
                Ok(risk) => Ok(risk),
                Err(error) => Err(FetchError::Decode(error)),
            },
            Err(detail) => Err(FetchError::Network(detail)),
        }
    }
}

/// The client of the forecast text feed.
pub struct ForecastClient;

impl ForecastClient {
    /// The address of the latest forecast text for the observation station.
    pub fn url() -> (url: &'static str)
        ensures
            url@ == "https://blend.mdl.nws.noaa.gov/nbm-text-new?ele=NBS&sta=KHSV&cyc=Latest"@,
    {
        "https://blend.mdl.nws.noaa.gov/nbm-text-new?ele=NBS&sta=KHSV&cyc=Latest"
    }

    /// Concludes the forecast fetch from what the one network call delivered.
    pub fn conclude(delivered: Result<String, String>) -> (outcome: Result<
        TemperatureForecast,
        FetchError,
    >)
        ensures
            outcome == forecast_outcome(delivered),
            outcome is Ok <==> delivered is Ok && decode_forecast(delivered->Ok_0@) is Ok,
    {
        match delivered {
            Ok(text) => match ForecastCodec::decode(text.as_str()) {
                Ok(forecast) => Ok(forecast),
                Err(error) => Err(FetchError::Decode(error)),
            },
            Err(detail) => Err(FetchError::Network(detail)),
        }
    }
}

} // verus!
