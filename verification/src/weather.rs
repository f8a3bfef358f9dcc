//! The weather record, the error taxonomy, the request URL for each
//! query, and the validation of a decoded response body.

use vstd::prelude::*;
use vstd::string::*;
use crate::config::Configuration;

verus! {

/// Which API endpoint a request addresses: current conditions or the
/// next-period forecast.
#[derive(Debug, Clone, Copy, PartialEq, Eq, Structural)]
pub enum QueryType {
    Current,
    Forecast,
}

/// One decoded weather report: a temperature in the configured unit
/// and the short code of the matching weather glyph. Both fields are
/// present and well-typed, or decoding has already failed.
#[derive(Debug, Clone, PartialEq)]
pub struct WeatherInfo {
    pub temperature: i64,
    pub icon: String,
}

/// What can go wrong while fetching and decoding a report. Every
/// error is fatal: the pipeline aborts and no partial output is
/// produced.
#[derive(Debug, Clone, PartialEq)]
pub enum Error {
    /// Network failure, non-success HTTP status, or a client error
    /// during the request; carries the transport layer's detail text.
    HttpError(String),
    /// The body parsed as JSON but lacked a well-typed temperature or
    /// icon field.
    InvalidResponse,
}

impl Error {
    /// The user-facing diagnostic line for this error.
    pub open spec fn spec_message(&self) -> Seq<char> {
        match self {
            Error::HttpError(detail) => "Failed to query OpenWeatherMap: "@ + detail@,
            Error::InvalidResponse => "Invalid response format from OpenWeatherMap"@,
        }
    }

    /// Renders the user-facing diagnostic for this error.
    pub fn message(&self) -> (r: String)
        ensures
            r@ == self.spec_message(),
    {
        match self {
            Error::HttpError(detail) => {
                let mut s = String::from_str("Failed to query OpenWeatherMap: ");
                s.append(detail.as_str());
                s
            },
            Error::InvalidResponse => String::from_str(
                "Invalid response format from OpenWeatherMap",
            ),
        }
    }
}

/// The path segment that selects the endpoint for a query.
pub open spec fn spec_endpoint(query: QueryType) -> Seq<char> {
    match query {
        QueryType::Current => "weather"@,
        QueryType::Forecast => "forecast"@,
    }
}

/// The full request URL for one query: the endpoint for the query
/// type, with the API key, city id, language and unit system attached
/// as query parameters.
pub open spec fn spec_url(config: Configuration, query: QueryType) -> Seq<char> {
    "https://api.openweathermap.org/data/2.5/"@ + spec_endpoint(query) + "?appid="@
        + config.api_key@ + "&id="@ + config.city_id@ + "&lang="@ + config.lang@ + "&units="@
        + config.units@
}

/// Builds the request URL for one query against the configured city.
pub fn build_url(config: &Configuration, query: QueryType) -> (r: String)
    ensures
        r@ == spec_url(*config, query),
{
    let mut url = String::from_str("https://api.openweathermap.org/data/2.5/");
    match query {
        QueryType::Current => url.append("weather"),
        QueryType::Forecast => url.append("forecast"),
    }
    url.append("?appid=");
    url.append(config.api_key.as_str());
    url.append("&id=");
    url.append(config.city_id.as_str());
    url.append("&lang=");
    url.append(config.lang.as_str());
    url.append("&units=");
    url.append(config.units.as_str());
    proof {
        assert(url@ =~= spec_url(*config, query));
    }
    url
}

/// Builds a report from the two fields extracted out of a response
/// body, or classifies the response as invalid when either field was
/// missing or ill-typed.
pub fn decode_weather(temperature: Option<i64>, icon: Option<String>) -> (r: Result<
    WeatherInfo,
    Error,
>)
    ensures
        match (temperature, icon) {
            (Some(t), Some(i)) => r matches Ok(w) && w.temperature == t && w.icon == i,
            _ => r == Result::<WeatherInfo, Error>::Err(Error::InvalidResponse),
        },
{
    match (temperature, icon) {
        (Some(t), Some(i)) => Ok(WeatherInfo { temperature: t, icon: i }),
        _ => Err(Error::InvalidResponse),
    }
}

} // verus!
