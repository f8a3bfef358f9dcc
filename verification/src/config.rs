//! The run configuration and the display symbol derived from the
//! selected unit system.

use vstd::prelude::*;
use crate::text::str_eq;

verus! {

/// Immutable value holding everything one invocation needs: the API
/// key, the city to query, the unit system, the locale, the unit
/// abbreviation shown after temperatures, and whether the forecast
/// segment is rendered ("true" or "false"). Built once from
/// command-line input and read-only thereafter.
#[derive(Debug, Clone)]
pub struct Configuration {
    pub api_key: String,
    pub city_id: String,
    pub units: String,
    pub lang: String,
    pub display_symbol: String,
    pub enable_forcast: String,
}

/// The unit abbreviation that a unit system derives: "metric" shows
/// degrees Celsius, "imperial" degrees Fahrenheit, and anything else
/// (the default unit system) Kelvin.
pub open spec fn spec_display_symbol(units: Seq<char>) -> Seq<char> {
    if units == "metric"@ {
        "°C"@
    } else if units == "imperial"@ {
        "°F"@
    } else {
        "K"@
    }
}

/// Derives the display symbol shown after a temperature value from
/// the selected unit system.
pub fn display_symbol_for(units: &str) -> (r: &'static str)
    ensures
        r@ == spec_display_symbol(units@),
{
    if str_eq(units, "metric") {
        "°C"
    } else if str_eq(units, "imperial") {
        "°F"
    } else {
        "K"
    }
}

} // verus!
