//! Composes weather reports into the bar-markup line that the status
//! bar displays, and the top-level pipeline around it.

use vstd::prelude::*;
use vstd::string::*;
use crate::config::Configuration;
use crate::text::i64_to_string;
use crate::text::spec_i64_string;
use crate::text::str_eq;
use crate::weather::Error;
use crate::weather::WeatherInfo;

verus! {

/// The markup token inserted between the current and the forecast
/// segment. It is one constant token, the same whether the
/// temperature rises, falls or stays equal.
pub open spec fn spec_trend_token() -> Seq<char> {
    "%{T3}%{T-}"@
}

/// One report rendered as a bar segment: the icon glyph, then the
/// temperature and the unit symbol, each wrapped in font-switch
/// tokens.
pub open spec fn spec_segment(info: WeatherInfo, unit: Seq<char>) -> Seq<char> {
    "%{T4}"@ + info.icon@ + "%{T-} %{T1}"@ + spec_i64_string(info.temperature as int) + unit
        + "%{T-}"@
}

/// The full display line: the current segment alone, unless the
/// forecast is enabled by the literal string "true", in which case
/// the trend token and the forecast segment follow it.
pub open spec fn spec_format_output(
    current: WeatherInfo,
    forecast: WeatherInfo,
    enable_forcast: Seq<char>,
    unit: Seq<char>,
    trend: Seq<char>,
) -> Seq<char> {
    if enable_forcast == "true"@ {
        spec_segment(current, unit) + trend + spec_segment(forecast, unit)
    } else {
        spec_segment(current, unit)
    }
}

/// Renders one report as a bar segment.
pub fn render_segment(info: &WeatherInfo, unit: &str) -> (r: String)
    ensures
        r@ == spec_segment(*info, unit@),
{
    let mut s = String::from_str("%{T4}");
    s.append(info.icon.as_str());
    s.append("%{T-} %{T1}");
    let t = i64_to_string(info.temperature);
    s.append(t.as_str());
    s.append(unit);
    s.append("%{T-}");
    proof {
        assert(s@ =~= spec_segment(*info, unit@));
    }
    s
}

/// Composes the display line from the two reports. Pure: the result
/// is a function of the arguments alone. With the forecast disabled
/// the line is exactly the current segment; with it enabled, the
/// current segment, the trend token and the forecast segment,
/// each unmodified from its single-report rendering.
pub fn format_output(
    current: WeatherInfo,
    forecast: WeatherInfo,
    enable_forcast: &str,
    unit: &str,
    trend: &str,
) -> (r: String)
    ensures
        r@ == spec_format_output(current, forecast, enable_forcast@, unit@, trend@),
        enable_forcast@ == "true"@ ==> r@ == spec_segment(current, unit@) + trend@
            + spec_segment(forecast, unit@),
        enable_forcast@ != "true"@ ==> r@ == spec_segment(current, unit@),
{
    let prefix = render_segment(&current, unit);
    if str_eq(enable_forcast, "true") {
        let suffix = render_segment(&forecast, unit);
        let mut out = prefix;
        out.append(trend);
        out.append(suffix.as_str());
        proof {
            assert(out@ =~= spec_segment(current, unit@) + trend@ + spec_segment(
                forecast,
                unit@,
            ));
        }
        out
    } else {
        prefix
    }
}

/// Runs the pure tail of the pipeline: builds the configuration from
/// the parsed command-line values, short-circuits on the outcome of
/// either fetch — a failed current fetch wins over a failed forecast
/// fetch, as the fetches happen in that order — and otherwise renders
/// the display line with the constant trend token.
pub fn get_forecast(
    api_key: &str,
    city_id: &str,
    lang: &str,
    units: &str,
    display_symbol: &str,
    enable_forcast: &str,
    current: Result<WeatherInfo, Error>,
    forecast: Result<WeatherInfo, Error>,
) -> (r: Result<String, Error>)
    ensures
        current matches Err(e) ==> r == Result::<String, Error>::Err(e),
        current is Ok ==> (forecast matches Err(e) ==> r == Result::<String, Error>::Err(e)),
        match (current, forecast) {
            (Ok(c), Ok(f)) => r matches Ok(out) && out@ == spec_format_output(
                c,
                f,
                enable_forcast@,
                display_symbol@,
                spec_trend_token(),
            ),
            _ => r is Err,
        },
{
    let config = Configuration {
        api_key: api_key.to_owned(),
        city_id: city_id.to_owned(),
        units: units.to_owned(),
        lang: lang.to_owned(),
        display_symbol: display_symbol.to_owned(),
        enable_forcast: enable_forcast.to_owned(),
    };

    let c = match current {
        Ok(c) => c,
        Err(e) => {
            return Err(e);
        },
    };
    let f = match forecast {
        Ok(f) => f,
        Err(e) => {
            return Err(e);
        },
    };

    let out = format_output(
        c,
        f,
        config.enable_forcast.as_str(),
        config.display_symbol.as_str(),
        "%{T3}%{T-}",
    );
    Ok(out)
}

/// Formatting is pure: for one tuple of inputs the specification
/// admits exactly one display line, so identical inputs always yield
/// an identical output string.
pub proof fn lemma_format_output_pure(
    current: WeatherInfo,
    forecast: WeatherInfo,
    enable_forcast: Seq<char>,
    unit: Seq<char>,
    trend: Seq<char>,
    r1: Seq<char>,
    r2: Seq<char>,
)
    requires
        r1 == spec_format_output(current, forecast, enable_forcast, unit, trend),
        r2 == spec_format_output(current, forecast, enable_forcast, unit, trend),
    ensures
        r1 == r2,
{
}

/// With the forecast disabled the display line is the current segment
/// alone, whatever the forecast report holds.
pub proof fn lemma_disabled_ignores_forecast(
    current: WeatherInfo,
    forecast1: WeatherInfo,
    forecast2: WeatherInfo,
    enable_forcast: Seq<char>,
    unit: Seq<char>,
    trend: Seq<char>,
)
    requires
        enable_forcast != "true"@,
    ensures
        spec_format_output(current, forecast1, enable_forcast, unit, trend) == spec_segment(
            current,
            unit,
        ),
        spec_format_output(current, forecast1, enable_forcast, unit, trend)
            == spec_format_output(current, forecast2, enable_forcast, unit, trend),
{
}

} // verus!
