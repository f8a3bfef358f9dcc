use polybar_forecast::Configuration;
use polybar_forecast::Error;
use polybar_forecast::QueryType;
use polybar_forecast::WeatherInfo;
use polybar_forecast::build_url;
use polybar_forecast::decode_weather;
use polybar_forecast::display_symbol_for;
use polybar_forecast::format_output;
use polybar_forecast::get_forecast;
use polybar_forecast::i64_to_string;
use polybar_forecast::render_segment;
use polybar_forecast::str_eq;

const TREND: &str = "%{T3}%{T-}";

fn current_record() -> WeatherInfo {
    WeatherInfo { temperature: 10, icon: "01d".to_string() }
}

fn forecast_record() -> WeatherInfo {
    WeatherInfo { temperature: 15, icon: "02d".to_string() }
}

#[test]
fn display_symbol_metric_is_celsius() {
    assert_eq!(display_symbol_for("metric"), "°C");
}

#[test]
fn display_symbol_imperial_is_fahrenheit() {
    assert_eq!(display_symbol_for("imperial"), "°F");
}

#[test]
fn display_symbol_kelvin_is_k() {
    assert_eq!(display_symbol_for("kelvin"), "K");
}

#[test]
fn display_symbol_defaults_to_k() {
    assert_eq!(display_symbol_for("anything else"), "K");
}

#[test]
fn render_segment_wraps_icon_and_temperature() {
    let s = render_segment(&current_record(), "°C");
    assert_eq!(s, "%{T4}01d%{T-} %{T1}10°C%{T-}");
}

#[test]
fn render_segment_negative_temperature() {
    let info = WeatherInfo { temperature: -3, icon: "13d".to_string() };
    let s = render_segment(&info, "K");
    assert_eq!(s, "%{T4}13d%{T-} %{T1}-3K%{T-}");
}

#[test]
fn format_output_disabled_returns_prefix_only() {
    let out = format_output(current_record(), forecast_record(), "false", "°C", TREND);
    assert_eq!(out, "%{T4}01d%{T-} %{T1}10°C%{T-}");
}

#[test]
fn format_output_disabled_ignores_forecast_values() {
    let other = WeatherInfo { temperature: -40, icon: "50n".to_string() };
    let a = format_output(current_record(), forecast_record(), "false", "°C", TREND);
    let b = format_output(current_record(), other, "false", "°C", TREND);
    assert_eq!(a, b);
    assert!(!a.contains("15"));
    assert!(!a.contains("02d"));
}

#[test]
fn format_output_enabled_joins_segments_with_trend() {
    let out = format_output(current_record(), forecast_record(), "true", "°C", TREND);
    let prefix = render_segment(&current_record(), "°C");
    let suffix = render_segment(&forecast_record(), "°C");
    assert_eq!(out, format!("{}{}{}", prefix, TREND, suffix));
}

#[test]
fn format_output_is_pure() {
    let a = format_output(current_record(), forecast_record(), "true", "°C", TREND);
    let b = format_output(current_record(), forecast_record(), "true", "°C", TREND);
    assert_eq!(a, b);
}

#[test]
fn scenario_forecast_enabled_full_line() {
    let out = get_forecast(
        "key",
        "2643743",
        "en",
        "metric",
        "°C",
        "true",
        Ok(current_record()),
        Ok(forecast_record()),
    );
    assert_eq!(
        out.unwrap(),
        "%{T4}01d%{T-} %{T1}10°C%{T-}%{T3}%{T-}%{T4}02d%{T-} %{T1}15°C%{T-}"
    );
}

#[test]
fn scenario_forecast_disabled_prefix_only() {
    let out = get_forecast(
        "key",
        "2643743",
        "en",
        "metric",
        "°C",
        "false",
        Ok(current_record()),
        Ok(forecast_record()),
    );
    assert_eq!(out.unwrap(), "%{T4}01d%{T-} %{T1}10°C%{T-}");
}

#[test]
fn scenario_forecast_fetch_failure_propagates() {
    let out = get_forecast(
        "key",
        "2643743",
        "en",
        "metric",
        "°C",
        "true",
        Ok(current_record()),
        Err(Error::HttpError("connection refused".to_string())),
    );
    let err = out.unwrap_err();
    assert_eq!(err, Error::HttpError("connection refused".to_string()));
    assert_eq!(
        err.message(),
        "Failed to query OpenWeatherMap: connection refused"
    );
}

#[test]
fn scenario_current_fetch_failure_wins() {
    let out = get_forecast(
        "key",
        "2643743",
        "en",
        "metric",
        "°C",
        "true",
        Err(Error::HttpError("timed out".to_string())),
        Err(Error::InvalidResponse),
    );
    assert_eq!(out.unwrap_err(), Error::HttpError("timed out".to_string()));
}

#[test]
fn scenario_missing_icon_is_invalid_response() {
    let r = decode_weather(Some(10), None);
    assert_eq!(r.unwrap_err(), Error::InvalidResponse);
}

#[test]
fn missing_temperature_is_invalid_response() {
    let r = decode_weather(None, Some("01d".to_string()));
    assert_eq!(r.unwrap_err(), Error::InvalidResponse);
}

#[test]
fn complete_fields_decode_to_record() {
    let r = decode_weather(Some(10), Some("01d".to_string())).unwrap();
    assert_eq!(r.temperature, 10);
    assert_eq!(r.icon, "01d");
}

#[test]
fn invalid_response_message_is_fixed() {
    assert_eq!(
        Error::InvalidResponse.message(),
        "Invalid response format from OpenWeatherMap"
    );
}

#[test]
fn build_url_current_endpoint() {
    let config = Configuration {
        api_key: "k123".to_string(),
        city_id: "2643743".to_string(),
        units: "metric".to_string(),
        lang: "en".to_string(),
        display_symbol: "°C".to_string(),
        enable_forcast: "true".to_string(),
    };
    assert_eq!(
        build_url(&config, QueryType::Current),
        "https://api.openweathermap.org/data/2.5/weather?appid=k123&id=2643743&lang=en&units=metric"
    );
}

#[test]
fn build_url_forecast_endpoint() {
    let config = Configuration {
        api_key: "k123".to_string(),
        city_id: "524901".to_string(),
        units: "kelvin".to_string(),
        lang: "de".to_string(),
        display_symbol: "K".to_string(),
        enable_forcast: "false".to_string(),
    };
    assert_eq!(
        build_url(&config, QueryType::Forecast),
        "https://api.openweathermap.org/data/2.5/forecast?appid=k123&id=524901&lang=de&units=kelvin"
    );
}

#[test]
fn i64_to_string_renders_decimals() {
    assert_eq!(i64_to_string(0), "0");
    assert_eq!(i64_to_string(7), "7");
    assert_eq!(i64_to_string(10), "10");
    assert_eq!(i64_to_string(-5), "-5");
    assert_eq!(i64_to_string(1234567890), "1234567890");
    assert_eq!(i64_to_string(i64::MAX), "9223372036854775807");
    assert_eq!(i64_to_string(i64::MIN), "-9223372036854775808");
}

#[test]
fn str_eq_compares_characters() {
    assert!(str_eq("true", "true"));
    assert!(!str_eq("true", "false"));
    assert!(!str_eq("true", "tru"));
    assert!(!str_eq("tru", "true"));
    assert!(str_eq("°C", "°C"));
    assert!(!str_eq("°C", "°F"));
    assert!(str_eq("", ""));
}
