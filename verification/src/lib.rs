//! Renders weather conditions as a Polybar status line.
//!
//! This crate holds the pure core of the tool: deriving the display
//! symbol from the unit system, building the request URL, validating
//! the fields decoded from an API response, and formatting the output
//! string. Command-line handling and the HTTP requests live outside,
//! in the thin binary around this library.

pub mod config;
pub mod format;
pub mod text;
pub mod weather;

pub use config::Configuration;
pub use config::display_symbol_for;
pub use format::format_output;
pub use format::get_forecast;
pub use format::render_segment;
pub use text::i64_to_string;
pub use text::str_eq;
pub use weather::Error;
pub use weather::QueryType;
pub use weather::WeatherInfo;
pub use weather::build_url;
pub use weather::decode_weather;
