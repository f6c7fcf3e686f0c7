pub mod formatter;

pub use formatter::format_weather_report;
