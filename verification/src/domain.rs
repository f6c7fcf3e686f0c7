pub mod weather;

pub use weather::{
    Astronomy, AstronomyView, CurrentWeather, CurrentWeatherView, DailyForecast, DailyForecastView,
    HourlyForecast, HourlyForecastView, Temperature, TemperatureView, WeatherReport,
    WeatherReportView, Wind, WindView,
};
