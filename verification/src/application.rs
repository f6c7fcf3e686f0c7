pub mod weather_service;

pub use weather_service::WeatherService;
