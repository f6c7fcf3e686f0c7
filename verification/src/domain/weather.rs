//! The weather report as the rest of the library sees it: numbers as numbers,
//! text already cleaned, nothing left of the provider's wire format.

use crate::precipitation::Precipitation;
use vstd::prelude::*;

verus! {

/// Core weather domain model representing a complete weather report.
#[derive(Clone, Debug, PartialEq, Eq)]
pub struct WeatherReport {
    pub location: String,
    pub date: String,
    pub current: CurrentWeather,
    pub daily: DailyForecast,
    pub hourly: Vec<HourlyForecast>,
}

/// Current weather conditions.
#[derive(Clone, Debug, PartialEq, Eq)]
pub struct CurrentWeather {
    pub description: String,
    pub temperature: Temperature,
    pub humidity: u8,
    pub wind: Wind,
    pub precipitation_mm: Precipitation,
    pub uv_index: u8,
    pub pressure_hpa: u16,
    pub visibility_km: u8,
}

/// Temperature with actual and feels-like values, in degrees Celsius.
#[derive(Clone, Copy, Debug, PartialEq, Eq)]
pub struct Temperature {
    pub celsius: i8,
    pub feels_like: i8,
}

/// Wind information.
#[derive(Clone, Debug, PartialEq, Eq)]
pub struct Wind {
    pub speed_kmh: u16,
    pub direction: String,
}

/// Daily forecast summary.
#[derive(Clone, Debug, PartialEq, Eq)]
pub struct DailyForecast {
    pub temp_min: i8,
    pub temp_max: i8,
    pub temp_avg: i8,
    pub astronomy: Astronomy,
}

/// Sunrise, sunset and moon phase.
#[derive(Clone, Debug, PartialEq, Eq)]
pub struct Astronomy {
    pub sunrise: String,
    pub sunset: String,
    pub moon_phase: String,
}

/// Hourly forecast entry.
#[derive(Clone, Debug, PartialEq, Eq)]
pub struct HourlyForecast {
    pub hour: String,
    pub temperature: i8,
    pub chance_of_rain: u8,
    pub description: String,
}

/// What a `WeatherReport` holds, as mathematical values.
pub struct WeatherReportView {
    pub location: Seq<char>,
    pub date: Seq<char>,
    pub current: CurrentWeatherView,
    pub daily: DailyForecastView,
    pub hourly: Seq<HourlyForecastView>,
}

/// What a `CurrentWeather` holds, as mathematical values.
pub struct CurrentWeatherView {
    pub description: Seq<char>,
    pub temperature: TemperatureView,
    pub humidity: int,
    pub wind: WindView,
    pub precipitation_mm: Seq<char>,
    pub uv_index: int,
    pub pressure_hpa: int,
    pub visibility_km: int,
}

/// What a `Temperature` holds, as mathematical values.
pub struct TemperatureView {
    pub celsius: int,
    pub feels_like: int,
}

/// What a `Wind` holds, as mathematical values.
pub struct WindView {
    pub speed_kmh: int,
    pub direction: Seq<char>,
}

/// What a `DailyForecast` holds, as mathematical values.
pub struct DailyForecastView {
    pub temp_min: int,
    pub temp_max: int,
    pub temp_avg: int,
    pub astronomy: AstronomyView,
}

/// What an `Astronomy` holds, as mathematical values.
pub struct AstronomyView {
    pub sunrise: Seq<char>,
    pub sunset: Seq<char>,
    pub moon_phase: Seq<char>,
}

/// What an `HourlyForecast` holds, as mathematical values.
pub struct HourlyForecastView {
    pub hour: Seq<char>,
    pub temperature: int,
    pub chance_of_rain: int,
    pub description: Seq<char>,
}

impl View for Temperature {
    type V = TemperatureView;

    open spec fn view(&self) -> TemperatureView {
        TemperatureView { celsius: self.celsius as int, feels_like: self.feels_like as int }
    }
}

impl View for Wind {
    type V = WindView;

    open spec fn view(&self) -> WindView {
        WindView { speed_kmh: self.speed_kmh as int, direction: self.direction@ }
    }
}

impl View for Astronomy {
    type V = AstronomyView;

    open spec fn view(&self) -> AstronomyView {
        AstronomyView {
            sunrise: self.sunrise@,
            sunset: self.sunset@,
            moon_phase: self.moon_phase@,
        }
    }
}

impl View for DailyForecast {
    type V = DailyForecastView;

    open spec fn view(&self) -> DailyForecastView {
        DailyForecastView {
            temp_min: self.temp_min as int,
            temp_max: self.temp_max as int,
            temp_avg: self.temp_avg as int,
            astronomy: self.astronomy@,
        }
    }
}

impl View for HourlyForecast {
    type V = HourlyForecastView;

    open spec fn view(&self) -> HourlyForecastView {
        HourlyForecastView {
            hour: self.hour@,
            temperature: self.temperature as int,
            chance_of_rain: self.chance_of_rain as int,
            description: self.description@,
        }
    }
}

impl View for CurrentWeather {
    type V = CurrentWeatherView;

    open spec fn view(&self) -> CurrentWeatherView {
        CurrentWeatherView {
            description: self.description@,
            temperature: self.temperature@,
            humidity: self.humidity as int,
            wind: self.wind@,
            precipitation_mm: self.precipitation_mm@,
            uv_index: self.uv_index as int,
            pressure_hpa: self.pressure_hpa as int,
            visibility_km: self.visibility_km as int,
        }
    }
}

/// The hourly entries of a report, each as mathematical values, in their order.
pub open spec fn hourly_views(hourly: Seq<HourlyForecast>) -> Seq<HourlyForecastView> {
    Seq::new(hourly.len(), |i: int| hourly[i]@)
}

impl View for WeatherReport {
    type V = WeatherReportView;

    open spec fn view(&self) -> WeatherReportView {
        WeatherReportView {
            location: self.location@,
            date: self.date@,
            current: self.current@,
            daily: self.daily@,
            hourly: hourly_views(self.hourly@),
        }
    }
}

} // verus!
