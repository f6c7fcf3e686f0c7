use weather_lambda::event_handler::format_weather;
use weather_lambda::precipitation::Precipitation;
use weather_lambda::infrastructure::weather_api::{
    ApiAstronomy, ApiCurrentCondition, ApiHourly, ApiResponse, ApiValueWrapper, ApiWeather,
    WeatherApiError,
};

fn text(value: &serde_json::Value, key: &str) -> String {
    value[key].as_str().unwrap().to_string()
}

fn list<'a>(value: &'a serde_json::Value, key: &str) -> &'a Vec<serde_json::Value> {
    value[key].as_array().unwrap()
}

fn wrappers(value: &serde_json::Value) -> Vec<ApiValueWrapper> {
    list(value, "weatherDesc")
        .iter()
        .map(|entry| ApiValueWrapper {
            value: text(entry, "value"),
        })
        .collect()
}

fn weather_response(json: &str) -> ApiResponse {
    let root: serde_json::Value = serde_json::from_str(json).unwrap();
    ApiResponse {
        current_condition: list(&root, "current_condition")
            .iter()
            .map(|c| ApiCurrentCondition {
                temp_c: text(c, "temp_C"),
                feels_like_c: text(c, "FeelsLikeC"),
                humidity: text(c, "humidity"),
                weather_desc: wrappers(c),
                windspeed_kmph: text(c, "windspeedKmph"),
                winddir_16point: text(c, "winddir16Point"),
                precip_mm: text(c, "precipMM")
                    .parse::<f32>()
                    .ok()
                    .map(|amount| Precipitation::new(amount.to_string())),
                uv_index: text(c, "uvIndex"),
                pressure: text(c, "pressure"),
                visibility: text(c, "visibility"),
            })
            .collect(),
        weather: list(&root, "weather")
            .iter()
            .map(|w| ApiWeather {
                date: text(w, "date"),
                maxtemp_c: text(w, "maxtempC"),
                mintemp_c: text(w, "mintempC"),
                avg_temp_c: text(w, "avgtempC"),
                astronomy: list(w, "astronomy")
                    .iter()
                    .map(|a| ApiAstronomy {
                        sunrise: text(a, "sunrise"),
                        sunset: text(a, "sunset"),
                        moon_phase: text(a, "moon_phase"),
                    })
                    .collect(),
                hourly: list(w, "hourly")
                    .iter()
                    .map(|h| ApiHourly {
                        time: text(h, "time"),
                        temp_c: text(h, "tempC"),
                        chance_of_rain: text(h, "chanceofrain"),
                        weather_desc: wrappers(h),
                    })
                    .collect(),
            })
            .collect(),
    }
}

const SAMPLE: &str = r#"{
            "current_condition": [{
                "temp_C": "10", "FeelsLikeC": "7", "humidity": "87",
                "weatherDesc": [{"value": "Light drizzle"}],
                "windspeedKmph": "20", "winddir16Point": "SSE",
                "precipMM": "0.0", "uvIndex": "0", "pressure": "998", "visibility": "10"
            }],
            "nearest_area": [],
            "request": [],
            "weather": [{
                "date": "2026-01-26", "maxtempC": "12", "mintempC": "7", "avgtempC": "9",
                "astronomy": [{"sunrise": "08:28 AM", "sunset": "06:02 PM", "moon_phase": "First Quarter"}],
                "hourly": [{
                    "time": "0", "tempC": "7", "chanceofrain": "100",
                    "weatherDesc": [{"value": "Patchy rain nearby"}]
                }, {
                    "time": "1200", "tempC": "10", "chanceofrain": "77",
                    "weatherDesc": [{"value": "Patchy rain nearby"}]
                }]
            }]
        }"#;

#[test]
fn test_format_weather() {
    let weather = weather_response(SAMPLE);
    let result = format_weather(&weather).unwrap();
    assert!(result.contains("Cenon"));
    assert!(result.contains("10°C"));
    assert!(result.contains("Light drizzle"));
    assert!(result.contains("08:28 AM"));
}

#[test]
fn format_weather_gives_the_whole_message() {
    let result = format_weather(&weather_response(SAMPLE)).unwrap();
    let expected = "# :sunny: Weather Cenon — 2026-01-26\n\
\n\
## Currently\n\
**Light drizzle** | **10°C** (ressenti 7°C)\n\
Humidité : 87% · Vent : 20 km/h SSE\n\
Précipitations : 0 mm · UV : 0 · Pression : 998 hPa · Visibilité : 10 km\n\
\n\
## Day\n\
:arrow_down: **7°C** — :arrow_up: **12°C** (moy. 9°C)\n\
:sunrise: 08:28 AM · :city_sunset: 06:02 PM · :crescent_moon: First Quarter\n\
\n\
## Hourly forecast\n\
```\n\
Hour | Temp | Rain | Conditions\n\
--------------------------------------------------\n\
00:00      7°C   100%   Patchy rain nearby\n\
12:00     10°C    77%   Patchy rain nearby\n\
```";
    assert_eq!(result, expected);
}

#[test]
fn format_weather_of_an_incomplete_answer() {
    let mut weather = weather_response(SAMPLE);
    weather.weather = Vec::new();
    assert_eq!(format_weather(&weather), Err(WeatherApiError::IncompleteData));
    let mut weather = weather_response(SAMPLE);
    weather.current_condition = Vec::new();
    assert_eq!(format_weather(&weather), Err(WeatherApiError::IncompleteData));
}

#[test]
fn format_weather_reads_text_that_is_no_number_as_zero() {
    let mut weather = weather_response(SAMPLE);
    weather.current_condition[0].temp_c = "N/A".to_string();
    let result = format_weather(&weather).unwrap();
    assert!(result.contains("**Light drizzle** | **0°C** (ressenti 7°C)"));
}
