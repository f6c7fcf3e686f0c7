use weather_lambda::domain::{HourlyForecast, Temperature};
use weather_lambda::infrastructure::weather_api::{
    normalize_hour, ApiAstronomy, ApiCurrentCondition, ApiHourly, ApiResponse, ApiValueWrapper,
    ApiWeather, WeatherApiError,
};
use weather_lambda::infrastructure::WeatherApiClient;
use weather_lambda::precipitation::Precipitation;
use weather_lambda::presentation::format_weather_report;

fn read_amount(text: &str) -> Option<Precipitation> {
    text.parse::<f32>()
        .ok()
        .map(|amount| Precipitation::new(amount.to_string()))
}

fn wrapped(value: &str) -> Vec<ApiValueWrapper> {
    vec![ApiValueWrapper {
        value: value.to_string(),
    }]
}

fn api_hourly(time: &str, temp_c: &str, chance_of_rain: &str, description: &str) -> ApiHourly {
    ApiHourly {
        time: time.to_string(),
        temp_c: temp_c.to_string(),
        chance_of_rain: chance_of_rain.to_string(),
        weather_desc: wrapped(description),
    }
}

fn sample_current() -> ApiCurrentCondition {
    ApiCurrentCondition {
        temp_c: "10".to_string(),
        feels_like_c: "7".to_string(),
        humidity: "87".to_string(),
        weather_desc: wrapped("Light drizzle"),
        windspeed_kmph: "20".to_string(),
        winddir_16point: "SSE".to_string(),
        precip_mm: read_amount("0.0"),
        uv_index: "0".to_string(),
        pressure: "998".to_string(),
        visibility: "10".to_string(),
    }
}

fn sample_weather(hourly: Vec<ApiHourly>) -> ApiWeather {
    ApiWeather {
        date: "2026-01-26".to_string(),
        maxtemp_c: "12".to_string(),
        mintemp_c: "7".to_string(),
        avg_temp_c: "9".to_string(),
        astronomy: vec![ApiAstronomy {
            sunrise: "08:28 AM".to_string(),
            sunset: "06:02 PM".to_string(),
            moon_phase: "First Quarter".to_string(),
        }],
        hourly,
    }
}

fn sample_response() -> ApiResponse {
    ApiResponse {
        current_condition: vec![sample_current()],
        weather: vec![sample_weather(vec![api_hourly(
            "0",
            "7",
            "100",
            "Patchy rain nearby",
        )])],
    }
}

#[test]
fn end_to_end_scenario() {
    let client = WeatherApiClient::new();
    let report = client.to_domain("Cenon", &sample_response()).unwrap();
    let message = format_weather_report(&report);
    assert!(message.contains("10°C"));
    assert!(message.contains("Light drizzle"));
    assert!(message.contains("08:28 AM"));
    assert!(message.contains("\n00:00 "));
    assert!(message.contains("\n00:00      7°C   100%   Patchy rain nearby\n"));
}

#[test]
fn to_domain_maps_every_field() {
    let client = WeatherApiClient::new();
    let report = client.to_domain("Cenon", &sample_response()).unwrap();
    assert_eq!(report.location, "Cenon");
    assert_eq!(report.date, "2026-01-26");
    assert_eq!(report.current.description, "Light drizzle");
    assert_eq!(
        report.current.temperature,
        Temperature {
            celsius: 10,
            feels_like: 7
        }
    );
    assert_eq!(report.current.humidity, 87);
    assert_eq!(report.current.wind.speed_kmh, 20);
    assert_eq!(report.current.wind.direction, "SSE");
    assert_eq!(
        report.current.precipitation_mm,
        Precipitation::new("0".to_string())
    );
    assert_eq!(report.current.uv_index, 0);
    assert_eq!(report.current.pressure_hpa, 998);
    assert_eq!(report.current.visibility_km, 10);
    assert_eq!(report.daily.temp_min, 7);
    assert_eq!(report.daily.temp_max, 12);
    assert_eq!(report.daily.temp_avg, 9);
    assert_eq!(report.daily.astronomy.sunrise, "08:28 AM");
    assert_eq!(report.daily.astronomy.sunset, "06:02 PM");
    assert_eq!(report.daily.astronomy.moon_phase, "First Quarter");
    assert_eq!(
        report.hourly,
        vec![HourlyForecast {
            hour: "00:00".to_string(),
            temperature: 7,
            chance_of_rain: 100,
            description: "Patchy rain nearby".to_string(),
        }]
    );
}

#[test]
fn to_domain_takes_the_first_elements() {
    let mut response = sample_response();
    let mut later = sample_current();
    later.temp_c = "30".to_string();
    response.current_condition.push(later);
    let mut tomorrow = sample_weather(Vec::new());
    tomorrow.date = "2026-01-27".to_string();
    response.weather.push(tomorrow);
    response.weather[0].astronomy.push(ApiAstronomy {
        sunrise: "never".to_string(),
        sunset: "never".to_string(),
        moon_phase: "none".to_string(),
    });
    response.current_condition[0]
        .weather_desc
        .push(ApiValueWrapper {
            value: "Second".to_string(),
        });
    let report = WeatherApiClient::new()
        .to_domain("Cenon", &response)
        .unwrap();
    assert_eq!(report.current.temperature.celsius, 10);
    assert_eq!(report.date, "2026-01-26");
    assert_eq!(report.daily.astronomy.sunrise, "08:28 AM");
    assert_eq!(report.current.description, "Light drizzle");
    assert_eq!(report.hourly.len(), 1);
}

#[test]
fn non_numeric_text_reads_as_zero() {
    let mut response = sample_response();
    {
        let current = &mut response.current_condition[0];
        current.temp_c = "N/A".to_string();
        current.feels_like_c = "N/A".to_string();
        current.humidity = "N/A".to_string();
        current.windspeed_kmph = "N/A".to_string();
        current.precip_mm = read_amount("N/A");
        current.uv_index = "N/A".to_string();
        current.pressure = "N/A".to_string();
        current.visibility = "N/A".to_string();
    }
    {
        let today = &mut response.weather[0];
        today.maxtemp_c = "N/A".to_string();
        today.mintemp_c = "N/A".to_string();
        today.avg_temp_c = "N/A".to_string();
        today.hourly[0].temp_c = "N/A".to_string();
        today.hourly[0].chance_of_rain = "N/A".to_string();
    }
    let report = WeatherApiClient::new()
        .to_domain("Cenon", &response)
        .unwrap();
    assert_eq!(report.current.temperature.celsius, 0);
    assert_eq!(report.current.temperature.feels_like, 0);
    assert_eq!(report.current.humidity, 0);
    assert_eq!(report.current.wind.speed_kmh, 0);
    assert_eq!(report.current.precipitation_mm, Precipitation::zero());
    assert_eq!(report.current.uv_index, 0);
    assert_eq!(report.current.pressure_hpa, 0);
    assert_eq!(report.current.visibility_km, 0);
    assert_eq!(report.daily.temp_min, 0);
    assert_eq!(report.daily.temp_max, 0);
    assert_eq!(report.daily.temp_avg, 0);
    assert_eq!(report.hourly[0].temperature, 0);
    assert_eq!(report.hourly[0].chance_of_rain, 0);
}

#[test]
fn precipitation_is_the_amount_as_a_float_prints_it() {
    for text in [
        "0.0", "0", "0.1", "1.2", "12.5", "100.0", "3.", ".5", "-0.0", "+2.75", "007.50", "1e1",
        "1e-3", "inf", "-inf", "NaN", "0.30000001192092896", "123456789", "N/A", "", " 1.0",
        "1.2.3", "1,5",
    ] {
        let mut response = sample_response();
        response.current_condition[0].precip_mm = read_amount(text);
        let report = WeatherApiClient::new()
            .to_domain("Cenon", &response)
            .unwrap();
        let expected = format!("{}", text.parse::<f32>().unwrap_or(0.0));
        assert_eq!(report.current.precipitation_mm.text, expected, "{:?}", text);
        let message = format_weather_report(&report);
        assert!(
            message.contains(&format!("\nPrécipitations : {} mm · UV : ", expected)),
            "{:?}",
            text
        );
    }
}

#[test]
fn precipitation_in_exponent_form() {
    let mut response = sample_response();
    response.current_condition[0].precip_mm = read_amount("1e1");
    let report = WeatherApiClient::new()
        .to_domain("Cenon", &response)
        .unwrap();
    assert_eq!(report.current.precipitation_mm.text, "10");
    assert!(format_weather_report(&report).contains("Précipitations : 10 mm"));
}

#[test]
fn precipitation_that_was_not_read_is_zero() {
    let mut response = sample_response();
    response.current_condition[0].precip_mm = None;
    let report = WeatherApiClient::new()
        .to_domain("Cenon", &response)
        .unwrap();
    assert_eq!(report.current.precipitation_mm, Precipitation::zero());
    assert!(format_weather_report(&report).contains("Précipitations : 0 mm"));
}

#[test]
fn a_bad_field_leaves_the_other_fields_alone() {
    let good = WeatherApiClient::new()
        .to_domain("Cenon", &sample_response())
        .unwrap();
    let mut response = sample_response();
    response.current_condition[0].humidity = "N/A".to_string();
    let report = WeatherApiClient::new()
        .to_domain("Cenon", &response)
        .unwrap();
    let mut expected = good.clone();
    expected.current.humidity = 0;
    assert_eq!(report, expected);
    let mut response = sample_response();
    response.current_condition[0].precip_mm = None;
    let report = WeatherApiClient::new()
        .to_domain("Cenon", &response)
        .unwrap();
    assert_eq!(report, good);
}

#[test]
fn numbers_outside_their_type_read_as_zero() {
    let mut response = sample_response();
    response.current_condition[0].temp_c = "128".to_string();
    response.current_condition[0].feels_like_c = "-129".to_string();
    response.current_condition[0].humidity = "256".to_string();
    response.current_condition[0].pressure = "65536".to_string();
    response.current_condition[0].uv_index = "-1".to_string();
    let report = WeatherApiClient::new()
        .to_domain("Cenon", &response)
        .unwrap();
    assert_eq!(report.current.temperature.celsius, 0);
    assert_eq!(report.current.temperature.feels_like, 0);
    assert_eq!(report.current.humidity, 0);
    assert_eq!(report.current.pressure_hpa, 0);
    assert_eq!(report.current.uv_index, 0);
}

#[test]
fn descriptions_and_astronomy_are_trimmed() {
    let mut response = sample_response();
    response.current_condition[0].weather_desc = wrapped("  Light drizzle \n");
    response.weather[0].astronomy[0] = ApiAstronomy {
        sunrise: " 08:28 AM ".to_string(),
        sunset: "\t06:02 PM".to_string(),
        moon_phase: "First Quarter  ".to_string(),
    };
    response.weather[0].hourly[0].weather_desc = wrapped(" Patchy rain nearby ");
    let report = WeatherApiClient::new()
        .to_domain("Cenon", &response)
        .unwrap();
    assert_eq!(report.current.description, "Light drizzle");
    assert_eq!(report.daily.astronomy.sunrise, "08:28 AM");
    assert_eq!(report.daily.astronomy.sunset, "06:02 PM");
    assert_eq!(report.daily.astronomy.moon_phase, "First Quarter");
    assert_eq!(report.hourly[0].description, "Patchy rain nearby");
}

#[test]
fn date_and_direction_are_trimmed() {
    let mut response = sample_response();
    response.weather[0].date = " 2026-01-26\n".to_string();
    response.current_condition[0].winddir_16point = "\tSSE ".to_string();
    let report = WeatherApiClient::new()
        .to_domain("Cenon", &response)
        .unwrap();
    assert_eq!(report.date, "2026-01-26");
    assert_eq!(report.current.wind.direction, "SSE");
}

#[test]
fn location_is_kept_as_it_is_given() {
    let report = WeatherApiClient::new()
        .to_domain(" Cenon ", &sample_response())
        .unwrap();
    assert_eq!(report.location, " Cenon ");
    assert!(format_weather_report(&report).contains("Weather  Cenon  — "));
}

#[test]
fn unknown_hour_code_is_not_trimmed() {
    let mut response = sample_response();
    response.weather[0].hourly[0].time = " 0 ".to_string();
    let report = WeatherApiClient::new()
        .to_domain("Cenon", &response)
        .unwrap();
    assert_eq!(report.hourly[0].hour, " 0 ");
}

#[test]
fn built_message_holds_location_descriptions_and_sun() {
    let mut response = sample_response();
    response.weather[0].hourly = vec![
        api_hourly("0", "7", "100", "Patchy rain nearby"),
        api_hourly("300", "6", "80", " Light rain "),
        api_hourly("600", "5", "10", "Overcast"),
    ];
    let report = WeatherApiClient::new()
        .to_domain("Bordeaux", &response)
        .unwrap();
    let message = format_weather_report(&report);
    assert!(message.contains("Bordeaux"));
    assert!(message.contains("08:28 AM"));
    assert!(message.contains("06:02 PM"));
    assert!(message.contains("Patchy rain nearby"));
    assert!(message.contains("Light rain"));
    assert!(message.contains("Overcast"));
}

#[test]
fn hourly_entries_keep_the_provider_order() {
    let mut response = sample_response();
    response.weather[0].hourly = vec![
        api_hourly("2100", "1", "1", "c"),
        api_hourly("0", "2", "2", "a"),
        api_hourly("2100", "1", "1", "c"),
        api_hourly("900", "3", "3", "b"),
    ];
    let report = WeatherApiClient::new()
        .to_domain("Cenon", &response)
        .unwrap();
    let hours: Vec<&str> = report.hourly.iter().map(|h| h.hour.as_str()).collect();
    assert_eq!(hours, vec!["21:00", "00:00", "21:00", "09:00"]);
}

#[test]
fn no_hourly_entries_is_no_error() {
    let mut response = sample_response();
    response.weather[0].hourly = Vec::new();
    let report = WeatherApiClient::new()
        .to_domain("Cenon", &response)
        .unwrap();
    assert!(report.hourly.is_empty());
}

#[test]
fn empty_current_condition_is_incomplete_data() {
    let mut response = sample_response();
    response.current_condition = Vec::new();
    assert_eq!(
        WeatherApiClient::new().to_domain("Cenon", &response),
        Err(WeatherApiError::IncompleteData)
    );
}

#[test]
fn empty_weather_is_incomplete_data() {
    let mut response = sample_response();
    response.weather = Vec::new();
    assert_eq!(
        WeatherApiClient::new().to_domain("Cenon", &response),
        Err(WeatherApiError::IncompleteData)
    );
}

#[test]
fn both_collections_empty_is_incomplete_data() {
    let response = ApiResponse {
        current_condition: Vec::new(),
        weather: Vec::new(),
    };
    assert_eq!(
        WeatherApiClient::new().to_domain("Cenon", &response),
        Err(WeatherApiError::IncompleteData)
    );
}

#[test]
fn empty_astronomy_is_incomplete_data() {
    let mut response = sample_response();
    response.weather[0].astronomy = Vec::new();
    assert_eq!(
        WeatherApiClient::new().to_domain("Cenon", &response),
        Err(WeatherApiError::IncompleteData)
    );
}

#[test]
fn current_condition_without_description_is_incomplete_data() {
    let mut response = sample_response();
    response.current_condition[0].weather_desc = Vec::new();
    assert_eq!(
        WeatherApiClient::new().to_domain("Cenon", &response),
        Err(WeatherApiError::IncompleteData)
    );
}

#[test]
fn hourly_entry_without_description_is_incomplete_data() {
    let mut response = sample_response();
    response.weather[0].hourly = vec![
        api_hourly("0", "7", "100", "Patchy rain nearby"),
        ApiHourly {
            time: "300".to_string(),
            temp_c: "6".to_string(),
            chance_of_rain: "90".to_string(),
            weather_desc: Vec::new(),
        },
    ];
    assert_eq!(
        WeatherApiClient::new().to_domain("Cenon", &response),
        Err(WeatherApiError::IncompleteData)
    );
}

#[test]
fn hour_codes_map_to_their_labels() {
    let table = [
        ("0", "00:00"),
        ("300", "03:00"),
        ("600", "06:00"),
        ("900", "09:00"),
        ("1200", "12:00"),
        ("1500", "15:00"),
        ("1800", "18:00"),
        ("2100", "21:00"),
    ];
    for (code, label) in table {
        assert_eq!(normalize_hour(code), label);
    }
}

#[test]
fn other_hour_codes_pass_through() {
    for code in [
        "130", "", "00", "000", "0 ", " 0", "30", "2400", "1201", "12:00", "midnight", "+300",
        "٣٠٠",
    ] {
        assert_eq!(normalize_hour(code), code);
    }
}

#[test]
fn parse_hourly_builds_one_entry() {
    let client = WeatherApiClient::new();
    let entry = client
        .parse_hourly(&api_hourly("1500", "-4", "35", " Sleet "))
        .unwrap();
    assert_eq!(
        entry,
        HourlyForecast {
            hour: "15:00".to_string(),
            temperature: -4,
            chance_of_rain: 35,
            description: "Sleet".to_string(),
        }
    );
}

#[test]
fn parse_hourly_keeps_an_unknown_code() {
    let client = WeatherApiClient::new();
    let entry = client
        .parse_hourly(&api_hourly("130", "1", "2", "Fog"))
        .unwrap();
    assert_eq!(entry.hour, "130");
}

#[test]
fn parse_hourly_without_description_is_incomplete_data() {
    let client = WeatherApiClient::new();
    let mut entry = api_hourly("0", "1", "2", "Fog");
    entry.weather_desc = Vec::new();
    assert_eq!(
        client.parse_hourly(&entry),
        Err(WeatherApiError::IncompleteData)
    );
}

#[test]
fn request_url_names_the_location() {
    let client = WeatherApiClient::new();
    assert_eq!(
        client.request_url("Cenon"),
        "https://wttr.in/Cenon?format=j1"
    );
    assert_eq!(client.request_url(""), "https://wttr.in/?format=j1");
}

#[test]
fn fetch_turns_an_answer_into_a_report() {
    let client = WeatherApiClient::new();
    let report = client.fetch("Cenon", Ok(sample_response())).unwrap();
    assert_eq!(
        Ok(report),
        client.to_domain("Cenon", &sample_response())
    );
}

#[test]
fn fetch_hands_a_transport_failure_on() {
    let client = WeatherApiClient::new();
    assert_eq!(
        client.fetch("Cenon", Err("connection refused".to_string())),
        Err(WeatherApiError::Request("connection refused".to_string()))
    );
}

#[test]
fn fetch_of_an_incomplete_answer_is_incomplete_data() {
    let client = WeatherApiClient::new();
    let mut response = sample_response();
    response.weather = Vec::new();
    assert_eq!(
        client.fetch("Cenon", Ok(response)),
        Err(WeatherApiError::IncompleteData)
    );
}

#[test]
fn weather_error_messages() {
    assert_eq!(
        WeatherApiError::Request("timed out".to_string()).message(),
        "Weather API request failed: timed out"
    );
    assert_eq!(
        WeatherApiError::IncompleteData.message(),
        "Weather API response is incomplete"
    );
}

#[test]
fn default_client_is_a_new_client() {
    assert_eq!(WeatherApiClient::default(), WeatherApiClient::new());
}
