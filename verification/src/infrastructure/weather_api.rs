//! The weather provider's answer, with every leaf as text, and the rules that
//! turn it into a `WeatherReport`.

use crate::domain::{
    Astronomy, AstronomyView, CurrentWeather, CurrentWeatherView, DailyForecast,
    DailyForecastView, HourlyForecast, HourlyForecastView, Temperature, TemperatureView,
    WeatherReport, WeatherReportView, Wind, WindView,
};
use crate::numeric::{
    lenient_i8, lenient_u16, lenient_u8, parse_i8_or_zero, parse_u16_or_zero, parse_u8_or_zero,
};
use crate::precipitation::{amount_view, lenient_amount, Precipitation};
use crate::text::{is_trimmed, lemma_trimmed_is_trimmed, same_text, trim, trimmed};
use vstd::prelude::*;
use vstd::string::StringExecFns;

verus! {

/// How the client names itself to the provider.
pub const USER_AGENT: &'static str = "weather-lambda";

/// What the provider answers for one location.
#[derive(Clone, Debug, PartialEq, Eq)]
pub struct ApiResponse {
    pub current_condition: Vec<ApiCurrentCondition>,
    pub weather: Vec<ApiWeather>,
}

/// The conditions at the time of the request.
#[derive(Clone, Debug, PartialEq, Eq)]
pub struct ApiCurrentCondition {
    pub temp_c: String,
    pub feels_like_c: String,
    pub humidity: String,
    pub weather_desc: Vec<ApiValueWrapper>,
    pub windspeed_kmph: String,
    pub winddir_16point: String,
    /// The amount that the provider's text was read as; `None` where it
    /// could not be read as an amount.
    pub precip_mm: Option<Precipitation>,
    pub uv_index: String,
    pub pressure: String,
    pub visibility: String,
}

/// The forecast for one day.
#[derive(Clone, Debug, PartialEq, Eq)]
pub struct ApiWeather {
    pub date: String,
    pub maxtemp_c: String,
    pub mintemp_c: String,
    pub avg_temp_c: String,
    pub astronomy: Vec<ApiAstronomy>,
    pub hourly: Vec<ApiHourly>,
}

/// Sun and moon of one day.
#[derive(Clone, Debug, PartialEq, Eq)]
pub struct ApiAstronomy {
    pub sunrise: String,
    pub sunset: String,
    pub moon_phase: String,
}

/// The forecast for one time of day.
#[derive(Clone, Debug, PartialEq, Eq)]
pub struct ApiHourly {
    pub time: String,
    pub temp_c: String,
    pub chance_of_rain: String,
    pub weather_desc: Vec<ApiValueWrapper>,
}

/// A text that the provider wraps in an object of its own.
#[derive(Clone, Debug, PartialEq, Eq)]
pub struct ApiValueWrapper {
    pub value: String,
}

/// What an `ApiResponse` holds, as mathematical values.
pub struct ApiResponseView {
    pub current_condition: Seq<ApiCurrentConditionView>,
    pub weather: Seq<ApiWeatherView>,
}

/// What an `ApiCurrentCondition` holds, as mathematical values.
pub struct ApiCurrentConditionView {
    pub temp_c: Seq<char>,
    pub feels_like_c: Seq<char>,
    pub humidity: Seq<char>,
    pub weather_desc: Seq<Seq<char>>,
    pub windspeed_kmph: Seq<char>,
    pub winddir_16point: Seq<char>,
    pub precip_mm: Option<Seq<char>>,
    pub uv_index: Seq<char>,
    pub pressure: Seq<char>,
    pub visibility: Seq<char>,
}

/// What an `ApiWeather` holds, as mathematical values.
pub struct ApiWeatherView {
    pub date: Seq<char>,
    pub maxtemp_c: Seq<char>,
    pub mintemp_c: Seq<char>,
    pub avg_temp_c: Seq<char>,
    pub astronomy: Seq<ApiAstronomyView>,
    pub hourly: Seq<ApiHourlyView>,
}

/// What an `ApiAstronomy` holds, as mathematical values.
pub struct ApiAstronomyView {
    pub sunrise: Seq<char>,
    pub sunset: Seq<char>,
    pub moon_phase: Seq<char>,
}

/// What an `ApiHourly` holds, as mathematical values.
pub struct ApiHourlyView {
    pub time: Seq<char>,
    pub temp_c: Seq<char>,
    pub chance_of_rain: Seq<char>,
    pub weather_desc: Seq<Seq<char>>,
}

impl View for ApiValueWrapper {
    type V = Seq<char>;

    open spec fn view(&self) -> Seq<char> {
        self.value@
    }
}

/// The wrapped texts of `values`, in their order.
pub open spec fn wrapped_values(values: Seq<ApiValueWrapper>) -> Seq<Seq<char>> {
    Seq::new(values.len(), |i: int| values[i]@)
}

impl View for ApiHourly {
    type V = ApiHourlyView;

    open spec fn view(&self) -> ApiHourlyView {
        ApiHourlyView {
            time: self.time@,
            temp_c: self.temp_c@,
            chance_of_rain: self.chance_of_rain@,
            weather_desc: wrapped_values(self.weather_desc@),
        }
    }
}

impl View for ApiAstronomy {
    type V = ApiAstronomyView;

    open spec fn view(&self) -> ApiAstronomyView {
        ApiAstronomyView {
            sunrise: self.sunrise@,
            sunset: self.sunset@,
            moon_phase: self.moon_phase@,
        }
    }
}

impl View for ApiWeather {
    type V = ApiWeatherView;

    open spec fn view(&self) -> ApiWeatherView {
        ApiWeatherView {
            date: self.date@,
            maxtemp_c: self.maxtemp_c@,
            mintemp_c: self.mintemp_c@,
            avg_temp_c: self.avg_temp_c@,
            astronomy: Seq::new(self.astronomy@.len(), |i: int| self.astronomy@[i]@),
            hourly: Seq::new(self.hourly@.len(), |i: int| self.hourly@[i]@),
        }
    }
}

impl View for ApiCurrentCondition {
    type V = ApiCurrentConditionView;

    open spec fn view(&self) -> ApiCurrentConditionView {
        ApiCurrentConditionView {
            temp_c: self.temp_c@,
            feels_like_c: self.feels_like_c@,
            humidity: self.humidity@,
            weather_desc: wrapped_values(self.weather_desc@),
            windspeed_kmph: self.windspeed_kmph@,
            winddir_16point: self.winddir_16point@,
            precip_mm: amount_view(self.precip_mm),
            uv_index: self.uv_index@,
            pressure: self.pressure@,
            visibility: self.visibility@,
        }
    }
}

impl View for ApiResponse {
    type V = ApiResponseView;

    open spec fn view(&self) -> ApiResponseView {
        ApiResponseView {
            current_condition: Seq::new(
                self.current_condition@.len(),
                |i: int| self.current_condition@[i]@,
            ),
            weather: Seq::new(self.weather@.len(), |i: int| self.weather@[i]@),
        }
    }
}

/// Why no report could be had from the provider.
#[derive(Clone, Debug, PartialEq, Eq)]
pub enum WeatherApiError {
    /// The request failed on its way; the text is the transport's account of it.
    Request(String),
    /// A collection that the report takes its first element from was empty.
    IncompleteData,
}

/// What a `WeatherApiError` holds, as mathematical values.
pub enum WeatherApiErrorView {
    Request(Seq<char>),
    IncompleteData,
}

impl View for WeatherApiError {
    type V = WeatherApiErrorView;

    open spec fn view(&self) -> WeatherApiErrorView {
        match *self {
            WeatherApiError::Request(cause) => WeatherApiErrorView::Request(cause@),
            WeatherApiError::IncompleteData => WeatherApiErrorView::IncompleteData,
        }
    }
}

/// The time of day that the provider's code stands for: the eight codes of
/// its three-hour steps as `HH:MM`, and any other code as it is.
pub open spec fn hour_label(code: Seq<char>) -> Seq<char> {
    if code == "0"@ {
        "00:00"@
    } else if code == "300"@ {
        "03:00"@
    } else if code == "600"@ {
        "06:00"@
    } else if code == "900"@ {
        "09:00"@
    } else if code == "1200"@ {
        "12:00"@
    } else if code == "1500"@ {
        "15:00"@
    } else if code == "1800"@ {
        "18:00"@
    } else if code == "2100"@ {
        "21:00"@
    } else {
        code
    }
}

/// Whether `code` is one of the provider's eight codes for a time of day.
pub open spec fn is_hour_code(code: Seq<char>) -> bool {
    ||| code == seq!['0']
    ||| code == seq!['3', '0', '0']
    ||| code == seq!['6', '0', '0']
    ||| code == seq!['9', '0', '0']
    ||| code == seq!['1', '2', '0', '0']
    ||| code == seq!['1', '5', '0', '0']
    ||| code == seq!['1', '8', '0', '0']
    ||| code == seq!['2', '1', '0', '0']
}

/// Each of the eight codes has its label, character for character, and
/// every other code is its own label.
pub proof fn hour_labels_are_exact(code: Seq<char>)
    ensures
        !is_hour_code(code) ==> hour_label(code) == code,
        hour_label(seq!['0']) == seq!['0', '0', ':', '0', '0'],
        hour_label(seq!['3', '0', '0']) == seq!['0', '3', ':', '0', '0'],
        hour_label(seq!['6', '0', '0']) == seq!['0', '6', ':', '0', '0'],
        hour_label(seq!['9', '0', '0']) == seq!['0', '9', ':', '0', '0'],
        hour_label(seq!['1', '2', '0', '0']) == seq!['1', '2', ':', '0', '0'],
        hour_label(seq!['1', '5', '0', '0']) == seq!['1', '5', ':', '0', '0'],
        hour_label(seq!['1', '8', '0', '0']) == seq!['1', '8', ':', '0', '0'],
        hour_label(seq!['2', '1', '0', '0']) == seq!['2', '1', ':', '0', '0'],
{
    reveal_strlit("0");
    reveal_strlit("300");
    reveal_strlit("600");
    reveal_strlit("900");
    reveal_strlit("1200");
    reveal_strlit("1500");
    reveal_strlit("1800");
    reveal_strlit("2100");
    reveal_strlit("00:00");
    reveal_strlit("03:00");
    reveal_strlit("06:00");
    reveal_strlit("09:00");
    reveal_strlit("12:00");
    reveal_strlit("15:00");
    reveal_strlit("18:00");
    reveal_strlit("21:00");
    assert("0"@ =~= seq!['0']);
    assert("300"@ =~= seq!['3', '0', '0']);
    assert("600"@ =~= seq!['6', '0', '0']);
    assert("900"@ =~= seq!['9', '0', '0']);
    assert("1200"@ =~= seq!['1', '2', '0', '0']);
    assert("1500"@ =~= seq!['1', '5', '0', '0']);
    assert("1800"@ =~= seq!['1', '8', '0', '0']);
    assert("2100"@ =~= seq!['2', '1', '0', '0']);
    assert("00:00"@ =~= seq!['0', '0', ':', '0', '0']);
    assert("03:00"@ =~= seq!['0', '3', ':', '0', '0']);
    assert("06:00"@ =~= seq!['0', '6', ':', '0', '0']);
    assert("09:00"@ =~= seq!['0', '9', ':', '0', '0']);
    assert("12:00"@ =~= seq!['1', '2', ':', '0', '0']);
    assert("15:00"@ =~= seq!['1', '5', ':', '0', '0']);
    assert("18:00"@ =~= seq!['1', '8', ':', '0', '0']);
    assert("21:00"@ =~= seq!['2', '1', ':', '0', '0']);
    assert(seq!['3', '0', '0'][0] == '3');
    assert(seq!['6', '0', '0'][0] == '6');
    assert(seq!['9', '0', '0'][0] == '9');
    assert(seq!['1', '2', '0', '0'][1] == '2');
    assert(seq!['1', '5', '0', '0'][1] == '5');
    assert(seq!['1', '8', '0', '0'][1] == '8');
    assert(seq!['2', '1', '0', '0'][0] == '2');
}

/// Whether an hourly entry has the description that its forecast needs.
pub open spec fn hourly_complete(hourly: ApiHourlyView) -> bool {
    hourly.weather_desc.len() > 0
}

/// The forecast that an hourly entry with a description stands for.
pub open spec fn hourly_forecast(hourly: ApiHourlyView) -> HourlyForecastView {
    HourlyForecastView {
        hour: hour_label(hourly.time),
        temperature: lenient_i8(hourly.temp_c),
        chance_of_rain: lenient_u8(hourly.chance_of_rain),
        description: trimmed(hourly.weather_desc[0]),
    }
}

/// Whether a response has every element that a report is built from: current
/// conditions with a description, a day with its astronomy, and a
/// description in each of that day's hourly entries. The day may have no
/// hourly entry at all.
pub open spec fn is_complete(response: ApiResponseView) -> bool {
    &&& response.current_condition.len() > 0
    &&& response.current_condition[0].weather_desc.len() > 0
    &&& response.weather.len() > 0
    &&& response.weather[0].astronomy.len() > 0
    &&& forall|i: int|
        0 <= i < response.weather[0].hourly.len() ==> hourly_complete(
            #[trigger] response.weather[0].hourly[i],
        )
}

/// The current conditions of a report, from the provider's.
pub open spec fn current_weather(current: ApiCurrentConditionView) -> CurrentWeatherView {
    CurrentWeatherView {
        description: trimmed(current.weather_desc[0]),
        temperature: TemperatureView {
            celsius: lenient_i8(current.temp_c),
            feels_like: lenient_i8(current.feels_like_c),
        },
        humidity: lenient_u8(current.humidity),
        wind: WindView {
            speed_kmh: lenient_u16(current.windspeed_kmph),
            direction: trimmed(current.winddir_16point),
        },
        precipitation_mm: lenient_amount(current.precip_mm),
        uv_index: lenient_u8(current.uv_index),
        pressure_hpa: lenient_u16(current.pressure),
        visibility_km: lenient_u8(current.visibility),
    }
}

/// The daily summary of a report, from the provider's day.
pub open spec fn daily_forecast(today: ApiWeatherView) -> DailyForecastView {
    DailyForecastView {
        temp_min: lenient_i8(today.mintemp_c),
        temp_max: lenient_i8(today.maxtemp_c),
        temp_avg: lenient_i8(today.avg_temp_c),
        astronomy: AstronomyView {
            sunrise: trimmed(today.astronomy[0].sunrise),
            sunset: trimmed(today.astronomy[0].sunset),
            moon_phase: trimmed(today.astronomy[0].moon_phase),
        },
    }
}

/// The report that a complete response stands for at `location`: the first
/// current condition, the first day, and that day's hourly entries in the
/// provider's order. The location is kept as it is given. Of the provider's
/// texts the time code alone is not trimmed: it is replaced by its label.
pub open spec fn report_of(location: Seq<char>, response: ApiResponseView) -> WeatherReportView {
    WeatherReportView {
        location: location,
        date: trimmed(response.weather[0].date),
        current: current_weather(response.current_condition[0]),
        daily: daily_forecast(response.weather[0]),
        hourly: Seq::new(
            response.weather[0].hourly.len(),
            |i: int| hourly_forecast(response.weather[0].hourly[i]),
        ),
    }
}

/// Whether the texts that a report takes from the provider, other than the
/// hours, neither begin nor end with whitespace.
pub open spec fn texts_are_trimmed(report: WeatherReportView) -> bool {
    &&& is_trimmed(report.date)
    &&& is_trimmed(report.current.description)
    &&& is_trimmed(report.current.wind.direction)
    &&& is_trimmed(report.daily.astronomy.sunrise)
    &&& is_trimmed(report.daily.astronomy.sunset)
    &&& is_trimmed(report.daily.astronomy.moon_phase)
    &&& forall|i: int|
        0 <= i < report.hourly.len() ==> is_trimmed((#[trigger] report.hourly[i]).description)
}

/// In the report of a response, whatever the response holds, the texts that
/// come from the provider are trimmed, and there are as many hourly entries
/// as the provider's first day has, each with the label of its time code.
pub proof fn built_report_is_normalized(location: Seq<char>, response: ApiResponseView)
    ensures
        ({
            let report = report_of(location, response);
            let today = response.weather[0];
            &&& texts_are_trimmed(report)
            &&& report.location == location
            &&& report.hourly.len() == today.hourly.len()
            &&& forall|i: int|
                0 <= i < today.hourly.len() ==> (#[trigger] report.hourly[i]).hour == hour_label(
                    today.hourly[i].time,
                )
        }),
{
    let report = report_of(location, response);
    let current = response.current_condition[0];
    let today = response.weather[0];
    lemma_trimmed_is_trimmed(today.date);
    lemma_trimmed_is_trimmed(current.weather_desc[0]);
    lemma_trimmed_is_trimmed(current.winddir_16point);
    lemma_trimmed_is_trimmed(today.astronomy[0].sunrise);
    lemma_trimmed_is_trimmed(today.astronomy[0].sunset);
    lemma_trimmed_is_trimmed(today.astronomy[0].moon_phase);
    assert forall|i: int| 0 <= i < report.hourly.len() implies is_trimmed(
        (#[trigger] report.hourly[i]).description,
    ) by {
        lemma_trimmed_is_trimmed(today.hourly[i].weather_desc[0]);
    }
}

/// The address that the forecast for `location` is asked at.
pub open spec fn request_url_text(location: Seq<char>) -> Seq<char> {
    "https://wttr.in/"@ + location + "?format=j1"@
}

/// What an error says of itself.
pub open spec fn weather_error_text(error: WeatherApiErrorView) -> Seq<char> {
    match error {
        WeatherApiErrorView::Request(cause) => "Weather API request failed: "@ + cause,
        WeatherApiErrorView::IncompleteData => "Weather API response is incomplete"@,
    }
}

/// The transport's outcome, as mathematical values.
pub open spec fn answer_view(response: Result<ApiResponse, String>) -> Result<
    ApiResponseView,
    Seq<char>,
> {
    match response {
        Ok(answer) => Ok(answer@),
        Err(cause) => Err(cause@),
    }
}

/// What the transport's outcome means for the report: an answer that is
/// complete gives its report, one that is not gives `IncompleteData`, and a
/// transport failure gives `Request` with the transport's account of it.
pub open spec fn fetch_outcome(location: Seq<char>, response: Result<ApiResponseView, Seq<char>>) -> Result<
    WeatherReportView,
    WeatherApiErrorView,
> {
    match response {
        Ok(answer) => domain_outcome(location, answer),
        Err(cause) => Err(WeatherApiErrorView::Request(cause)),
    }
}

/// The report of a complete answer, and `IncompleteData` for any other.
pub open spec fn domain_outcome(location: Seq<char>, response: ApiResponseView) -> Result<
    WeatherReportView,
    WeatherApiErrorView,
> {
    if is_complete(response) {
        Ok(report_of(location, response))
    } else {
        Err(WeatherApiErrorView::IncompleteData)
    }
}

impl WeatherApiError {
    /// What the error says of itself.
    pub fn message(&self) -> (r: String)
        ensures
            r@ == weather_error_text(self@),
    {
        match self {
            WeatherApiError::Request(cause) => {
                let mut out = String::from_str("Weather API request failed: ");
                out.append(cause.as_str());
                out
            },
            WeatherApiError::IncompleteData => String::from_str(
                "Weather API response is incomplete",
            ),
        }
    }
}

/// The time of day that the provider's `code` stands for.
pub fn normalize_hour(code: &str) -> (r: String)
    ensures
        r@ == hour_label(code@),
{
    if same_text(code, "0") {
        String::from_str("00:00")
    } else if same_text(code, "300") {
        String::from_str("03:00")
    } else if same_text(code, "600") {
        String::from_str("06:00")
    } else if same_text(code, "900") {
        String::from_str("09:00")
    } else if same_text(code, "1200") {
        String::from_str("12:00")
    } else if same_text(code, "1500") {
        String::from_str("15:00")
    } else if same_text(code, "1800") {
        String::from_str("18:00")
    } else if same_text(code, "2100") {
        String::from_str("21:00")
    } else {
        String::from_str(code)
    }
}

/// Client for the wttr.in weather API: where to ask, and what the answer means.
#[derive(Clone, Copy, Debug, PartialEq, Eq)]
pub struct WeatherApiClient {}

impl WeatherApiClient {
    /// A client.
    pub fn new() -> (r: WeatherApiClient) {
        WeatherApiClient {}
    }

    /// The address that the forecast for `location` is asked at.
    pub fn request_url(&self, location: &str) -> (r: String)
        ensures
            r@ == request_url_text(location@),
    {
        let mut out = String::from_str("https://wttr.in/");
        out.append(location);
        out.append("?format=j1");
        out
    }

    /// Concludes a request for `location`: a transport failure is handed on
    /// as `Request`, an answer is turned into a report.
    pub fn fetch(&self, location: &str, response: Result<ApiResponse, String>) -> (r: Result<
        WeatherReport,
        WeatherApiError,
    >)
        ensures
            match r {
                Ok(report) => fetch_outcome(location@, answer_view(response)) == Ok::<
                    WeatherReportView,
                    WeatherApiErrorView,
                >(report@),
                Err(error) => fetch_outcome(location@, answer_view(response)) == Err::<
                    WeatherReportView,
                    WeatherApiErrorView,
                >(error@),
            },
    {
        match response {
            Ok(answer) => self.to_domain(location, &answer),
            Err(cause) => Err(WeatherApiError::Request(cause)),
        }
    }

    /// Builds the report for `location` from the provider's answer. Fails
    /// with `IncompleteData`, and only then, when the answer is not complete.
    #[verifier::loop_isolation(false)]
    pub fn to_domain(&self, location: &str, response: &ApiResponse) -> (r: Result<
        WeatherReport,
        WeatherApiError,
    >)
        ensures
            match r {
                Ok(report) => domain_outcome(location@, response@) == Ok::<
                    WeatherReportView,
                    WeatherApiErrorView,
                >(report@),
                Err(error) => domain_outcome(location@, response@) == Err::<
                    WeatherReportView,
                    WeatherApiErrorView,
                >(error@),
            },
    {
        if response.current_condition.len() == 0 || response.weather.len() == 0 {
            return Err(WeatherApiError::IncompleteData);
        }
        let current = &response.current_condition[0];
        let today = &response.weather[0];
        if current.weather_desc.len() == 0 || today.astronomy.len() == 0 {
            return Err(WeatherApiError::IncompleteData);
        }
        let astro = &today.astronomy[0];
        proof {
            assert(response@.current_condition[0] == current@);
            assert(response@.weather[0] == today@);
            assert(today@.astronomy[0] == astro@);
            assert(current@.weather_desc[0] == current.weather_desc@[0]@);
        }
        let mut hourly: Vec<HourlyForecast> = Vec::new();
        let mut at: usize = 0;
        while at < today.hourly.len()
            invariant
                at <= today.hourly.len(),
                hourly@.len() == at,
                forall|i: int| 0 <= i < at ==> hourly_complete(#[trigger] today@.hourly[i]),
                forall|i: int|
                    0 <= i < at ==> (#[trigger] hourly@[i])@ == hourly_forecast(today@.hourly[i]),
            decreases today.hourly.len() - at,
        {
            proof {
                assert(today@.hourly[at as int] == today.hourly@[at as int]@);
            }
            match self.parse_hourly(&today.hourly[at]) {
                Ok(entry) => {
                    hourly.push(entry);
                },
                Err(error) => {
                    proof {
                        assert(!hourly_complete(response@.weather[0].hourly[at as int]));
                    }
                    return Err(error);
                },
            }
            at = at + 1;
        }
        let report = WeatherReport {
            location: String::from_str(location),
            date: trim(today.date.as_str()),
            current: CurrentWeather {
                description: trim(current.weather_desc[0].value.as_str()),
                temperature: Temperature {
                    celsius: parse_i8_or_zero(current.temp_c.as_str()),
                    feels_like: parse_i8_or_zero(current.feels_like_c.as_str()),
                },
                humidity: parse_u8_or_zero(current.humidity.as_str()),
                wind: Wind {
                    speed_kmh: parse_u16_or_zero(current.windspeed_kmph.as_str()),
                    direction: trim(current.winddir_16point.as_str()),
                },
                precipitation_mm: Precipitation::or_zero(&current.precip_mm),
                uv_index: parse_u8_or_zero(current.uv_index.as_str()),
                pressure_hpa: parse_u16_or_zero(current.pressure.as_str()),
                visibility_km: parse_u8_or_zero(current.visibility.as_str()),
            },
            daily: DailyForecast {
                temp_min: parse_i8_or_zero(today.mintemp_c.as_str()),
                temp_max: parse_i8_or_zero(today.maxtemp_c.as_str()),
                temp_avg: parse_i8_or_zero(today.avg_temp_c.as_str()),
                astronomy: Astronomy {
                    sunrise: trim(astro.sunrise.as_str()),
                    sunset: trim(astro.sunset.as_str()),
                    moon_phase: trim(astro.moon_phase.as_str()),
                },
            },
            hourly,
        };
        proof {
            assert(report@.hourly =~= report_of(location@, response@).hourly);
            assert(report@.current == current_weather(current@));
            assert(report@.daily == daily_forecast(today@));
            assert(is_complete(response@));
        }
        Ok(report)
    }

    /// Builds the forecast of one hourly entry. Fails with `IncompleteData`,
    /// and only then, when the entry has no description.
    pub fn parse_hourly(&self, h: &ApiHourly) -> (r: Result<HourlyForecast, WeatherApiError>)
        ensures
            match r {
                Ok(entry) => hourly_complete(h@) && entry@ == hourly_forecast(h@),
                Err(error) => !hourly_complete(h@) && error@
                    == WeatherApiErrorView::IncompleteData,
            },
    {
        if h.weather_desc.len() == 0 {
            return Err(WeatherApiError::IncompleteData);
        }
        proof {
            assert(h@.weather_desc[0] == h.weather_desc@[0]@);
        }
        Ok(
            HourlyForecast {
                hour: normalize_hour(h.time.as_str()),
                temperature: parse_i8_or_zero(h.temp_c.as_str()),
                chance_of_rain: parse_u8_or_zero(h.chance_of_rain.as_str()),
                description: trim(h.weather_desc[0].value.as_str()),
            },
        )
    }
}

impl Default for WeatherApiClient {
    fn default() -> (r: WeatherApiClient) {
        WeatherApiClient::new()
    }
}

} // verus!
