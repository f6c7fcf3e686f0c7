//! The message for the default location, straight from the provider's answer.

use crate::application::weather_service::DEFAULT_LOCATION;
use crate::infrastructure::weather_api::{
    domain_outcome, ApiResponse, WeatherApiError, WeatherApiErrorView,
};
use crate::infrastructure::WeatherApiClient;
use crate::presentation::format_weather_report;
use crate::presentation::formatter::report_text;
use vstd::prelude::*;

verus! {

/// The message for the provider's answer at the default location, where the
/// answer is complete.
pub open spec fn weather_text(weather: crate::infrastructure::weather_api::ApiResponseView) -> Result<
    Seq<char>,
    WeatherApiErrorView,
> {
    match domain_outcome(DEFAULT_LOCATION@, weather) {
        Ok(report) => Ok(report_text(report)),
        Err(error) => Err(error),
    }
}

/// Formats the provider's answer as the message for the default location.
/// Fails with `IncompleteData`, and only then, when the answer is not complete.
pub fn format_weather(weather: &ApiResponse) -> (r: Result<String, WeatherApiError>)
    ensures
        match r {
            Ok(message) => weather_text(weather@) == Ok::<Seq<char>, WeatherApiErrorView>(
                message@,
            ),
            Err(error) => weather_text(weather@) == Err::<Seq<char>, WeatherApiErrorView>(error@),
        },
{
    let client = WeatherApiClient::new();
    match client.to_domain(DEFAULT_LOCATION, weather) {
        Ok(report) => Ok(format_weather_report(&report)),
        Err(error) => Err(error),
    }
}

} // verus!
