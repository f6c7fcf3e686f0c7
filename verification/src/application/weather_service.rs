//! The run from provider to webhook, as the decisions between its two
//! requests: what to ask for, what to post, and when to stop.

use crate::infrastructure::discord::{
    discord_error_message, json_object_text, response_view, send_outcome, DiscordError,
    DiscordErrorView, WebhookResponse, WebhookResponseView, CONTENT_KEY,
};
use crate::infrastructure::weather_api::{
    answer_view, fetch_outcome, is_complete, report_of, request_url_text, weather_error_text,
    ApiResponse, ApiResponseView, WeatherApiError, WeatherApiErrorView,
};
use crate::infrastructure::{DiscordNotifier, WeatherApiClient};
use crate::presentation::format_weather_report;
use crate::presentation::formatter::{report_text, report_text_holds_its_parts};
use crate::text::{contains, trimmed};
use vstd::prelude::*;
use vstd::std_specs::convert::FromSpecImpl;
use vstd::string::StringExecFns;

verus! {

/// The environment variable that holds the location.
pub const LOCATION_VARIABLE: &'static str = "WEATHER_LOCATION";

/// The location that is reported on where none is configured.
pub const DEFAULT_LOCATION: &'static str = "Cenon";

/// Application service that orchestrates fetching weather and sending notifications.
#[derive(Clone, Debug, PartialEq, Eq)]
pub struct WeatherService {
    weather_client: WeatherApiClient,
    notifier: DiscordNotifier,
    location: String,
}

/// Why a run ended without a delivered message, by the stage that failed.
#[derive(Clone, Debug, PartialEq, Eq)]
pub enum ServiceError {
    Weather(WeatherApiError),
    Discord(DiscordError),
}

/// What a `ServiceError` holds, as mathematical values.
pub enum ServiceErrorView {
    Weather(WeatherApiErrorView),
    Discord(DiscordErrorView),
}

impl View for ServiceError {
    type V = ServiceErrorView;

    open spec fn view(&self) -> ServiceErrorView {
        match *self {
            ServiceError::Weather(error) => ServiceErrorView::Weather(error@),
            ServiceError::Discord(error) => ServiceErrorView::Discord(error@),
        }
    }
}

/// What has happened in a run, as far as the next decision depends on it.
#[derive(Debug, PartialEq, Eq)]
pub enum PipelineEvent {
    /// The run begins.
    Started,
    /// The request to the provider has ended, with its answer or with the
    /// transport's account of its failure.
    WeatherArrived(Result<ApiResponse, String>),
    /// The post to the webhook has ended, with its answer or with the
    /// transport's account of its failure.
    WebhookAnswered(Result<WebhookResponse, String>),
}

/// What a `PipelineEvent` holds, as mathematical values.
pub enum PipelineEventView {
    Started,
    WeatherArrived(Result<ApiResponseView, Seq<char>>),
    WebhookAnswered(Result<WebhookResponseView, Seq<char>>),
}

impl View for PipelineEvent {
    type V = PipelineEventView;

    open spec fn view(&self) -> PipelineEventView {
        match *self {
            PipelineEvent::Started => PipelineEventView::Started,
            PipelineEvent::WeatherArrived(response) => PipelineEventView::WeatherArrived(
                answer_view(response),
            ),
            PipelineEvent::WebhookAnswered(response) => PipelineEventView::WebhookAnswered(
                response_view(response),
            ),
        }
    }
}

/// What a run does next.
#[derive(Debug, PartialEq, Eq)]
pub enum PipelineAction {
    /// Ask the provider at `url`.
    FetchWeather { url: String },
    /// Post `payload` to the webhook at `url`.
    PostMessage { url: String, payload: String },
    /// Stop, with the run's result.
    Finish(Result<(), ServiceError>),
}

/// What a `PipelineAction` holds, as mathematical values.
pub enum PipelineActionView {
    FetchWeather { url: Seq<char> },
    PostMessage { url: Seq<char>, payload: Seq<char> },
    Finish(Result<(), ServiceErrorView>),
}

impl View for PipelineAction {
    type V = PipelineActionView;

    open spec fn view(&self) -> PipelineActionView {
        match *self {
            PipelineAction::FetchWeather { url } => PipelineActionView::FetchWeather { url: url@ },
            PipelineAction::PostMessage { url, payload } => PipelineActionView::PostMessage {
                url: url@,
                payload: payload@,
            },
            PipelineAction::Finish(result) => PipelineActionView::Finish(
                match result {
                    Ok(_) => Ok(()),
                    Err(error) => Err(error@),
                },
            ),
        }
    }
}

/// What an error says of itself: what the error of the failed stage says.
pub open spec fn service_error_message(error: ServiceErrorView) -> Seq<char> {
    match error {
        ServiceErrorView::Weather(inner) => weather_error_text(inner),
        ServiceErrorView::Discord(inner) => discord_error_message(inner),
    }
}

/// The message that is sent for the transport's outcome at the provider,
/// or the reason why there is none.
pub open spec fn message_outcome(
    location: Seq<char>,
    response: Result<ApiResponseView, Seq<char>>,
) -> Result<Seq<char>, WeatherApiErrorView> {
    match fetch_outcome(location, response) {
        Ok(report) => Ok(report_text(report)),
        Err(error) => Err(error),
    }
}

/// What follows the provider's answer: with a message and its payload, the
/// post of the payload to `webhook_url`; without a message, or without a
/// payload for it, the end of the run with the error of the stage that failed.
pub open spec fn after_weather(
    webhook_url: Seq<char>,
    message: Result<Seq<char>, WeatherApiErrorView>,
    payload: Result<Seq<char>, DiscordErrorView>,
) -> PipelineActionView {
    match message {
        Ok(_) => match payload {
            Ok(body) => PipelineActionView::PostMessage { url: webhook_url, payload: body },
            Err(error) => PipelineActionView::Finish(Err(ServiceErrorView::Discord(error))),
        },
        Err(error) => PipelineActionView::Finish(Err(ServiceErrorView::Weather(error))),
    }
}

/// What follows the webhook's answer: the end of the run, with success or
/// with the notifier's error.
pub open spec fn after_webhook(outcome: Result<(), DiscordErrorView>) -> PipelineActionView {
    match outcome {
        Ok(_) => PipelineActionView::Finish(Ok(())),
        Err(error) => PipelineActionView::Finish(Err(ServiceErrorView::Discord(error))),
    }
}

/// What a run for `location` that posts to `webhook_url` does after `event`,
/// where `payload` is what the serializer made of the message, if there is
/// a message: at the start, ask the provider; after the provider's answer,
/// post the payload or stop; after the webhook's answer, stop.
pub open spec fn next_action(
    location: Seq<char>,
    webhook_url: Seq<char>,
    event: PipelineEventView,
    payload: Result<Seq<char>, DiscordErrorView>,
) -> PipelineActionView {
    match event {
        PipelineEventView::Started => PipelineActionView::FetchWeather {
            url: request_url_text(location),
        },
        PipelineEventView::WeatherArrived(response) => after_weather(
            webhook_url,
            message_outcome(location, response),
            payload,
        ),
        PipelineEventView::WebhookAnswered(response) => after_webhook(send_outcome(response)),
    }
}

/// The payload that the serializer gives for the message of `event`, where
/// `event` brings a complete answer of the provider. For any other event
/// nothing is serialized, and the payload has no part in what follows.
pub open spec fn payload_text(location: Seq<char>, event: PipelineEventView) -> Seq<char> {
    match event {
        PipelineEventView::WeatherArrived(response) => match message_outcome(location, response) {
            Ok(message) => json_object_text(CONTENT_KEY@, message),
            Err(_) => Seq::empty(),
        },
        _ => Seq::empty(),
    }
}

/// Whether `event` brings a message that is handed to the serializer.
pub open spec fn brings_message(location: Seq<char>, event: PipelineEventView) -> bool {
    event matches PipelineEventView::WeatherArrived(response) && message_outcome(
        location,
        response,
    ) is Ok
}

impl From<WeatherApiError> for ServiceError {
    fn from(err: WeatherApiError) -> (r: ServiceError) {
        ServiceError::Weather(err)
    }
}

impl FromSpecImpl<WeatherApiError> for ServiceError {
    open spec fn obeys_from_spec() -> bool {
        true
    }

    open spec fn from_spec(err: WeatherApiError) -> ServiceError {
        ServiceError::Weather(err)
    }
}

impl From<DiscordError> for ServiceError {
    fn from(err: DiscordError) -> (r: ServiceError) {
        ServiceError::Discord(err)
    }
}

impl FromSpecImpl<DiscordError> for ServiceError {
    open spec fn obeys_from_spec() -> bool {
        true
    }

    open spec fn from_spec(err: DiscordError) -> ServiceError {
        ServiceError::Discord(err)
    }
}

impl ServiceError {
    /// What the error says of itself.
    pub fn message(&self) -> (r: String)
        ensures
            r@ == service_error_message(self@),
    {
        match self {
            ServiceError::Weather(error) => error.message(),
            ServiceError::Discord(error) => error.message(),
        }
    }
}

impl WeatherService {
    /// The location that the service reports on.
    pub closed spec fn location(&self) -> Seq<char> {
        self.location@
    }

    /// The address that the service posts to.
    pub closed spec fn webhook_url(&self) -> Seq<char> {
        self.notifier.url()
    }

    /// The service that reports on `location` through `notifier`.
    pub fn new(weather_client: WeatherApiClient, notifier: DiscordNotifier, location: String) -> (r:
        WeatherService)
        ensures
            r.location() == location@,
            r.webhook_url() == notifier.url(),
    {
        WeatherService { weather_client, notifier, location }
    }

    /// Goes on to the post, or ends the run: `message` is the message for
    /// the provider's answer or the reason why there is none, `payload` what
    /// the serializer made of the message or the reason why it made nothing.
    pub fn deliver(
        &self,
        message: Result<String, WeatherApiError>,
        payload: Result<String, DiscordError>,
    ) -> (r: PipelineAction)
        ensures
            r@ == after_weather(
                self.webhook_url(),
                match message {
                    Ok(text) => Ok(text@),
                    Err(error) => Err(error@),
                },
                match payload {
                    Ok(body) => Ok(body@),
                    Err(error) => Err(error@),
                },
            ),
    {
        match message {
            Ok(_) => match payload {
                Ok(body) => PipelineAction::PostMessage {
                    url: String::from_str(self.notifier.webhook_url()),
                    payload: body,
                },
                Err(error) => PipelineAction::Finish(Err(ServiceError::Discord(error))),
            },
            Err(error) => PipelineAction::Finish(Err(ServiceError::Weather(error))),
        }
    }

    /// Decides what the run does after `event`. At its start it asks the
    /// provider for the configured location. After the provider's answer it
    /// posts the formatted report, or stops with the error of the stage that
    /// failed. After the webhook's answer it stops, with success where the
    /// answer's status is in the success class.
    pub fn fetch_and_notify(&self, event: PipelineEvent) -> (r: PipelineAction)
        ensures
            r@ == next_action(
                self.location(),
                self.webhook_url(),
                event@,
                Ok(payload_text(self.location(), event@)),
            ),
    {
        match event {
            PipelineEvent::Started => PipelineAction::FetchWeather {
                url: self.weather_client.request_url(self.location.as_str()),
            },
            PipelineEvent::WeatherArrived(response) => {
                match self.weather_client.fetch(self.location.as_str(), response) {
                    Ok(report) => {
                        let message = format_weather_report(&report);
                        let payload = self.notifier.payload(message.as_str());
                        self.deliver(Ok(message), payload)
                    },
                    Err(error) => self.deliver(Err(error), Ok(String::new())),
                }
            },
            PipelineEvent::WebhookAnswered(response) => match self.notifier.send(response) {
                Ok(_) => PipelineAction::Finish(Ok(())),
                Err(error) => PipelineAction::Finish(Err(ServiceError::Discord(error))),
            },
        }
    }
}

/// The service for what the environment holds: `location` is what was found
/// for the location, `webhook_url` what was found for the webhook's address.
/// Without a location the service reports on `DEFAULT_LOCATION`; without an
/// address there is no service.
pub fn build_service(location: Option<String>, webhook_url: Option<String>) -> (r: Result<
    WeatherService,
    DiscordError,
>)
    ensures
        match r {
            Ok(service) => webhook_url matches Some(url) && service.webhook_url() == url@
                && service.location() == match location {
                Some(name) => name@,
                None => DEFAULT_LOCATION@,
            },
            Err(error) => webhook_url is None && error@ == DiscordErrorView::MissingWebhookUrl,
        },
{
    let location = match location {
        Some(name) => name,
        None => String::from_str(DEFAULT_LOCATION),
    };
    match DiscordNotifier::from_env(webhook_url) {
        Ok(notifier) => Ok(WeatherService::new(WeatherApiClient::new(), notifier, location)),
        Err(error) => Err(error),
    }
}

/// The message that is built from a complete answer of the provider holds
/// the location that was asked for, sunrise and sunset of the answer's first
/// day, and the description of each of that day's hourly entries, each of
/// the three without the whitespace around it.
pub proof fn built_message_holds_its_sources(location: Seq<char>, response: ApiResponseView)
    requires
        is_complete(response),
    ensures
        ({
            let message = report_text(report_of(location, response));
            let today = response.weather[0];
            &&& message_outcome(location, Ok(response)) == Ok::<Seq<char>, WeatherApiErrorView>(
                message,
            )
            &&& contains(message, location)
            &&& contains(message, trimmed(today.astronomy[0].sunrise))
            &&& contains(message, trimmed(today.astronomy[0].sunset))
            &&& forall|i: int|
                0 <= i < today.hourly.len() ==> contains(
                    message,
                    trimmed((#[trigger] today.hourly[i]).weather_desc[0]),
                )
        }),
{
    let report = report_of(location, response);
    let message = report_text(report);
    let today = response.weather[0];
    report_text_holds_its_parts(report);
    assert forall|i: int| 0 <= i < today.hourly.len() implies contains(
        message,
        trimmed((#[trigger] today.hourly[i]).weather_desc[0]),
    ) by {
        assert(report.hourly[i].description == trimmed(today.hourly[i].weather_desc[0]));
    }
}

/// After a complete answer of the provider the run posts, to the webhook's
/// address, the payload that the serializer gives for the formatted report
/// of that answer.
pub proof fn a_complete_answer_is_posted(
    location: Seq<char>,
    webhook_url: Seq<char>,
    response: ApiResponseView,
)
    requires
        is_complete(response),
    ensures
        ({
            let event = PipelineEventView::WeatherArrived(Ok(response));
            next_action(location, webhook_url, event, Ok(payload_text(location, event)))
                == (PipelineActionView::PostMessage {
                url: webhook_url,
                payload: json_object_text(
                    CONTENT_KEY@,
                    report_text(report_of(location, response)),
                ),
            })
        }),
{
}

/// A run posts only after a complete answer of the provider, and then the
/// payload that the serializer made: after any failure it stops, with the
/// error of the stage that failed, and posts nothing.
pub proof fn a_failure_stops_the_run(
    location: Seq<char>,
    webhook_url: Seq<char>,
    event: PipelineEventView,
    payload: Result<Seq<char>, DiscordErrorView>,
)
    ensures
        ({
            let action = next_action(location, webhook_url, event, payload);
            &&& action is PostMessage ==> brings_message(location, event) && payload == Ok::<
                Seq<char>,
                DiscordErrorView,
            >(action->payload) && action->PostMessage_url == webhook_url
            &&& event matches PipelineEventView::WeatherArrived(response) ==> (fetch_outcome(
                location,
                response,
            ) matches Err(error) ==> action == PipelineActionView::Finish(
                Err(ServiceErrorView::Weather(error)),
            ))
            &&& event matches PipelineEventView::WebhookAnswered(response) ==> (send_outcome(
                response,
            ) matches Err(error) ==> action == PipelineActionView::Finish(
                Err(ServiceErrorView::Discord(error)),
            ))
            &&& brings_message(location, event) ==> (payload matches Err(error) ==> action
                == PipelineActionView::Finish(Err(ServiceErrorView::Discord(error))))
        }),
{
}

} // verus!
