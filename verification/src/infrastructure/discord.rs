//! The Discord webhook: what is posted to it, and what its answer means.

use crate::numeric::{decimal, push_decimal};
use vstd::prelude::*;
use vstd::string::StringExecFns;

verus! {

/// The environment variable that holds the webhook's address.
pub const WEBHOOK_URL_VARIABLE: &'static str = "DISCORD_WEBHOOK_URL";

/// The member of the posted object that holds the message.
pub const CONTENT_KEY: &'static str = "content";

/// Client for sending notifications to Discord via webhook.
#[derive(Clone, Debug, PartialEq, Eq)]
pub struct DiscordNotifier {
    webhook_url: String,
}

/// What the webhook answered to a post.
#[derive(Clone, Debug, PartialEq, Eq)]
pub struct WebhookResponse {
    pub status: u16,
    pub body: String,
}

/// What a `WebhookResponse` holds, as mathematical values.
pub struct WebhookResponseView {
    pub status: int,
    pub body: Seq<char>,
}

impl View for WebhookResponse {
    type V = WebhookResponseView;

    open spec fn view(&self) -> WebhookResponseView {
        WebhookResponseView { status: self.status as int, body: self.body@ }
    }
}

/// Why a message did not reach Discord.
#[derive(Clone, Debug, PartialEq, Eq)]
pub enum DiscordError {
    /// The webhook's address is not configured.
    MissingWebhookUrl,
    /// The request failed on its way; the text is the transport's account of it.
    Request(String),
    /// The webhook answered with a status outside the success class.
    WebhookFailed { status: u16, body: String },
}

/// What a `DiscordError` holds, as mathematical values.
pub enum DiscordErrorView {
    MissingWebhookUrl,
    Request(Seq<char>),
    WebhookFailed { status: int, body: Seq<char> },
}

impl View for DiscordError {
    type V = DiscordErrorView;

    open spec fn view(&self) -> DiscordErrorView {
        match *self {
            DiscordError::MissingWebhookUrl => DiscordErrorView::MissingWebhookUrl,
            DiscordError::Request(cause) => DiscordErrorView::Request(cause@),
            DiscordError::WebhookFailed { status, body } => DiscordErrorView::WebhookFailed {
                status: status as int,
                body: body@,
            },
        }
    }
}

/// The JSON text that `serde_json::to_string` gives for the object whose one
/// member is named `key` and holds the string `value`.
pub uninterp spec fn json_object_text(key: Seq<char>, value: Seq<char>) -> Seq<char>;

/// The reason phrase that `reqwest::StatusCode::canonical_reason` gives for
/// the status `code`; `None` where `code` is no status code or has no phrase.
pub uninterp spec fn canonical_reason_phrase(code: u16) -> Option<Seq<char>>;

/// Whether a status lies in the success class, 200 to 299.
pub open spec fn is_success_code(status: int) -> bool {
    200 <= status < 300
}

/// The words for a status without a reason phrase.
pub open spec fn reason_text(reason: Option<Seq<char>>) -> Seq<char> {
    match reason {
        Some(phrase) => phrase,
        None => "<unknown status code>"@,
    }
}

/// A status as text: its number, a space, and its reason phrase.
pub open spec fn status_text(status: int, reason: Option<Seq<char>>) -> Seq<char> {
    decimal(status as nat) + " "@ + reason_text(reason)
}

/// What an error says of itself, where `reason` is the reason phrase of the
/// status that it holds, if it holds one.
pub open spec fn discord_error_text(error: DiscordErrorView, reason: Option<Seq<char>>) -> Seq<
    char,
> {
    match error {
        DiscordErrorView::MissingWebhookUrl => "DISCORD_WEBHOOK_URL not set"@,
        DiscordErrorView::Request(cause) => "Discord request failed: "@ + cause,
        DiscordErrorView::WebhookFailed { status, body } => "Discord webhook failed: "@
            + status_text(status, reason) + " - "@ + body,
    }
}

/// The canonical reason phrase of the status that an error holds; `None`
/// where it holds no status, or one without a phrase.
pub open spec fn failed_status_reason(error: DiscordErrorView) -> Option<Seq<char>> {
    match error {
        DiscordErrorView::WebhookFailed { status, body } => canonical_reason_phrase(
            status as u16,
        ),
        _ => None,
    }
}

/// What an error says of itself, a failed status with its canonical reason phrase.
pub open spec fn discord_error_message(error: DiscordErrorView) -> Seq<char> {
    discord_error_text(error, failed_status_reason(error))
}

/// The serializer's outcome, as mathematical values.
pub open spec fn serialized_view(serialized: Result<String, String>) -> Result<
    Seq<char>,
    Seq<char>,
> {
    match serialized {
        Ok(text) => Ok(text@),
        Err(cause) => Err(cause@),
    }
}

/// The transport's outcome, as mathematical values.
pub open spec fn response_view(response: Result<WebhookResponse, String>) -> Result<
    WebhookResponseView,
    Seq<char>,
> {
    match response {
        Ok(answer) => Ok(answer@),
        Err(cause) => Err(cause@),
    }
}

/// A reason phrase that was looked up, as mathematical values.
pub open spec fn reason_view(reason: Option<String>) -> Option<Seq<char>> {
    match reason {
        Some(phrase) => Some(phrase@),
        None => None,
    }
}

/// What the serializer's outcome means for the post: its text is the
/// payload, its failure is a failure of the request.
pub open spec fn payload_outcome(serialized: Result<Seq<char>, Seq<char>>) -> Result<
    Seq<char>,
    DiscordErrorView,
> {
    match serialized {
        Ok(text) => Ok(text),
        Err(cause) => Err(DiscordErrorView::Request(cause)),
    }
}

/// What the transport's outcome means for the notification: an answer in the
/// success class is success, any other answer is `WebhookFailed` with the
/// answer's status and body, and a transport failure is `Request` with the
/// transport's account of it.
pub open spec fn send_outcome(response: Result<WebhookResponseView, Seq<char>>) -> Result<
    (),
    DiscordErrorView,
> {
    match response {
        Ok(answer) => if is_success_code(answer.status) {
            Ok(())
        } else {
            Err(DiscordErrorView::WebhookFailed { status: answer.status, body: answer.body })
        },
        Err(cause) => Err(DiscordErrorView::Request(cause)),
    }
}

/// Serializes the JSON object `{ key: value }` with `serde_json::to_string`,
/// called on a `serde_json::Value::Object` whose one member, `key`, is a
/// `Value::String` of `value`. The contract claims that the call succeeds,
/// and that its text depends on `key` and `value` alone, and names it. The
/// serializer fails only where a write fails or a key is no string: here it
/// writes to a byte vector, which takes every write, and the one key is a
/// string.
#[verifier::external_body]
fn json_object(key: &str, value: &str) -> (r: Result<String, String>)
    ensures
        r is Ok,
        r matches Ok(text) ==> text@ == json_object_text(key@, value@),
{
    let mut object = serde_json::Map::new();
    object.insert(key.to_owned(), serde_json::Value::String(value.to_owned()));
    match serde_json::to_string(&serde_json::Value::Object(object)) {
        Ok(text) => Ok(text),
        Err(error) => Err(error.to_string()),
    }
}

/// Looks up the reason phrase of a status with
/// `reqwest::StatusCode::canonical_reason`, on the status that
/// `reqwest::StatusCode::from_u16` makes of `code`. The contract claims that
/// the phrase depends on `code` alone, and names it; `None` stands for a
/// `code` that `from_u16` refuses and for a status without a phrase.
#[verifier::external_body]
fn canonical_reason(code: u16) -> (r: Option<String>)
    ensures
        match r {
            Some(phrase) => canonical_reason_phrase(code) == Some(phrase@),
            None => canonical_reason_phrase(code) is None,
        },
{
    match reqwest::StatusCode::from_u16(code) {
        Ok(status) => match status.canonical_reason() {
            Some(phrase) => Some(phrase.to_owned()),
            None => None,
        },
        Err(_) => None,
    }
}

/// Tells whether `status` lies in the success class.
pub fn is_success(status: u16) -> (r: bool)
    ensures
        r == is_success_code(status as int),
{
    200 <= status && status < 300
}

/// A status as text, with the reason phrase that was looked up for it.
pub fn status_line(status: u16, reason: Option<String>) -> (r: String)
    ensures
        r@ == status_text(status as int, reason_view(reason)),
{
    let mut out = String::new();
    push_decimal(&mut out, status as u64);
    proof {
        assert(Seq::<char>::empty() + decimal(status as nat) =~= decimal(status as nat));
    }
    out.append(" ");
    match reason {
        Some(phrase) => {
            out.append(phrase.as_str());
        },
        None => {
            out.append("<unknown status code>");
        },
    }
    out
}

impl DiscordError {
    /// What the error says of itself, given the reason phrase that was looked
    /// up for the status that it holds.
    pub fn message_with(&self, reason: Option<String>) -> (r: String)
        ensures
            r@ == discord_error_text(self@, reason_view(reason)),
    {
        match self {
            DiscordError::MissingWebhookUrl => String::from_str("DISCORD_WEBHOOK_URL not set"),
            DiscordError::Request(cause) => {
                let mut out = String::from_str("Discord request failed: ");
                out.append(cause.as_str());
                out
            },
            DiscordError::WebhookFailed { status, body } => {
                let line = status_line(*status, reason);
                let mut out = String::from_str("Discord webhook failed: ");
                out.append(line.as_str());
                out.append(" - ");
                out.append(body.as_str());
                out
            },
        }
    }

    /// What the error says of itself. A failed status is written with its
    /// canonical reason phrase.
    pub fn message(&self) -> (r: String)
        ensures
            r@ == discord_error_message(self@),
    {
        let reason = match self {
            DiscordError::WebhookFailed { status, body } => canonical_reason(*status),
            _ => None,
        };
        self.message_with(reason)
    }
}

impl DiscordNotifier {
    /// The address that the notifier posts to.
    pub closed spec fn url(&self) -> Seq<char> {
        self.webhook_url@
    }

    /// The notifier that posts to `webhook_url`.
    pub fn new(webhook_url: String) -> (r: DiscordNotifier)
        ensures
            r.url() == webhook_url@,
    {
        DiscordNotifier { webhook_url }
    }

    /// The notifier for the address that the environment holds under
    /// `WEBHOOK_URL_VARIABLE`; `value` is what was found there.
    pub fn from_env(value: Option<String>) -> (r: Result<DiscordNotifier, DiscordError>)
        ensures
            match r {
                Ok(notifier) => value matches Some(webhook_url) && notifier.url() == webhook_url@,
                Err(error) => value is None && error@ == DiscordErrorView::MissingWebhookUrl,
            },
    {
        match value {
            Some(webhook_url) => Ok(DiscordNotifier::new(webhook_url)),
            None => Err(DiscordError::MissingWebhookUrl),
        }
    }

    /// The address that the notifier posts to.
    pub fn webhook_url(&self) -> (r: &str)
        ensures
            r@ == self.url(),
    {
        self.webhook_url.as_str()
    }

    /// What the serializer's outcome means for the post.
    pub fn payload_from(serialized: Result<String, String>) -> (r: Result<String, DiscordError>)
        ensures
            match r {
                Ok(text) => payload_outcome(serialized_view(serialized)) == Ok::<
                    Seq<char>,
                    DiscordErrorView,
                >(text@),
                Err(error) => payload_outcome(serialized_view(serialized)) == Err::<
                    Seq<char>,
                    DiscordErrorView,
                >(error@),
            },
    {
        match serialized {
            Ok(text) => Ok(text),
            Err(cause) => Err(DiscordError::Request(cause)),
        }
    }

    /// The body that is posted for `message`: the JSON object whose one
    /// member, `content`, holds the message. There is one for every message.
    pub fn payload(&self, message: &str) -> (r: Result<String, DiscordError>)
        ensures
            r matches Ok(text) && text@ == json_object_text(CONTENT_KEY@, message@),
    {
        DiscordNotifier::payload_from(json_object(CONTENT_KEY, message))
    }

    /// Concludes a post: tells from the transport's outcome whether the
    /// message was delivered.
    pub fn send(&self, response: Result<WebhookResponse, String>) -> (r: Result<(), DiscordError>)
        ensures
            match r {
                Ok(_) => send_outcome(response_view(response)) == Ok::<(), DiscordErrorView>(()),
                Err(error) => send_outcome(response_view(response)) == Err::<
                    (),
                    DiscordErrorView,
                >(error@),
            },
    {
        match response {
            Ok(answer) => {
                if is_success(answer.status) {
                    Ok(())
                } else {
                    Err(DiscordError::WebhookFailed { status: answer.status, body: answer.body })
                }
            },
            Err(cause) => Err(DiscordError::Request(cause)),
        }
    }
}

} // verus!
