pub mod discord;
pub mod weather_api;

pub use discord::DiscordNotifier;
pub use weather_api::WeatherApiClient;
