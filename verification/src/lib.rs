//! A weather report for Discord: the rules that turn the answer of the
//! wttr.in weather API into a report, the report into a message, and the
//! outcome of each request into the next step of a run.

pub mod application;
pub mod domain;
pub mod event_handler;
pub mod infrastructure;
pub mod numeric;
pub mod precipitation;
pub mod presentation;
pub mod text;
