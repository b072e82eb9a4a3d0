//! A typed model of the `Daily` REST API: builders for requests, the JSON that
//! they are sent as, the entities that responses are read into, and tokens
//! signed without a round trip. Sending a request is left to a transport.
pub mod client;
pub mod configuration;
pub mod error;
pub mod json;
pub mod meeting_token;
pub mod recording;
pub mod room;
pub mod room_properties;
pub mod self_sign_token;
pub mod text;
pub mod wire;

pub use client::Client;
pub use error::{DailyCoErrorInfo, DailyCoErrorKind, Error, Result};
pub use room_properties::{RoomProperties, RoomPropertiesBuilder};
