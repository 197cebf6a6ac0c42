//! A BitUnix futures API client: signed REST requests, websocket stream
//! messages, and the decisions of the loops that keep the streams connected.
pub mod text;
pub mod params;
pub mod json;
pub mod crypto;
pub mod client;
pub mod restful;
pub mod ws;
