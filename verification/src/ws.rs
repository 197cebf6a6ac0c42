//! The websocket streams: their messages, the loops' decisions, and the pushed data.
pub mod websocket;
pub mod futures_ws_private;
pub mod model;
