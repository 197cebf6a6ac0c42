//! The REST API: signing requests, the endpoints, and their data.
pub mod sign;
pub mod url;
pub mod models;
pub mod account;
pub mod kline;
pub mod trading;
