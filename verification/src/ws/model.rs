//! The data pushed on the private stream.
pub mod balance;
pub mod kline;
pub mod order;
pub mod position_event;
pub mod tp_sl_order;
