//! Order pushes.
use vstd::prelude::*;

verus! {

/// An order event.
#[derive(Clone, Debug)]
pub struct Order {
    /// CREATE, UPDATE or CLOSE.
    pub event: String,
    pub order_id: String,
    pub symbol: String,
    /// ISOLATION or CROSS.
    pub position_type: String,
    /// ONE_WAY or HEDGE.
    pub position_mode: String,
    /// BUY or SELL.
    pub side: String,
    /// IOC, FOK, GTC (the default) or POST_ONLY.
    pub effect: Option<String>,
    /// LIMIT or MARKET.
    pub order_type: String,
    /// Quantity in the base coin.
    pub qty: String,
    /// Price (LIMIT orders only).
    pub price: Option<String>,
    pub ctime: String,
    pub mtime: String,
    pub leverage: String,
    /// INIT, NEW, PART_FILLED, CANCELED, FILLED or PART_FILLED_CANCELED.
    pub order_status: String,
    pub fee: Option<String>,
    pub average_price: Option<String>,
    pub deal_amount: Option<String>,
    pub client_id: Option<String>,
    /// MARK_PRICE or LAST_PRICE.
    pub tp_stop_type: Option<String>,
    pub tp_price: Option<String>,
    /// LIMIT or MARKET.
    pub tp_order_type: Option<String>,
    pub tp_order_price: Option<String>,
    /// MARK_PRICE or LAST_PRICE.
    pub sl_stop_type: Option<String>,
    pub sl_price: Option<String>,
    /// LIMIT or MARKET.
    pub sl_order_type: Option<String>,
    pub sl_order_price: Option<String>,
}

} // verus!
