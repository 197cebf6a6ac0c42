//! Take-profit and stop-loss order pushes.
use vstd::prelude::*;

verus! {

/// A take-profit / stop-loss order event.
#[derive(Clone, Debug)]
pub struct TpSlOrder {
    /// CREATE, UPDATE or CLOSE.
    pub event: String,
    pub position_id: String,
    pub order_id: String,
    pub symbol: String,
    pub leverage: String,
    /// BUY or SELL.
    pub side: String,
    /// ONE_WAY or HEDGE.
    pub position_mode: String,
    /// INIT, NEW, PART_FILLED, CANCELED or FILLED.
    pub status: String,
    /// Creation time (ISO 8601).
    pub ctime: String,
    /// LIMIT or MARKET.
    pub order_type: String,
    /// Take-profit quantity in the base coin.
    pub tp_qty: Option<String>,
    /// Stop-loss quantity field, as the stream types it.
    pub sl_qty: Option<bool>,
    /// MARK_PRICE or LAST_PRICE.
    pub tp_stop_type: Option<String>,
    pub tp_price: Option<String>,
    /// LIMIT or MARKET.
    pub tp_order_type: Option<String>,
    pub tp_order_price: Option<String>,
    /// MARK_PRICE or LAST_PRICE.
    pub sl_stop_type: Option<String>,
    pub sl_price: Option<String>,
    /// LIMIT or MARKET.
    pub sl_order_type: Option<String>,
    pub sl_order_price: Option<String>,
}

} // verus!
