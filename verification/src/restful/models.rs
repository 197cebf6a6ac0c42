//! The data that the REST endpoints answer with.
use vstd::prelude::*;

verus! {

/// The envelope of every REST answer: a status code, a message, and the data.
#[derive(Debug)]
pub struct RestApi<T> {
    pub code: i32,
    pub msg: String,
    pub data: Option<T>,
}

/// Account details (GET /api/v1/futures/account).
#[derive(Debug)]
pub struct AccountData {
    /// The margin coin.
    pub margin_coin: String,
    /// The available amount.
    pub available: String,
    /// The amount locked by orders.
    pub frozen: String,
    /// The amount locked by positions.
    pub margin: String,
    pub transfer: String,
    /// The position mode.
    pub position_mode: String,
    pub isolation_unrealized_pnl: String,
    pub cross_unrealized_pnl: String,
    pub bonus: String,
}

/// The identifiers of a placed order (POST /api/v1/futures/trade/place_order).
#[derive(Debug)]
pub struct TradePlceOrder {
    pub order_id: String,
    pub client_id: String,
}

/// One closed position (GET /api/v1/futures/position/get_history_positions).
#[derive(Debug)]
pub struct HistoryPositionModel {
    pub position_id: String,
    pub symbol: String,
    pub max_qty: String,
    pub entry_price: String,
    pub close_price: String,
    pub liq_qty: String,
    /// LONG or SHORT.
    pub side: String,
    /// ISOLATION or CROSS.
    pub margin_mode: String,
    /// ONE_WAY or HEDGE.
    pub position_mode: String,
    pub leverage: String,
    pub fee: String,
    pub funding: String,
    pub realized_pnl: String,
    pub liq_price: String,
    pub ctime: String,
    pub mtime: String,
}

/// A page of closed positions (GET /api/v1/futures/position/get_history_positions).
#[derive(Debug)]
pub struct HistoryPostions {
    pub total: String,
    pub position_list: Vec<HistoryPositionModel>,
}

/// A page of past trades (GET /api/v1/futures/trade/get_history_trades).
#[derive(Debug)]
pub struct TradeListData {
    pub trade_list: Vec<TradeInfo>,
    pub total: String,
}

/// One past trade.
#[derive(Debug)]
pub struct TradeInfo {
    pub trade_id: String,
    pub order_id: String,
    pub qty: String,
    pub price: String,
    pub symbol: String,
    pub position_mode: String,
    pub margin_mode: String,
    pub leverage: i64,
    pub fee: String,
    pub realized_pnl: String,
    pub order_type: String,
    pub reduce_only: bool,
    pub client_id: Option<String>,
    pub source: Option<String>,
    pub ctime: String,
    pub effect: Option<String>,
    pub margin_coin: Option<String>,
    pub role_type: String,
    pub side: String,
    pub status: Option<String>,
}

/// One open position (GET /api/v1/futures/position/get_pending_positions).
#[derive(Debug)]
pub struct PositionData {
    pub position_id: String,
    pub symbol: String,
    pub qty: String,
    pub entry_value: String,
    pub side: String,
    pub position_mode: String,
    pub margin_mode: String,
    pub leverage: String,
    pub fee: String,
    pub funding: String,
    pub realized_pnl: String,
    pub margin: String,
    pub unrealized_pnl: String,
    pub liq_price: String,
    pub margin_rate: String,
    pub avg_open_price: String,
    pub ctime: i64,
    pub mtime: i64,
}

} // verus!
