//! Position pushes.
use vstd::prelude::*;

verus! {

/// A position event.
#[derive(Clone, Debug)]
pub struct Position {
    /// OPEN, UPDATE or CLOSE.
    pub event: String,
    pub position_id: String,
    /// ISOLATION or CROSS.
    pub margin_mode: String,
    /// ONE_WAY or HEDGE.
    pub position_mode: String,
    /// SHORT or LONG.
    pub side: String,
    pub leverage: String,
    pub margin: String,
    /// Creation time (ISO 8601).
    pub ctime: String,
    pub qty: String,
    pub symbol: String,
    /// Realized profit and loss, without funding and fees.
    pub realized_pnl: String,
    pub unrealized_pnl: String,
    /// Total funding fees.
    pub funding: String,
    /// Total trading fees.
    pub fee: String,
}

} // verus!
