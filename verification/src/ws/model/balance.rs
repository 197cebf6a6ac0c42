//! Balance pushes.
use vstd::prelude::*;

verus! {

/// An account balance.
#[derive(Clone, Debug)]
pub struct Balance {
    /// The coin.
    pub coin: String,
    /// The available balance.
    pub available: String,
    /// The total frozen balance: isolation frozen plus cross frozen.
    pub frozen: String,
    /// Funds frozen in isolated positions.
    pub isolation_frozen: String,
    /// Funds frozen in cross margin.
    pub cross_frozen: String,
    /// The total margin.
    pub margin: String,
    /// Isolated margin.
    pub isolation_margin: String,
    /// Cross margin.
    pub cross_margin: String,
    /// Trial funds.
    pub exp_money: String,
}

} // verus!
