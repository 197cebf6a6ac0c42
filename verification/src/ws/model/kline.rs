//! Candle pushes.
use vstd::prelude::*;

verus! {

/// A candle pushed on a channel.
#[derive(Debug)]
pub struct KlineMessage {
    pub ch: String,
    pub symbol: String,
    pub ts: i64,
    pub data: KlineData,
}

/// One candle.
#[derive(Debug)]
pub struct KlineData {
    /// Open price.
    pub o: String,
    /// Close price.
    pub c: String,
    /// High price.
    pub h: String,
    /// Low price.
    pub l: String,
    /// Base volume.
    pub b: String,
    /// Quote volume.
    pub q: String,
}

} // verus!
