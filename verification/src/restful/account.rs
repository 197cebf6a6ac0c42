//! Account and position queries.
use vstd::prelude::*;

use crate::client::BitUnixClient;
use crate::params::ParamMap;
use crate::restful::sign::{ApiCall, HttpMethod};

verus! {

/// The query for an optional symbol: `symbol` when given, nothing otherwise.
pub open spec fn optional_symbol_query(symbol: Option<String>) -> Map<Seq<char>, Seq<char>> {
    match symbol {
        Some(s) => Map::empty().insert("symbol"@, s@),
        None => Map::empty(),
    }
}

fn symbol_query(symbol: Option<String>) -> (res: ParamMap)
    ensures
        res.as_map() == optional_symbol_query(symbol),
{
    let mut params = ParamMap::new();
    if let Some(symbol) = symbol {
        params.insert("symbol".to_owned(), symbol);
    }
    params
}

impl BitUnixClient {
    /// Account details for a margin coin: GET /api/v1/futures/account with `marginCoin`.
    pub fn account(&self, margin_coin: String) -> (res: ApiCall)
        ensures
            res.method == HttpMethod::Get,
            res.path@ == "/api/v1/futures/account"@,
            res.query.as_map() == Map::<Seq<char>, Seq<char>>::empty().insert("marginCoin"@, margin_coin@),
            res.body@.len() == 0,
    {
        let mut params = ParamMap::new();
        params.insert("marginCoin".to_owned(), margin_coin);
        ApiCall {
            method: HttpMethod::Get,
            path: "/api/v1/futures/account".to_owned(),
            query: params,
            body: ParamMap::new(),
        }
    }

    /// Closed positions, optionally of one symbol:
    /// GET /api/v1/futures/position/get_history_positions.
    pub fn histroy_postions(&self, symbol: Option<String>) -> (res: ApiCall)
        ensures
            res.method == HttpMethod::Get,
            res.path@ == "/api/v1/futures/position/get_history_positions"@,
            res.query.as_map() == optional_symbol_query(symbol),
            res.body@.len() == 0,
    {
        ApiCall {
            method: HttpMethod::Get,
            path: "/api/v1/futures/position/get_history_positions".to_owned(),
            query: symbol_query(symbol),
            body: ParamMap::new(),
        }
    }

    /// Past trades, optionally of one symbol:
    /// GET /api/v1/futures/trade/get_history_trades.
    pub fn history_trades(&self, symbol: Option<String>) -> (res: ApiCall)
        ensures
            res.method == HttpMethod::Get,
            res.path@ == "/api/v1/futures/trade/get_history_trades"@,
            res.query.as_map() == optional_symbol_query(symbol),
            res.body@.len() == 0,
    {
        ApiCall {
            method: HttpMethod::Get,
            path: "/api/v1/futures/trade/get_history_trades".to_owned(),
            query: symbol_query(symbol),
            body: ParamMap::new(),
        }
    }

    /// Open positions of a symbol: GET /api/v1/futures/position/get_pending_positions.
    pub fn pending_positions(&self, symbol: &str) -> (res: ApiCall)
        ensures
            res.method == HttpMethod::Get,
            res.path@ == "/api/v1/futures/position/get_pending_positions"@,
            res.query.as_map() == Map::<Seq<char>, Seq<char>>::empty().insert("symbol"@, symbol@),
            res.body@.len() == 0,
    {
        let mut params = ParamMap::new();
        params.insert("symbol".to_owned(), symbol.to_owned());
        ApiCall {
            method: HttpMethod::Get,
            path: "/api/v1/futures/position/get_pending_positions".to_owned(),
            query: params,
            body: ParamMap::new(),
        }
    }
}

} // verus!
