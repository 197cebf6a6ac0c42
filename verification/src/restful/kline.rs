//! Market candles.
use vstd::prelude::*;

use crate::client::BitUnixClient;
use crate::params::ParamMap;
use crate::restful::sign::{ApiCall, HttpMethod};
use crate::text::{i64_to_decimal, signed_decimal};

verus! {

impl BitUnixClient {
    /// Candles of a symbol between two times at an interval:
    /// GET /api/v1/futures/market/kline with `symbol`, `startTime`, `endTime`
    /// (in decimal) and `interval`.
    pub fn futures_market_kline(&self, symbol: &str, start_time: i64, end_time: i64, interval: &str) -> (res: ApiCall)
        ensures
            res.method == HttpMethod::Get,
            res.path@ == "/api/v1/futures/market/kline"@,
            res.query.as_map() == Map::<Seq<char>, Seq<char>>::empty()
                .insert("symbol"@, symbol@)
                .insert("startTime"@, signed_decimal(start_time as int))
                .insert("endTime"@, signed_decimal(end_time as int))
                .insert("interval"@, interval@),
            res.body@.len() == 0,
    {
        let mut params = ParamMap::new();
        params.insert("symbol".to_owned(), symbol.to_owned());
        params.insert("startTime".to_owned(), i64_to_decimal(start_time));
        params.insert("endTime".to_owned(), i64_to_decimal(end_time));
        params.insert("interval".to_owned(), interval.to_owned());
        ApiCall {
            method: HttpMethod::Get,
            path: "/api/v1/futures/market/kline".to_owned(),
            query: params,
            body: ParamMap::new(),
        }
    }
}

} // verus!
