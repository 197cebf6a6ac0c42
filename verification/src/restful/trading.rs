//! Placing, cancelling and inspecting orders.
use vstd::prelude::*;

use crate::client::BitUnixClient;
use crate::json::{array_text, frame_array, frame_object, insert_json_str, json_quote, json_string, object_text, strings_view};
use crate::params::ParamMap;
use crate::restful::models::TradePlceOrder;
use crate::restful::sign::{ApiCall, HttpMethod};

verus! {

/// The map with `key` set to the JSON string for `value` when one is given.
pub open spec fn insert_json_opt(m: Map<Seq<char>, Seq<char>>, key: Seq<char>, value: Option<&str>) -> Map<Seq<char>, Seq<char>> {
    match value {
        Some(v) => m.insert(key, json_string(v@)),
        None => m,
    }
}

fn insert_opt(map: &mut ParamMap, key: &str, value: Option<&str>)
    ensures
        final(map).as_map() == insert_json_opt(old(map).as_map(), key@, value),
{
    if let Some(v) = value {
        insert_json_str(map, key, v);
    }
}

/// The body of an order: the required fields, then each optional field that is given.
pub open spec fn place_order_body(
    symbol: &str,
    qty: &str,
    side: &str,
    trade_side: &str,
    order_type: &str,
    price: Option<&str>,
    postion_id: Option<&str>,
    effect: Option<&str>,
    client_id: Option<&str>,
    tp_price: Option<&str>,
    tp_stop_type: Option<&str>,
    tp_order_type: Option<&str>,
    tp_order_price: Option<&str>,
    sl_price: Option<&str>,
    sl_stop_type: Option<&str>,
    sl_order_type: Option<&str>,
    sl_order_price: Option<&str>,
) -> Map<Seq<char>, Seq<char>> {
    let required = Map::<Seq<char>, Seq<char>>::empty()
        .insert("symbol"@, json_string(symbol@))
        .insert("qty"@, json_string(qty@))
        .insert("side"@, json_string(side@))
        .insert("orderType"@, json_string(order_type@))
        .insert("tradeSide"@, json_string(trade_side@));
    let m1 = insert_json_opt(required, "price"@, price);
    let m2 = insert_json_opt(m1, "positionId"@, postion_id);
    let m3 = insert_json_opt(m2, "effect"@, effect);
    let m4 = insert_json_opt(m3, "clientId"@, client_id);
    let m5 = insert_json_opt(m4, "tpPrice"@, tp_price);
    let m6 = insert_json_opt(m5, "tpStopType"@, tp_stop_type);
    let m7 = insert_json_opt(m6, "tpOrderType"@, tp_order_type);
    let m8 = insert_json_opt(m7, "tpOrderPrice"@, tp_order_price);
    let m9 = insert_json_opt(m8, "slPrice"@, sl_price);
    let m10 = insert_json_opt(m9, "slStopType"@, sl_stop_type);
    let m11 = insert_json_opt(m10, "slOrderType"@, sl_order_type);
    insert_json_opt(m11, "slOrderPrice"@, sl_order_price)
}

/// `body` maps `key` to the JSON string of `value` when a value is given, and
/// does not hold `key` otherwise.
pub open spec fn given_as(body: Map<Seq<char>, Seq<char>>, key: Seq<char>, value: Option<&str>) -> bool {
    match value {
        Some(v) => body.dom().contains(key) && body[key] == json_string(v@),
        None => !body.dom().contains(key),
    }
}

proof fn lemma_order_field_symbol(
    symbol: &str,
    qty: &str,
    side: &str,
    trade_side: &str,
    order_type: &str,
    price: Option<&str>,
    postion_id: Option<&str>,
    effect: Option<&str>,
    client_id: Option<&str>,
    tp_price: Option<&str>,
    tp_stop_type: Option<&str>,
    tp_order_type: Option<&str>,
    tp_order_price: Option<&str>,
    sl_price: Option<&str>,
    sl_stop_type: Option<&str>,
    sl_order_type: Option<&str>,
    sl_order_price: Option<&str>,
)
    ensures
        ({
            let body = place_order_body(symbol, qty, side, trade_side, order_type, price, postion_id, effect, client_id, tp_price, tp_stop_type, tp_order_type, tp_order_price, sl_price, sl_stop_type, sl_order_type, sl_order_price);
            body.dom().contains("symbol"@) && body["symbol"@] == json_string(symbol@)
        }),
{
    reveal_strlit("symbol");
    reveal_strlit("qty");
    reveal_strlit("side");
    reveal_strlit("orderType");
    reveal_strlit("tradeSide");
    reveal_strlit("price");
    reveal_strlit("positionId");
    reveal_strlit("effect");
    reveal_strlit("clientId");
    reveal_strlit("tpPrice");
    reveal_strlit("tpStopType");
    reveal_strlit("tpOrderType");
    reveal_strlit("tpOrderPrice");
    reveal_strlit("slPrice");
    reveal_strlit("slStopType");
    reveal_strlit("slOrderType");
    reveal_strlit("slOrderPrice");
    assert("symbol"@ != "qty"@) by { assert("symbol"@.len() != "qty"@.len()); }
    assert("symbol"@ != "side"@) by { assert("symbol"@.len() != "side"@.len()); }
    assert("symbol"@ != "orderType"@) by { assert("symbol"@.len() != "orderType"@.len()); }
    assert("symbol"@ != "tradeSide"@) by { assert("symbol"@.len() != "tradeSide"@.len()); }
    assert("symbol"@ != "price"@) by { assert("symbol"@.len() != "price"@.len()); }
    assert("symbol"@ != "positionId"@) by { assert("symbol"@.len() != "positionId"@.len()); }
    assert("symbol"@ != "effect"@) by { assert("symbol"@[0] != "effect"@[0]); }
    assert("symbol"@ != "clientId"@) by { assert("symbol"@.len() != "clientId"@.len()); }
    assert("symbol"@ != "tpPrice"@) by { assert("symbol"@.len() != "tpPrice"@.len()); }
    assert("symbol"@ != "tpStopType"@) by { assert("symbol"@.len() != "tpStopType"@.len()); }
    assert("symbol"@ != "tpOrderType"@) by { assert("symbol"@.len() != "tpOrderType"@.len()); }
    assert("symbol"@ != "tpOrderPrice"@) by { assert("symbol"@.len() != "tpOrderPrice"@.len()); }
    assert("symbol"@ != "slPrice"@) by { assert("symbol"@.len() != "slPrice"@.len()); }
    assert("symbol"@ != "slStopType"@) by { assert("symbol"@.len() != "slStopType"@.len()); }
    assert("symbol"@ != "slOrderType"@) by { assert("symbol"@.len() != "slOrderType"@.len()); }
    assert("symbol"@ != "slOrderPrice"@) by { assert("symbol"@.len() != "slOrderPrice"@.len()); }
}

proof fn lemma_order_field_qty(
    symbol: &str,
    qty: &str,
    side: &str,
    trade_side: &str,
    order_type: &str,
    price: Option<&str>,
    postion_id: Option<&str>,
    effect: Option<&str>,
    client_id: Option<&str>,
    tp_price: Option<&str>,
    tp_stop_type: Option<&str>,
    tp_order_type: Option<&str>,
    tp_order_price: Option<&str>,
    sl_price: Option<&str>,
    sl_stop_type: Option<&str>,
    sl_order_type: Option<&str>,
    sl_order_price: Option<&str>,
)
    ensures
        ({
            let body = place_order_body(symbol, qty, side, trade_side, order_type, price, postion_id, effect, client_id, tp_price, tp_stop_type, tp_order_type, tp_order_price, sl_price, sl_stop_type, sl_order_type, sl_order_price);
            body.dom().contains("qty"@) && body["qty"@] == json_string(qty@)
        }),
{
    reveal_strlit("symbol");
    reveal_strlit("qty");
    reveal_strlit("side");
    reveal_strlit("orderType");
    reveal_strlit("tradeSide");
    reveal_strlit("price");
    reveal_strlit("positionId");
    reveal_strlit("effect");
    reveal_strlit("clientId");
    reveal_strlit("tpPrice");
    reveal_strlit("tpStopType");
    reveal_strlit("tpOrderType");
    reveal_strlit("tpOrderPrice");
    reveal_strlit("slPrice");
    reveal_strlit("slStopType");
    reveal_strlit("slOrderType");
    reveal_strlit("slOrderPrice");
    assert("qty"@ != "symbol"@) by { assert("qty"@.len() != "symbol"@.len()); }
    assert("qty"@ != "side"@) by { assert("qty"@.len() != "side"@.len()); }
    assert("qty"@ != "orderType"@) by { assert("qty"@.len() != "orderType"@.len()); }
    assert("qty"@ != "tradeSide"@) by { assert("qty"@.len() != "tradeSide"@.len()); }
    assert("qty"@ != "price"@) by { assert("qty"@.len() != "price"@.len()); }
    assert("qty"@ != "positionId"@) by { assert("qty"@.len() != "positionId"@.len()); }
    assert("qty"@ != "effect"@) by { assert("qty"@.len() != "effect"@.len()); }
    assert("qty"@ != "clientId"@) by { assert("qty"@.len() != "clientId"@.len()); }
    assert("qty"@ != "tpPrice"@) by { assert("qty"@.len() != "tpPrice"@.len()); }
    assert("qty"@ != "tpStopType"@) by { assert("qty"@.len() != "tpStopType"@.len()); }
    assert("qty"@ != "tpOrderType"@) by { assert("qty"@.len() != "tpOrderType"@.len()); }
    assert("qty"@ != "tpOrderPrice"@) by { assert("qty"@.len() != "tpOrderPrice"@.len()); }
    assert("qty"@ != "slPrice"@) by { assert("qty"@.len() != "slPrice"@.len()); }
    assert("qty"@ != "slStopType"@) by { assert("qty"@.len() != "slStopType"@.len()); }
    assert("qty"@ != "slOrderType"@) by { assert("qty"@.len() != "slOrderType"@.len()); }
    assert("qty"@ != "slOrderPrice"@) by { assert("qty"@.len() != "slOrderPrice"@.len()); }
}

proof fn lemma_order_field_side(
    symbol: &str,
    qty: &str,
    side: &str,
    trade_side: &str,
    order_type: &str,
    price: Option<&str>,
    postion_id: Option<&str>,
    effect: Option<&str>,
    client_id: Option<&str>,
    tp_price: Option<&str>,
    tp_stop_type: Option<&str>,
    tp_order_type: Option<&str>,
    tp_order_price: Option<&str>,
    sl_price: Option<&str>,
    sl_stop_type: Option<&str>,
    sl_order_type: Option<&str>,
    sl_order_price: Option<&str>,
)
    ensures
        ({
            let body = place_order_body(symbol, qty, side, trade_side, order_type, price, postion_id, effect, client_id, tp_price, tp_stop_type, tp_order_type, tp_order_price, sl_price, sl_stop_type, sl_order_type, sl_order_price);
            body.dom().contains("side"@) && body["side"@] == json_string(side@)
        }),
{
    reveal_strlit("symbol");
    reveal_strlit("qty");
    reveal_strlit("side");
    reveal_strlit("orderType");
    reveal_strlit("tradeSide");
    reveal_strlit("price");
    reveal_strlit("positionId");
    reveal_strlit("effect");
    reveal_strlit("clientId");
    reveal_strlit("tpPrice");
    reveal_strlit("tpStopType");
    reveal_strlit("tpOrderType");
    reveal_strlit("tpOrderPrice");
    reveal_strlit("slPrice");
    reveal_strlit("slStopType");
    reveal_strlit("slOrderType");
    reveal_strlit("slOrderPrice");
    assert("side"@ != "symbol"@) by { assert("side"@.len() != "symbol"@.len()); }
    assert("side"@ != "qty"@) by { assert("side"@.len() != "qty"@.len()); }
    assert("side"@ != "orderType"@) by { assert("side"@.len() != "orderType"@.len()); }
    assert("side"@ != "tradeSide"@) by { assert("side"@.len() != "tradeSide"@.len()); }
    assert("side"@ != "price"@) by { assert("side"@.len() != "price"@.len()); }
    assert("side"@ != "positionId"@) by { assert("side"@.len() != "positionId"@.len()); }
    assert("side"@ != "effect"@) by { assert("side"@.len() != "effect"@.len()); }
    assert("side"@ != "clientId"@) by { assert("side"@.len() != "clientId"@.len()); }
    assert("side"@ != "tpPrice"@) by { assert("side"@.len() != "tpPrice"@.len()); }
    assert("side"@ != "tpStopType"@) by { assert("side"@.len() != "tpStopType"@.len()); }
    assert("side"@ != "tpOrderType"@) by { assert("side"@.len() != "tpOrderType"@.len()); }
    assert("side"@ != "tpOrderPrice"@) by { assert("side"@.len() != "tpOrderPrice"@.len()); }
    assert("side"@ != "slPrice"@) by { assert("side"@.len() != "slPrice"@.len()); }
    assert("side"@ != "slStopType"@) by { assert("side"@.len() != "slStopType"@.len()); }
    assert("side"@ != "slOrderType"@) by { assert("side"@.len() != "slOrderType"@.len()); }
    assert("side"@ != "slOrderPrice"@) by { assert("side"@.len() != "slOrderPrice"@.len()); }
}

proof fn lemma_order_field_order_type(
    symbol: &str,
    qty: &str,
    side: &str,
    trade_side: &str,
    order_type: &str,
    price: Option<&str>,
    postion_id: Option<&str>,
    effect: Option<&str>,
    client_id: Option<&str>,
    tp_price: Option<&str>,
    tp_stop_type: Option<&str>,
    tp_order_type: Option<&str>,
    tp_order_price: Option<&str>,
    sl_price: Option<&str>,
    sl_stop_type: Option<&str>,
    sl_order_type: Option<&str>,
    sl_order_price: Option<&str>,
)
    ensures
        ({
            let body = place_order_body(symbol, qty, side, trade_side, order_type, price, postion_id, effect, client_id, tp_price, tp_stop_type, tp_order_type, tp_order_price, sl_price, sl_stop_type, sl_order_type, sl_order_price);
            body.dom().contains("orderType"@) && body["orderType"@] == json_string(order_type@)
        }),
{
    reveal_strlit("symbol");
    reveal_strlit("qty");
    reveal_strlit("side");
    reveal_strlit("orderType");
    reveal_strlit("tradeSide");
    reveal_strlit("price");
    reveal_strlit("positionId");
    reveal_strlit("effect");
    reveal_strlit("clientId");
    reveal_strlit("tpPrice");
    reveal_strlit("tpStopType");
    reveal_strlit("tpOrderType");
    reveal_strlit("tpOrderPrice");
    reveal_strlit("slPrice");
    reveal_strlit("slStopType");
    reveal_strlit("slOrderType");
    reveal_strlit("slOrderPrice");
    assert("orderType"@ != "symbol"@) by { assert("orderType"@.len() != "symbol"@.len()); }
    assert("orderType"@ != "qty"@) by { assert("orderType"@.len() != "qty"@.len()); }
    assert("orderType"@ != "side"@) by { assert("orderType"@.len() != "side"@.len()); }
    assert("orderType"@ != "tradeSide"@) by { assert("orderType"@[0] != "tradeSide"@[0]); }
    assert("orderType"@ != "price"@) by { assert("orderType"@.len() != "price"@.len()); }
    assert("orderType"@ != "positionId"@) by { assert("orderType"@.len() != "positionId"@.len()); }
    assert("orderType"@ != "effect"@) by { assert("orderType"@.len() != "effect"@.len()); }
    assert("orderType"@ != "clientId"@) by { assert("orderType"@.len() != "clientId"@.len()); }
    assert("orderType"@ != "tpPrice"@) by { assert("orderType"@.len() != "tpPrice"@.len()); }
    assert("orderType"@ != "tpStopType"@) by { assert("orderType"@.len() != "tpStopType"@.len()); }
    assert("orderType"@ != "tpOrderType"@) by { assert("orderType"@.len() != "tpOrderType"@.len()); }
    assert("orderType"@ != "tpOrderPrice"@) by { assert("orderType"@.len() != "tpOrderPrice"@.len()); }
    assert("orderType"@ != "slPrice"@) by { assert("orderType"@.len() != "slPrice"@.len()); }
    assert("orderType"@ != "slStopType"@) by { assert("orderType"@.len() != "slStopType"@.len()); }
    assert("orderType"@ != "slOrderType"@) by { assert("orderType"@.len() != "slOrderType"@.len()); }
    assert("orderType"@ != "slOrderPrice"@) by { assert("orderType"@.len() != "slOrderPrice"@.len()); }
}

proof fn lemma_order_field_trade_side(
    symbol: &str,
    qty: &str,
    side: &str,
    trade_side: &str,
    order_type: &str,
    price: Option<&str>,
    postion_id: Option<&str>,
    effect: Option<&str>,
    client_id: Option<&str>,
    tp_price: Option<&str>,
    tp_stop_type: Option<&str>,
    tp_order_type: Option<&str>,
    tp_order_price: Option<&str>,
    sl_price: Option<&str>,
    sl_stop_type: Option<&str>,
    sl_order_type: Option<&str>,
    sl_order_price: Option<&str>,
)
    ensures
        ({
            let body = place_order_body(symbol, qty, side, trade_side, order_type, price, postion_id, effect, client_id, tp_price, tp_stop_type, tp_order_type, tp_order_price, sl_price, sl_stop_type, sl_order_type, sl_order_price);
            body.dom().contains("tradeSide"@) && body["tradeSide"@] == json_string(trade_side@)
        }),
{
    reveal_strlit("symbol");
    reveal_strlit("qty");
    reveal_strlit("side");
    reveal_strlit("orderType");
    reveal_strlit("tradeSide");
    reveal_strlit("price");
    reveal_strlit("positionId");
    reveal_strlit("effect");
    reveal_strlit("clientId");
    reveal_strlit("tpPrice");
    reveal_strlit("tpStopType");
    reveal_strlit("tpOrderType");
    reveal_strlit("tpOrderPrice");
    reveal_strlit("slPrice");
    reveal_strlit("slStopType");
    reveal_strlit("slOrderType");
    reveal_strlit("slOrderPrice");
    assert("tradeSide"@ != "symbol"@) by { assert("tradeSide"@.len() != "symbol"@.len()); }
    assert("tradeSide"@ != "qty"@) by { assert("tradeSide"@.len() != "qty"@.len()); }
    assert("tradeSide"@ != "side"@) by { assert("tradeSide"@.len() != "side"@.len()); }
    assert("tradeSide"@ != "orderType"@) by { assert("tradeSide"@[0] != "orderType"@[0]); }
    assert("tradeSide"@ != "price"@) by { assert("tradeSide"@.len() != "price"@.len()); }
    assert("tradeSide"@ != "positionId"@) by { assert("tradeSide"@.len() != "positionId"@.len()); }
    assert("tradeSide"@ != "effect"@) by { assert("tradeSide"@.len() != "effect"@.len()); }
    assert("tradeSide"@ != "clientId"@) by { assert("tradeSide"@.len() != "clientId"@.len()); }
    assert("tradeSide"@ != "tpPrice"@) by { assert("tradeSide"@.len() != "tpPrice"@.len()); }
    assert("tradeSide"@ != "tpStopType"@) by { assert("tradeSide"@.len() != "tpStopType"@.len()); }
    assert("tradeSide"@ != "tpOrderType"@) by { assert("tradeSide"@.len() != "tpOrderType"@.len()); }
    assert("tradeSide"@ != "tpOrderPrice"@) by { assert("tradeSide"@.len() != "tpOrderPrice"@.len()); }
    assert("tradeSide"@ != "slPrice"@) by { assert("tradeSide"@.len() != "slPrice"@.len()); }
    assert("tradeSide"@ != "slStopType"@) by { assert("tradeSide"@.len() != "slStopType"@.len()); }
    assert("tradeSide"@ != "slOrderType"@) by { assert("tradeSide"@.len() != "slOrderType"@.len()); }
    assert("tradeSide"@ != "slOrderPrice"@) by { assert("tradeSide"@.len() != "slOrderPrice"@.len()); }
}

proof fn lemma_order_field_price(
    symbol: &str,
    qty: &str,
    side: &str,
    trade_side: &str,
    order_type: &str,
    price: Option<&str>,
    postion_id: Option<&str>,
    effect: Option<&str>,
    client_id: Option<&str>,
    tp_price: Option<&str>,
    tp_stop_type: Option<&str>,
    tp_order_type: Option<&str>,
    tp_order_price: Option<&str>,
    sl_price: Option<&str>,
    sl_stop_type: Option<&str>,
    sl_order_type: Option<&str>,
    sl_order_price: Option<&str>,
)
    ensures
        ({
            let body = place_order_body(symbol, qty, side, trade_side, order_type, price, postion_id, effect, client_id, tp_price, tp_stop_type, tp_order_type, tp_order_price, sl_price, sl_stop_type, sl_order_type, sl_order_price);
            given_as(body, "price"@, price)
        }),
{
    reveal_strlit("symbol");
    reveal_strlit("qty");
    reveal_strlit("side");
    reveal_strlit("orderType");
    reveal_strlit("tradeSide");
    reveal_strlit("price");
    reveal_strlit("positionId");
    reveal_strlit("effect");
    reveal_strlit("clientId");
    reveal_strlit("tpPrice");
    reveal_strlit("tpStopType");
    reveal_strlit("tpOrderType");
    reveal_strlit("tpOrderPrice");
    reveal_strlit("slPrice");
    reveal_strlit("slStopType");
    reveal_strlit("slOrderType");
    reveal_strlit("slOrderPrice");
    assert("price"@ != "symbol"@) by { assert("price"@.len() != "symbol"@.len()); }
    assert("price"@ != "qty"@) by { assert("price"@.len() != "qty"@.len()); }
    assert("price"@ != "side"@) by { assert("price"@.len() != "side"@.len()); }
    assert("price"@ != "orderType"@) by { assert("price"@.len() != "orderType"@.len()); }
    assert("price"@ != "tradeSide"@) by { assert("price"@.len() != "tradeSide"@.len()); }
    assert("price"@ != "positionId"@) by { assert("price"@.len() != "positionId"@.len()); }
    assert("price"@ != "effect"@) by { assert("price"@.len() != "effect"@.len()); }
    assert("price"@ != "clientId"@) by { assert("price"@.len() != "clientId"@.len()); }
    assert("price"@ != "tpPrice"@) by { assert("price"@.len() != "tpPrice"@.len()); }
    assert("price"@ != "tpStopType"@) by { assert("price"@.len() != "tpStopType"@.len()); }
    assert("price"@ != "tpOrderType"@) by { assert("price"@.len() != "tpOrderType"@.len()); }
    assert("price"@ != "tpOrderPrice"@) by { assert("price"@.len() != "tpOrderPrice"@.len()); }
    assert("price"@ != "slPrice"@) by { assert("price"@.len() != "slPrice"@.len()); }
    assert("price"@ != "slStopType"@) by { assert("price"@.len() != "slStopType"@.len()); }
    assert("price"@ != "slOrderType"@) by { assert("price"@.len() != "slOrderType"@.len()); }
    assert("price"@ != "slOrderPrice"@) by { assert("price"@.len() != "slOrderPrice"@.len()); }
}

proof fn lemma_order_field_postion_id(
    symbol: &str,
    qty: &str,
    side: &str,
    trade_side: &str,
    order_type: &str,
    price: Option<&str>,
    postion_id: Option<&str>,
    effect: Option<&str>,
    client_id: Option<&str>,
    tp_price: Option<&str>,
    tp_stop_type: Option<&str>,
    tp_order_type: Option<&str>,
    tp_order_price: Option<&str>,
    sl_price: Option<&str>,
    sl_stop_type: Option<&str>,
    sl_order_type: Option<&str>,
    sl_order_price: Option<&str>,
)
    ensures
        ({
            let body = place_order_body(symbol, qty, side, trade_side, order_type, price, postion_id, effect, client_id, tp_price, tp_stop_type, tp_order_type, tp_order_price, sl_price, sl_stop_type, sl_order_type, sl_order_price);
            given_as(body, "positionId"@, postion_id)
        }),
{
    reveal_strlit("symbol");
    reveal_strlit("qty");
    reveal_strlit("side");
    reveal_strlit("orderType");
    reveal_strlit("tradeSide");
    reveal_strlit("price");
    reveal_strlit("positionId");
    reveal_strlit("effect");
    reveal_strlit("clientId");
    reveal_strlit("tpPrice");
    reveal_strlit("tpStopType");
    reveal_strlit("tpOrderType");
    reveal_strlit("tpOrderPrice");
    reveal_strlit("slPrice");
    reveal_strlit("slStopType");
    reveal_strlit("slOrderType");
    reveal_strlit("slOrderPrice");
    assert("positionId"@ != "symbol"@) by { assert("positionId"@.len() != "symbol"@.len()); }
    assert("positionId"@ != "qty"@) by { assert("positionId"@.len() != "qty"@.len()); }
    assert("positionId"@ != "side"@) by { assert("positionId"@.len() != "side"@.len()); }
    assert("positionId"@ != "orderType"@) by { assert("positionId"@.len() != "orderType"@.len()); }
    assert("positionId"@ != "tradeSide"@) by { assert("positionId"@.len() != "tradeSide"@.len()); }
    assert("positionId"@ != "price"@) by { assert("positionId"@.len() != "price"@.len()); }
    assert("positionId"@ != "effect"@) by { assert("positionId"@.len() != "effect"@.len()); }
    assert("positionId"@ != "clientId"@) by { assert("positionId"@.len() != "clientId"@.len()); }
    assert("positionId"@ != "tpPrice"@) by { assert("positionId"@.len() != "tpPrice"@.len()); }
    assert("positionId"@ != "tpStopType"@) by { assert("positionId"@[0] != "tpStopType"@[0]); }
    assert("positionId"@ != "tpOrderType"@) by { assert("positionId"@.len() != "tpOrderType"@.len()); }
    assert("positionId"@ != "tpOrderPrice"@) by { assert("positionId"@.len() != "tpOrderPrice"@.len()); }
    assert("positionId"@ != "slPrice"@) by { assert("positionId"@.len() != "slPrice"@.len()); }
    assert("positionId"@ != "slStopType"@) by { assert("positionId"@[0] != "slStopType"@[0]); }
    assert("positionId"@ != "slOrderType"@) by { assert("positionId"@.len() != "slOrderType"@.len()); }
    assert("positionId"@ != "slOrderPrice"@) by { assert("positionId"@.len() != "slOrderPrice"@.len()); }
}

proof fn lemma_order_field_effect(
    symbol: &str,
    qty: &str,
    side: &str,
    trade_side: &str,
    order_type: &str,
    price: Option<&str>,
    postion_id: Option<&str>,
    effect: Option<&str>,
    client_id: Option<&str>,
    tp_price: Option<&str>,
    tp_stop_type: Option<&str>,
    tp_order_type: Option<&str>,
    tp_order_price: Option<&str>,
    sl_price: Option<&str>,
    sl_stop_type: Option<&str>,
    sl_order_type: Option<&str>,
    sl_order_price: Option<&str>,
)
    ensures
        ({
            let body = place_order_body(symbol, qty, side, trade_side, order_type, price, postion_id, effect, client_id, tp_price, tp_stop_type, tp_order_type, tp_order_price, sl_price, sl_stop_type, sl_order_type, sl_order_price);
            given_as(body, "effect"@, effect)
        }),
{
    reveal_strlit("symbol");
    reveal_strlit("qty");
    reveal_strlit("side");
    reveal_strlit("orderType");
    reveal_strlit("tradeSide");
    reveal_strlit("price");
    reveal_strlit("positionId");
    reveal_strlit("effect");
    reveal_strlit("clientId");
    reveal_strlit("tpPrice");
    reveal_strlit("tpStopType");
    reveal_strlit("tpOrderType");
    reveal_strlit("tpOrderPrice");
    reveal_strlit("slPrice");
    reveal_strlit("slStopType");
    reveal_strlit("slOrderType");
    reveal_strlit("slOrderPrice");
    assert("effect"@ != "symbol"@) by { assert("effect"@[0] != "symbol"@[0]); }
    assert("effect"@ != "qty"@) by { assert("effect"@.len() != "qty"@.len()); }
    assert("effect"@ != "side"@) by { assert("effect"@.len() != "side"@.len()); }
    assert("effect"@ != "orderType"@) by { assert("effect"@.len() != "orderType"@.len()); }
    assert("effect"@ != "tradeSide"@) by { assert("effect"@.len() != "tradeSide"@.len()); }
    assert("effect"@ != "price"@) by { assert("effect"@.len() != "price"@.len()); }
    assert("effect"@ != "positionId"@) by { assert("effect"@.len() != "positionId"@.len()); }
    assert("effect"@ != "clientId"@) by { assert("effect"@.len() != "clientId"@.len()); }
    assert("effect"@ != "tpPrice"@) by { assert("effect"@.len() != "tpPrice"@.len()); }
    assert("effect"@ != "tpStopType"@) by { assert("effect"@.len() != "tpStopType"@.len()); }
    assert("effect"@ != "tpOrderType"@) by { assert("effect"@.len() != "tpOrderType"@.len()); }
    assert("effect"@ != "tpOrderPrice"@) by { assert("effect"@.len() != "tpOrderPrice"@.len()); }
    assert("effect"@ != "slPrice"@) by { assert("effect"@.len() != "slPrice"@.len()); }
    assert("effect"@ != "slStopType"@) by { assert("effect"@.len() != "slStopType"@.len()); }
    assert("effect"@ != "slOrderType"@) by { assert("effect"@.len() != "slOrderType"@.len()); }
    assert("effect"@ != "slOrderPrice"@) by { assert("effect"@.len() != "slOrderPrice"@.len()); }
}

proof fn lemma_order_field_client_id(
    symbol: &str,
    qty: &str,
    side: &str,
    trade_side: &str,
    order_type: &str,
    price: Option<&str>,
    postion_id: Option<&str>,
    effect: Option<&str>,
    client_id: Option<&str>,
    tp_price: Option<&str>,
    tp_stop_type: Option<&str>,
    tp_order_type: Option<&str>,
    tp_order_price: Option<&str>,
    sl_price: Option<&str>,
    sl_stop_type: Option<&str>,
    sl_order_type: Option<&str>,
    sl_order_price: Option<&str>,
)
    ensures
        ({
            let body = place_order_body(symbol, qty, side, trade_side, order_type, price, postion_id, effect, client_id, tp_price, tp_stop_type, tp_order_type, tp_order_price, sl_price, sl_stop_type, sl_order_type, sl_order_price);
            given_as(body, "clientId"@, client_id)
        }),
{
    reveal_strlit("symbol");
    reveal_strlit("qty");
    reveal_strlit("side");
    reveal_strlit("orderType");
    reveal_strlit("tradeSide");
    reveal_strlit("price");
    reveal_strlit("positionId");
    reveal_strlit("effect");
    reveal_strlit("clientId");
    reveal_strlit("tpPrice");
    reveal_strlit("tpStopType");
    reveal_strlit("tpOrderType");
    reveal_strlit("tpOrderPrice");
    reveal_strlit("slPrice");
    reveal_strlit("slStopType");
    reveal_strlit("slOrderType");
    reveal_strlit("slOrderPrice");
    assert("clientId"@ != "symbol"@) by { assert("clientId"@.len() != "symbol"@.len()); }
    assert("clientId"@ != "qty"@) by { assert("clientId"@.len() != "qty"@.len()); }
    assert("clientId"@ != "side"@) by { assert("clientId"@.len() != "side"@.len()); }
    assert("clientId"@ != "orderType"@) by { assert("clientId"@.len() != "orderType"@.len()); }
    assert("clientId"@ != "tradeSide"@) by { assert("clientId"@.len() != "tradeSide"@.len()); }
    assert("clientId"@ != "price"@) by { assert("clientId"@.len() != "price"@.len()); }
    assert("clientId"@ != "positionId"@) by { assert("clientId"@.len() != "positionId"@.len()); }
    assert("clientId"@ != "effect"@) by { assert("clientId"@.len() != "effect"@.len()); }
    assert("clientId"@ != "tpPrice"@) by { assert("clientId"@.len() != "tpPrice"@.len()); }
    assert("clientId"@ != "tpStopType"@) by { assert("clientId"@.len() != "tpStopType"@.len()); }
    assert("clientId"@ != "tpOrderType"@) by { assert("clientId"@.len() != "tpOrderType"@.len()); }
    assert("clientId"@ != "tpOrderPrice"@) by { assert("clientId"@.len() != "tpOrderPrice"@.len()); }
    assert("clientId"@ != "slPrice"@) by { assert("clientId"@.len() != "slPrice"@.len()); }
    assert("clientId"@ != "slStopType"@) by { assert("clientId"@.len() != "slStopType"@.len()); }
    assert("clientId"@ != "slOrderType"@) by { assert("clientId"@.len() != "slOrderType"@.len()); }
    assert("clientId"@ != "slOrderPrice"@) by { assert("clientId"@.len() != "slOrderPrice"@.len()); }
}

proof fn lemma_order_field_tp_price(
    symbol: &str,
    qty: &str,
    side: &str,
    trade_side: &str,
    order_type: &str,
    price: Option<&str>,
    postion_id: Option<&str>,
    effect: Option<&str>,
    client_id: Option<&str>,
    tp_price: Option<&str>,
    tp_stop_type: Option<&str>,
    tp_order_type: Option<&str>,
    tp_order_price: Option<&str>,
    sl_price: Option<&str>,
    sl_stop_type: Option<&str>,
    sl_order_type: Option<&str>,
    sl_order_price: Option<&str>,
)
    ensures
        ({
            let body = place_order_body(symbol, qty, side, trade_side, order_type, price, postion_id, effect, client_id, tp_price, tp_stop_type, tp_order_type, tp_order_price, sl_price, sl_stop_type, sl_order_type, sl_order_price);
            given_as(body, "tpPrice"@, tp_price)
        }),
{
    reveal_strlit("symbol");
    reveal_strlit("qty");
    reveal_strlit("side");
    reveal_strlit("orderType");
    reveal_strlit("tradeSide");
    reveal_strlit("price");
    reveal_strlit("positionId");
    reveal_strlit("effect");
    reveal_strlit("clientId");
    reveal_strlit("tpPrice");
    reveal_strlit("tpStopType");
    reveal_strlit("tpOrderType");
    reveal_strlit("tpOrderPrice");
    reveal_strlit("slPrice");
    reveal_strlit("slStopType");
    reveal_strlit("slOrderType");
    reveal_strlit("slOrderPrice");
    assert("tpPrice"@ != "symbol"@) by { assert("tpPrice"@.len() != "symbol"@.len()); }
    assert("tpPrice"@ != "qty"@) by { assert("tpPrice"@.len() != "qty"@.len()); }
    assert("tpPrice"@ != "side"@) by { assert("tpPrice"@.len() != "side"@.len()); }
    assert("tpPrice"@ != "orderType"@) by { assert("tpPrice"@.len() != "orderType"@.len()); }
    assert("tpPrice"@ != "tradeSide"@) by { assert("tpPrice"@.len() != "tradeSide"@.len()); }
    assert("tpPrice"@ != "price"@) by { assert("tpPrice"@.len() != "price"@.len()); }
    assert("tpPrice"@ != "positionId"@) by { assert("tpPrice"@.len() != "positionId"@.len()); }
    assert("tpPrice"@ != "effect"@) by { assert("tpPrice"@.len() != "effect"@.len()); }
    assert("tpPrice"@ != "clientId"@) by { assert("tpPrice"@.len() != "clientId"@.len()); }
    assert("tpPrice"@ != "tpStopType"@) by { assert("tpPrice"@.len() != "tpStopType"@.len()); }
    assert("tpPrice"@ != "tpOrderType"@) by { assert("tpPrice"@.len() != "tpOrderType"@.len()); }
    assert("tpPrice"@ != "tpOrderPrice"@) by { assert("tpPrice"@.len() != "tpOrderPrice"@.len()); }
    assert("tpPrice"@ != "slPrice"@) by { assert("tpPrice"@[0] != "slPrice"@[0]); }
    assert("tpPrice"@ != "slStopType"@) by { assert("tpPrice"@.len() != "slStopType"@.len()); }
    assert("tpPrice"@ != "slOrderType"@) by { assert("tpPrice"@.len() != "slOrderType"@.len()); }
    assert("tpPrice"@ != "slOrderPrice"@) by { assert("tpPrice"@.len() != "slOrderPrice"@.len()); }
}

proof fn lemma_order_field_tp_stop_type(
    symbol: &str,
    qty: &str,
    side: &str,
    trade_side: &str,
    order_type: &str,
    price: Option<&str>,
    postion_id: Option<&str>,
    effect: Option<&str>,
    client_id: Option<&str>,
    tp_price: Option<&str>,
    tp_stop_type: Option<&str>,
    tp_order_type: Option<&str>,
    tp_order_price: Option<&str>,
    sl_price: Option<&str>,
    sl_stop_type: Option<&str>,
    sl_order_type: Option<&str>,
    sl_order_price: Option<&str>,
)
    ensures
        ({
            let body = place_order_body(symbol, qty, side, trade_side, order_type, price, postion_id, effect, client_id, tp_price, tp_stop_type, tp_order_type, tp_order_price, sl_price, sl_stop_type, sl_order_type, sl_order_price);
            given_as(body, "tpStopType"@, tp_stop_type)
        }),
{
    reveal_strlit("symbol");
    reveal_strlit("qty");
    reveal_strlit("side");
    reveal_strlit("orderType");
    reveal_strlit("tradeSide");
    reveal_strlit("price");
    reveal_strlit("positionId");
    reveal_strlit("effect");
    reveal_strlit("clientId");
    reveal_strlit("tpPrice");
    reveal_strlit("tpStopType");
    reveal_strlit("tpOrderType");
    reveal_strlit("tpOrderPrice");
    reveal_strlit("slPrice");
    reveal_strlit("slStopType");
    reveal_strlit("slOrderType");
    reveal_strlit("slOrderPrice");
    assert("tpStopType"@ != "symbol"@) by { assert("tpStopType"@.len() != "symbol"@.len()); }
    assert("tpStopType"@ != "qty"@) by { assert("tpStopType"@.len() != "qty"@.len()); }
    assert("tpStopType"@ != "side"@) by { assert("tpStopType"@.len() != "side"@.len()); }
    assert("tpStopType"@ != "orderType"@) by { assert("tpStopType"@.len() != "orderType"@.len()); }
    assert("tpStopType"@ != "tradeSide"@) by { assert("tpStopType"@.len() != "tradeSide"@.len()); }
    assert("tpStopType"@ != "price"@) by { assert("tpStopType"@.len() != "price"@.len()); }
    assert("tpStopType"@ != "positionId"@) by { assert("tpStopType"@[0] != "positionId"@[0]); }
    assert("tpStopType"@ != "effect"@) by { assert("tpStopType"@.len() != "effect"@.len()); }
    assert("tpStopType"@ != "clientId"@) by { assert("tpStopType"@.len() != "clientId"@.len()); }
    assert("tpStopType"@ != "tpPrice"@) by { assert("tpStopType"@.len() != "tpPrice"@.len()); }
    assert("tpStopType"@ != "tpOrderType"@) by { assert("tpStopType"@.len() != "tpOrderType"@.len()); }
    assert("tpStopType"@ != "tpOrderPrice"@) by { assert("tpStopType"@.len() != "tpOrderPrice"@.len()); }
    assert("tpStopType"@ != "slPrice"@) by { assert("tpStopType"@.len() != "slPrice"@.len()); }
    assert("tpStopType"@ != "slStopType"@) by { assert("tpStopType"@[0] != "slStopType"@[0]); }
    assert("tpStopType"@ != "slOrderType"@) by { assert("tpStopType"@.len() != "slOrderType"@.len()); }
    assert("tpStopType"@ != "slOrderPrice"@) by { assert("tpStopType"@.len() != "slOrderPrice"@.len()); }
}

proof fn lemma_order_field_tp_order_type(
    symbol: &str,
    qty: &str,
    side: &str,
    trade_side: &str,
    order_type: &str,
    price: Option<&str>,
    postion_id: Option<&str>,
    effect: Option<&str>,
    client_id: Option<&str>,
    tp_price: Option<&str>,
    tp_stop_type: Option<&str>,
    tp_order_type: Option<&str>,
    tp_order_price: Option<&str>,
    sl_price: Option<&str>,
    sl_stop_type: Option<&str>,
    sl_order_type: Option<&str>,
    sl_order_price: Option<&str>,
)
    ensures
        ({
            let body = place_order_body(symbol, qty, side, trade_side, order_type, price, postion_id, effect, client_id, tp_price, tp_stop_type, tp_order_type, tp_order_price, sl_price, sl_stop_type, sl_order_type, sl_order_price);
            given_as(body, "tpOrderType"@, tp_order_type)
        }),
{
    reveal_strlit("symbol");
    reveal_strlit("qty");
    reveal_strlit("side");
    reveal_strlit("orderType");
    reveal_strlit("tradeSide");
    reveal_strlit("price");
    reveal_strlit("positionId");
    reveal_strlit("effect");
    reveal_strlit("clientId");
    reveal_strlit("tpPrice");
    reveal_strlit("tpStopType");
    reveal_strlit("tpOrderType");
    reveal_strlit("tpOrderPrice");
    reveal_strlit("slPrice");
    reveal_strlit("slStopType");
    reveal_strlit("slOrderType");
    reveal_strlit("slOrderPrice");
    assert("tpOrderType"@ != "symbol"@) by { assert("tpOrderType"@.len() != "symbol"@.len()); }
    assert("tpOrderType"@ != "qty"@) by { assert("tpOrderType"@.len() != "qty"@.len()); }
    assert("tpOrderType"@ != "side"@) by { assert("tpOrderType"@.len() != "side"@.len()); }
    assert("tpOrderType"@ != "orderType"@) by { assert("tpOrderType"@.len() != "orderType"@.len()); }
    assert("tpOrderType"@ != "tradeSide"@) by { assert("tpOrderType"@.len() != "tradeSide"@.len()); }
    assert("tpOrderType"@ != "price"@) by { assert("tpOrderType"@.len() != "price"@.len()); }
    assert("tpOrderType"@ != "positionId"@) by { assert("tpOrderType"@.len() != "positionId"@.len()); }
    assert("tpOrderType"@ != "effect"@) by { assert("tpOrderType"@.len() != "effect"@.len()); }
    assert("tpOrderType"@ != "clientId"@) by { assert("tpOrderType"@.len() != "clientId"@.len()); }
    assert("tpOrderType"@ != "tpPrice"@) by { assert("tpOrderType"@.len() != "tpPrice"@.len()); }
    assert("tpOrderType"@ != "tpStopType"@) by { assert("tpOrderType"@.len() != "tpStopType"@.len()); }
    assert("tpOrderType"@ != "tpOrderPrice"@) by { assert("tpOrderType"@.len() != "tpOrderPrice"@.len()); }
    assert("tpOrderType"@ != "slPrice"@) by { assert("tpOrderType"@.len() != "slPrice"@.len()); }
    assert("tpOrderType"@ != "slStopType"@) by { assert("tpOrderType"@.len() != "slStopType"@.len()); }
    assert("tpOrderType"@ != "slOrderType"@) by { assert("tpOrderType"@[0] != "slOrderType"@[0]); }
    assert("tpOrderType"@ != "slOrderPrice"@) by { assert("tpOrderType"@.len() != "slOrderPrice"@.len()); }
}

proof fn lemma_order_field_tp_order_price(
    symbol: &str,
    qty: &str,
    side: &str,
    trade_side: &str,
    order_type: &str,
    price: Option<&str>,
    postion_id: Option<&str>,
    effect: Option<&str>,
    client_id: Option<&str>,
    tp_price: Option<&str>,
    tp_stop_type: Option<&str>,
    tp_order_type: Option<&str>,
    tp_order_price: Option<&str>,
    sl_price: Option<&str>,
    sl_stop_type: Option<&str>,
    sl_order_type: Option<&str>,
    sl_order_price: Option<&str>,
)
    ensures
        ({
            let body = place_order_body(symbol, qty, side, trade_side, order_type, price, postion_id, effect, client_id, tp_price, tp_stop_type, tp_order_type, tp_order_price, sl_price, sl_stop_type, sl_order_type, sl_order_price);
            given_as(body, "tpOrderPrice"@, tp_order_price)
        }),
{
    reveal_strlit("symbol");
    reveal_strlit("qty");
    reveal_strlit("side");
    reveal_strlit("orderType");
    reveal_strlit("tradeSide");
    reveal_strlit("price");
    reveal_strlit("positionId");
    reveal_strlit("effect");
    reveal_strlit("clientId");
    reveal_strlit("tpPrice");
    reveal_strlit("tpStopType");
    reveal_strlit("tpOrderType");
    reveal_strlit("tpOrderPrice");
    reveal_strlit("slPrice");
    reveal_strlit("slStopType");
    reveal_strlit("slOrderType");
    reveal_strlit("slOrderPrice");
    assert("tpOrderPrice"@ != "symbol"@) by { assert("tpOrderPrice"@.len() != "symbol"@.len()); }
    assert("tpOrderPrice"@ != "qty"@) by { assert("tpOrderPrice"@.len() != "qty"@.len()); }
    assert("tpOrderPrice"@ != "side"@) by { assert("tpOrderPrice"@.len() != "side"@.len()); }
    assert("tpOrderPrice"@ != "orderType"@) by { assert("tpOrderPrice"@.len() != "orderType"@.len()); }
    assert("tpOrderPrice"@ != "tradeSide"@) by { assert("tpOrderPrice"@.len() != "tradeSide"@.len()); }
    assert("tpOrderPrice"@ != "price"@) by { assert("tpOrderPrice"@.len() != "price"@.len()); }
    assert("tpOrderPrice"@ != "positionId"@) by { assert("tpOrderPrice"@.len() != "positionId"@.len()); }
    assert("tpOrderPrice"@ != "effect"@) by { assert("tpOrderPrice"@.len() != "effect"@.len()); }
    assert("tpOrderPrice"@ != "clientId"@) by { assert("tpOrderPrice"@.len() != "clientId"@.len()); }
    assert("tpOrderPrice"@ != "tpPrice"@) by { assert("tpOrderPrice"@.len() != "tpPrice"@.len()); }
    assert("tpOrderPrice"@ != "tpStopType"@) by { assert("tpOrderPrice"@.len() != "tpStopType"@.len()); }
    assert("tpOrderPrice"@ != "tpOrderType"@) by { assert("tpOrderPrice"@.len() != "tpOrderType"@.len()); }
    assert("tpOrderPrice"@ != "slPrice"@) by { assert("tpOrderPrice"@.len() != "slPrice"@.len()); }
    assert("tpOrderPrice"@ != "slStopType"@) by { assert("tpOrderPrice"@.len() != "slStopType"@.len()); }
    assert("tpOrderPrice"@ != "slOrderType"@) by { assert("tpOrderPrice"@.len() != "slOrderType"@.len()); }
    assert("tpOrderPrice"@ != "slOrderPrice"@) by { assert("tpOrderPrice"@[0] != "slOrderPrice"@[0]); }
}

proof fn lemma_order_field_sl_price(
    symbol: &str,
    qty: &str,
    side: &str,
    trade_side: &str,
    order_type: &str,
    price: Option<&str>,
    postion_id: Option<&str>,
    effect: Option<&str>,
    client_id: Option<&str>,
    tp_price: Option<&str>,
    tp_stop_type: Option<&str>,
    tp_order_type: Option<&str>,
    tp_order_price: Option<&str>,
    sl_price: Option<&str>,
    sl_stop_type: Option<&str>,
    sl_order_type: Option<&str>,
    sl_order_price: Option<&str>,
)
    ensures
        ({
            let body = place_order_body(symbol, qty, side, trade_side, order_type, price, postion_id, effect, client_id, tp_price, tp_stop_type, tp_order_type, tp_order_price, sl_price, sl_stop_type, sl_order_type, sl_order_price);
            given_as(body, "slPrice"@, sl_price)
        }),
{
    reveal_strlit("symbol");
    reveal_strlit("qty");
    reveal_strlit("side");
    reveal_strlit("orderType");
    reveal_strlit("tradeSide");
    reveal_strlit("price");
    reveal_strlit("positionId");
    reveal_strlit("effect");
    reveal_strlit("clientId");
    reveal_strlit("tpPrice");
    reveal_strlit("tpStopType");
    reveal_strlit("tpOrderType");
    reveal_strlit("tpOrderPrice");
    reveal_strlit("slPrice");
    reveal_strlit("slStopType");
    reveal_strlit("slOrderType");
    reveal_strlit("slOrderPrice");
    assert("slPrice"@ != "symbol"@) by { assert("slPrice"@.len() != "symbol"@.len()); }
    assert("slPrice"@ != "qty"@) by { assert("slPrice"@.len() != "qty"@.len()); }
    assert("slPrice"@ != "side"@) by { assert("slPrice"@.len() != "side"@.len()); }
    assert("slPrice"@ != "orderType"@) by { assert("slPrice"@.len() != "orderType"@.len()); }
    assert("slPrice"@ != "tradeSide"@) by { assert("slPrice"@.len() != "tradeSide"@.len()); }
    assert("slPrice"@ != "price"@) by { assert("slPrice"@.len() != "price"@.len()); }
    assert("slPrice"@ != "positionId"@) by { assert("slPrice"@.len() != "positionId"@.len()); }
    assert("slPrice"@ != "effect"@) by { assert("slPrice"@.len() != "effect"@.len()); }
    assert("slPrice"@ != "clientId"@) by { assert("slPrice"@.len() != "clientId"@.len()); }
    assert("slPrice"@ != "tpPrice"@) by { assert("slPrice"@[0] != "tpPrice"@[0]); }
    assert("slPrice"@ != "tpStopType"@) by { assert("slPrice"@.len() != "tpStopType"@.len()); }
    assert("slPrice"@ != "tpOrderType"@) by { assert("slPrice"@.len() != "tpOrderType"@.len()); }
    assert("slPrice"@ != "tpOrderPrice"@) by { assert("slPrice"@.len() != "tpOrderPrice"@.len()); }
    assert("slPrice"@ != "slStopType"@) by { assert("slPrice"@.len() != "slStopType"@.len()); }
    assert("slPrice"@ != "slOrderType"@) by { assert("slPrice"@.len() != "slOrderType"@.len()); }
    assert("slPrice"@ != "slOrderPrice"@) by { assert("slPrice"@.len() != "slOrderPrice"@.len()); }
}

proof fn lemma_order_field_sl_stop_type(
    symbol: &str,
    qty: &str,
    side: &str,
    trade_side: &str,
    order_type: &str,
    price: Option<&str>,
    postion_id: Option<&str>,
    effect: Option<&str>,
    client_id: Option<&str>,
    tp_price: Option<&str>,
    tp_stop_type: Option<&str>,
    tp_order_type: Option<&str>,
    tp_order_price: Option<&str>,
    sl_price: Option<&str>,
    sl_stop_type: Option<&str>,
    sl_order_type: Option<&str>,
    sl_order_price: Option<&str>,
)
    ensures
        ({
            let body = place_order_body(symbol, qty, side, trade_side, order_type, price, postion_id, effect, client_id, tp_price, tp_stop_type, tp_order_type, tp_order_price, sl_price, sl_stop_type, sl_order_type, sl_order_price);
            given_as(body, "slStopType"@, sl_stop_type)
        }),
{
    reveal_strlit("symbol");
    reveal_strlit("qty");
    reveal_strlit("side");
    reveal_strlit("orderType");
    reveal_strlit("tradeSide");
    reveal_strlit("price");
    reveal_strlit("positionId");
    reveal_strlit("effect");
    reveal_strlit("clientId");
    reveal_strlit("tpPrice");
    reveal_strlit("tpStopType");
    reveal_strlit("tpOrderType");
    reveal_strlit("tpOrderPrice");
    reveal_strlit("slPrice");
    reveal_strlit("slStopType");
    reveal_strlit("slOrderType");
    reveal_strlit("slOrderPrice");
    assert("slStopType"@ != "symbol"@) by { assert("slStopType"@.len() != "symbol"@.len()); }
    assert("slStopType"@ != "qty"@) by { assert("slStopType"@.len() != "qty"@.len()); }
    assert("slStopType"@ != "side"@) by { assert("slStopType"@.len() != "side"@.len()); }
    assert("slStopType"@ != "orderType"@) by { assert("slStopType"@.len() != "orderType"@.len()); }
    assert("slStopType"@ != "tradeSide"@) by { assert("slStopType"@.len() != "tradeSide"@.len()); }
    assert("slStopType"@ != "price"@) by { assert("slStopType"@.len() != "price"@.len()); }
    assert("slStopType"@ != "positionId"@) by { assert("slStopType"@[0] != "positionId"@[0]); }
    assert("slStopType"@ != "effect"@) by { assert("slStopType"@.len() != "effect"@.len()); }
    assert("slStopType"@ != "clientId"@) by { assert("slStopType"@.len() != "clientId"@.len()); }
    assert("slStopType"@ != "tpPrice"@) by { assert("slStopType"@.len() != "tpPrice"@.len()); }
    assert("slStopType"@ != "tpStopType"@) by { assert("slStopType"@[0] != "tpStopType"@[0]); }
    assert("slStopType"@ != "tpOrderType"@) by { assert("slStopType"@.len() != "tpOrderType"@.len()); }
    assert("slStopType"@ != "tpOrderPrice"@) by { assert("slStopType"@.len() != "tpOrderPrice"@.len()); }
    assert("slStopType"@ != "slPrice"@) by { assert("slStopType"@.len() != "slPrice"@.len()); }
    assert("slStopType"@ != "slOrderType"@) by { assert("slStopType"@.len() != "slOrderType"@.len()); }
    assert("slStopType"@ != "slOrderPrice"@) by { assert("slStopType"@.len() != "slOrderPrice"@.len()); }
}

proof fn lemma_order_field_sl_order_type(
    symbol: &str,
    qty: &str,
    side: &str,
    trade_side: &str,
    order_type: &str,
    price: Option<&str>,
    postion_id: Option<&str>,
    effect: Option<&str>,
    client_id: Option<&str>,
    tp_price: Option<&str>,
    tp_stop_type: Option<&str>,
    tp_order_type: Option<&str>,
    tp_order_price: Option<&str>,
    sl_price: Option<&str>,
    sl_stop_type: Option<&str>,
    sl_order_type: Option<&str>,
    sl_order_price: Option<&str>,
)
    ensures
        ({
            let body = place_order_body(symbol, qty, side, trade_side, order_type, price, postion_id, effect, client_id, tp_price, tp_stop_type, tp_order_type, tp_order_price, sl_price, sl_stop_type, sl_order_type, sl_order_price);
            given_as(body, "slOrderType"@, sl_order_type)
        }),
{
    reveal_strlit("symbol");
    reveal_strlit("qty");
    reveal_strlit("side");
    reveal_strlit("orderType");
    reveal_strlit("tradeSide");
    reveal_strlit("price");
    reveal_strlit("positionId");
    reveal_strlit("effect");
    reveal_strlit("clientId");
    reveal_strlit("tpPrice");
    reveal_strlit("tpStopType");
    reveal_strlit("tpOrderType");
    reveal_strlit("tpOrderPrice");
    reveal_strlit("slPrice");
    reveal_strlit("slStopType");
    reveal_strlit("slOrderType");
    reveal_strlit("slOrderPrice");
    assert("slOrderType"@ != "symbol"@) by { assert("slOrderType"@.len() != "symbol"@.len()); }
    assert("slOrderType"@ != "qty"@) by { assert("slOrderType"@.len() != "qty"@.len()); }
    assert("slOrderType"@ != "side"@) by { assert("slOrderType"@.len() != "side"@.len()); }
    assert("slOrderType"@ != "orderType"@) by { assert("slOrderType"@.len() != "orderType"@.len()); }
    assert("slOrderType"@ != "tradeSide"@) by { assert("slOrderType"@.len() != "tradeSide"@.len()); }
    assert("slOrderType"@ != "price"@) by { assert("slOrderType"@.len() != "price"@.len()); }
    assert("slOrderType"@ != "positionId"@) by { assert("slOrderType"@.len() != "positionId"@.len()); }
    assert("slOrderType"@ != "effect"@) by { assert("slOrderType"@.len() != "effect"@.len()); }
    assert("slOrderType"@ != "clientId"@) by { assert("slOrderType"@.len() != "clientId"@.len()); }
    assert("slOrderType"@ != "tpPrice"@) by { assert("slOrderType"@.len() != "tpPrice"@.len()); }
    assert("slOrderType"@ != "tpStopType"@) by { assert("slOrderType"@.len() != "tpStopType"@.len()); }
    assert("slOrderType"@ != "tpOrderType"@) by { assert("slOrderType"@[0] != "tpOrderType"@[0]); }
    assert("slOrderType"@ != "tpOrderPrice"@) by { assert("slOrderType"@.len() != "tpOrderPrice"@.len()); }
    assert("slOrderType"@ != "slPrice"@) by { assert("slOrderType"@.len() != "slPrice"@.len()); }
    assert("slOrderType"@ != "slStopType"@) by { assert("slOrderType"@.len() != "slStopType"@.len()); }
    assert("slOrderType"@ != "slOrderPrice"@) by { assert("slOrderType"@.len() != "slOrderPrice"@.len()); }
}

proof fn lemma_order_field_sl_order_price(
    symbol: &str,
    qty: &str,
    side: &str,
    trade_side: &str,
    order_type: &str,
    price: Option<&str>,
    postion_id: Option<&str>,
    effect: Option<&str>,
    client_id: Option<&str>,
    tp_price: Option<&str>,
    tp_stop_type: Option<&str>,
    tp_order_type: Option<&str>,
    tp_order_price: Option<&str>,
    sl_price: Option<&str>,
    sl_stop_type: Option<&str>,
    sl_order_type: Option<&str>,
    sl_order_price: Option<&str>,
)
    ensures
        ({
            let body = place_order_body(symbol, qty, side, trade_side, order_type, price, postion_id, effect, client_id, tp_price, tp_stop_type, tp_order_type, tp_order_price, sl_price, sl_stop_type, sl_order_type, sl_order_price);
            given_as(body, "slOrderPrice"@, sl_order_price)
        }),
{
    reveal_strlit("symbol");
    reveal_strlit("qty");
    reveal_strlit("side");
    reveal_strlit("orderType");
    reveal_strlit("tradeSide");
    reveal_strlit("price");
    reveal_strlit("positionId");
    reveal_strlit("effect");
    reveal_strlit("clientId");
    reveal_strlit("tpPrice");
    reveal_strlit("tpStopType");
    reveal_strlit("tpOrderType");
    reveal_strlit("tpOrderPrice");
    reveal_strlit("slPrice");
    reveal_strlit("slStopType");
    reveal_strlit("slOrderType");
    reveal_strlit("slOrderPrice");
    assert("slOrderPrice"@ != "symbol"@) by { assert("slOrderPrice"@.len() != "symbol"@.len()); }
    assert("slOrderPrice"@ != "qty"@) by { assert("slOrderPrice"@.len() != "qty"@.len()); }
    assert("slOrderPrice"@ != "side"@) by { assert("slOrderPrice"@.len() != "side"@.len()); }
    assert("slOrderPrice"@ != "orderType"@) by { assert("slOrderPrice"@.len() != "orderType"@.len()); }
    assert("slOrderPrice"@ != "tradeSide"@) by { assert("slOrderPrice"@.len() != "tradeSide"@.len()); }
    assert("slOrderPrice"@ != "price"@) by { assert("slOrderPrice"@.len() != "price"@.len()); }
    assert("slOrderPrice"@ != "positionId"@) by { assert("slOrderPrice"@.len() != "positionId"@.len()); }
    assert("slOrderPrice"@ != "effect"@) by { assert("slOrderPrice"@.len() != "effect"@.len()); }
    assert("slOrderPrice"@ != "clientId"@) by { assert("slOrderPrice"@.len() != "clientId"@.len()); }
    assert("slOrderPrice"@ != "tpPrice"@) by { assert("slOrderPrice"@.len() != "tpPrice"@.len()); }
    assert("slOrderPrice"@ != "tpStopType"@) by { assert("slOrderPrice"@.len() != "tpStopType"@.len()); }
    assert("slOrderPrice"@ != "tpOrderType"@) by { assert("slOrderPrice"@.len() != "tpOrderType"@.len()); }
    assert("slOrderPrice"@ != "tpOrderPrice"@) by { assert("slOrderPrice"@[0] != "tpOrderPrice"@[0]); }
    assert("slOrderPrice"@ != "slPrice"@) by { assert("slOrderPrice"@.len() != "slPrice"@.len()); }
    assert("slOrderPrice"@ != "slStopType"@) by { assert("slOrderPrice"@.len() != "slStopType"@.len()); }
    assert("slOrderPrice"@ != "slOrderType"@) by { assert("slOrderPrice"@.len() != "slOrderType"@.len()); }
}

proof fn lemma_order_keys(
    symbol: &str,
    qty: &str,
    side: &str,
    trade_side: &str,
    order_type: &str,
    price: Option<&str>,
    postion_id: Option<&str>,
    effect: Option<&str>,
    client_id: Option<&str>,
    tp_price: Option<&str>,
    tp_stop_type: Option<&str>,
    tp_order_type: Option<&str>,
    tp_order_price: Option<&str>,
    sl_price: Option<&str>,
    sl_stop_type: Option<&str>,
    sl_order_type: Option<&str>,
    sl_order_price: Option<&str>,
)
    ensures
        forall|k: Seq<char>| #[trigger] place_order_body(symbol, qty, side, trade_side, order_type, price, postion_id, effect, client_id, tp_price, tp_stop_type, tp_order_type, tp_order_price, sl_price, sl_stop_type, sl_order_type, sl_order_price).dom().contains(k) ==> k == "symbol"@ || k == "qty"@ || k == "side"@ || k == "orderType"@ || k == "tradeSide"@ || k == "price"@ || k == "positionId"@ || k == "effect"@ || k == "clientId"@ || k == "tpPrice"@ || k == "tpStopType"@ || k == "tpOrderType"@ || k == "tpOrderPrice"@ || k == "slPrice"@ || k == "slStopType"@ || k == "slOrderType"@ || k == "slOrderPrice"@,
{
}

/// An order's body holds each required field under its own key, each
/// optional field that is given under its own key (`price`, `positionId`,
/// `effect`, `clientId`, `tpPrice`, `tpStopType`, `tpOrderType`,
/// `tpOrderPrice`, `slPrice`, `slStopType`, `slOrderType`, `slOrderPrice`),
/// no key for a field that is not given, and no other key; every value is the
/// JSON string of its argument.
pub proof fn lemma_place_order_fields(
    symbol: &str,
    qty: &str,
    side: &str,
    trade_side: &str,
    order_type: &str,
    price: Option<&str>,
    postion_id: Option<&str>,
    effect: Option<&str>,
    client_id: Option<&str>,
    tp_price: Option<&str>,
    tp_stop_type: Option<&str>,
    tp_order_type: Option<&str>,
    tp_order_price: Option<&str>,
    sl_price: Option<&str>,
    sl_stop_type: Option<&str>,
    sl_order_type: Option<&str>,
    sl_order_price: Option<&str>,
)
    ensures
        ({
            let body = place_order_body(symbol, qty, side, trade_side, order_type, price, postion_id, effect, client_id, tp_price, tp_stop_type, tp_order_type, tp_order_price, sl_price, sl_stop_type, sl_order_type, sl_order_price);
            &&& body.dom().contains("symbol"@) && body["symbol"@] == json_string(symbol@)
            &&& body.dom().contains("qty"@) && body["qty"@] == json_string(qty@)
            &&& body.dom().contains("side"@) && body["side"@] == json_string(side@)
            &&& body.dom().contains("orderType"@) && body["orderType"@] == json_string(order_type@)
            &&& body.dom().contains("tradeSide"@) && body["tradeSide"@] == json_string(trade_side@)
            &&& given_as(body, "price"@, price)
            &&& given_as(body, "positionId"@, postion_id)
            &&& given_as(body, "effect"@, effect)
            &&& given_as(body, "clientId"@, client_id)
            &&& given_as(body, "tpPrice"@, tp_price)
            &&& given_as(body, "tpStopType"@, tp_stop_type)
            &&& given_as(body, "tpOrderType"@, tp_order_type)
            &&& given_as(body, "tpOrderPrice"@, tp_order_price)
            &&& given_as(body, "slPrice"@, sl_price)
            &&& given_as(body, "slStopType"@, sl_stop_type)
            &&& given_as(body, "slOrderType"@, sl_order_type)
            &&& given_as(body, "slOrderPrice"@, sl_order_price)
            &&& forall|k: Seq<char>| #[trigger] body.dom().contains(k) ==> k == "symbol"@ || k == "qty"@ || k == "side"@ || k == "orderType"@ || k == "tradeSide"@ || k == "price"@ || k == "positionId"@ || k == "effect"@ || k == "clientId"@ || k == "tpPrice"@ || k == "tpStopType"@ || k == "tpOrderType"@ || k == "tpOrderPrice"@ || k == "slPrice"@ || k == "slStopType"@ || k == "slOrderType"@ || k == "slOrderPrice"@
        }),
{
    lemma_order_field_symbol(symbol, qty, side, trade_side, order_type, price, postion_id, effect, client_id, tp_price, tp_stop_type, tp_order_type, tp_order_price, sl_price, sl_stop_type, sl_order_type, sl_order_price);
    lemma_order_field_qty(symbol, qty, side, trade_side, order_type, price, postion_id, effect, client_id, tp_price, tp_stop_type, tp_order_type, tp_order_price, sl_price, sl_stop_type, sl_order_type, sl_order_price);
    lemma_order_field_side(symbol, qty, side, trade_side, order_type, price, postion_id, effect, client_id, tp_price, tp_stop_type, tp_order_type, tp_order_price, sl_price, sl_stop_type, sl_order_type, sl_order_price);
    lemma_order_field_order_type(symbol, qty, side, trade_side, order_type, price, postion_id, effect, client_id, tp_price, tp_stop_type, tp_order_type, tp_order_price, sl_price, sl_stop_type, sl_order_type, sl_order_price);
    lemma_order_field_trade_side(symbol, qty, side, trade_side, order_type, price, postion_id, effect, client_id, tp_price, tp_stop_type, tp_order_type, tp_order_price, sl_price, sl_stop_type, sl_order_type, sl_order_price);
    lemma_order_field_price(symbol, qty, side, trade_side, order_type, price, postion_id, effect, client_id, tp_price, tp_stop_type, tp_order_type, tp_order_price, sl_price, sl_stop_type, sl_order_type, sl_order_price);
    lemma_order_field_postion_id(symbol, qty, side, trade_side, order_type, price, postion_id, effect, client_id, tp_price, tp_stop_type, tp_order_type, tp_order_price, sl_price, sl_stop_type, sl_order_type, sl_order_price);
    lemma_order_field_effect(symbol, qty, side, trade_side, order_type, price, postion_id, effect, client_id, tp_price, tp_stop_type, tp_order_type, tp_order_price, sl_price, sl_stop_type, sl_order_type, sl_order_price);
    lemma_order_field_client_id(symbol, qty, side, trade_side, order_type, price, postion_id, effect, client_id, tp_price, tp_stop_type, tp_order_type, tp_order_price, sl_price, sl_stop_type, sl_order_type, sl_order_price);
    lemma_order_field_tp_price(symbol, qty, side, trade_side, order_type, price, postion_id, effect, client_id, tp_price, tp_stop_type, tp_order_type, tp_order_price, sl_price, sl_stop_type, sl_order_type, sl_order_price);
    lemma_order_field_tp_stop_type(symbol, qty, side, trade_side, order_type, price, postion_id, effect, client_id, tp_price, tp_stop_type, tp_order_type, tp_order_price, sl_price, sl_stop_type, sl_order_type, sl_order_price);
    lemma_order_field_tp_order_type(symbol, qty, side, trade_side, order_type, price, postion_id, effect, client_id, tp_price, tp_stop_type, tp_order_type, tp_order_price, sl_price, sl_stop_type, sl_order_type, sl_order_price);
    lemma_order_field_tp_order_price(symbol, qty, side, trade_side, order_type, price, postion_id, effect, client_id, tp_price, tp_stop_type, tp_order_type, tp_order_price, sl_price, sl_stop_type, sl_order_type, sl_order_price);
    lemma_order_field_sl_price(symbol, qty, side, trade_side, order_type, price, postion_id, effect, client_id, tp_price, tp_stop_type, tp_order_type, tp_order_price, sl_price, sl_stop_type, sl_order_type, sl_order_price);
    lemma_order_field_sl_stop_type(symbol, qty, side, trade_side, order_type, price, postion_id, effect, client_id, tp_price, tp_stop_type, tp_order_type, tp_order_price, sl_price, sl_stop_type, sl_order_type, sl_order_price);
    lemma_order_field_sl_order_type(symbol, qty, side, trade_side, order_type, price, postion_id, effect, client_id, tp_price, tp_stop_type, tp_order_type, tp_order_price, sl_price, sl_stop_type, sl_order_type, sl_order_price);
    lemma_order_field_sl_order_price(symbol, qty, side, trade_side, order_type, price, postion_id, effect, client_id, tp_price, tp_stop_type, tp_order_type, tp_order_price, sl_price, sl_stop_type, sl_order_type, sl_order_price);
    lemma_order_keys(symbol, qty, side, trade_side, order_type, price, postion_id, effect, client_id, tp_price, tp_stop_type, tp_order_type, tp_order_price, sl_price, sl_stop_type, sl_order_type, sl_order_price);
}

/// The JSON object for one order to cancel: its `clientId` and `orderId`, in key order.
pub open spec fn cancel_item_text(order_id: Seq<char>, client_id: Seq<char>) -> Seq<char> {
    object_text(seq![
        (json_string("clientId"@), json_string(client_id)),
        (json_string("orderId"@), json_string(order_id)),
    ])
}

/// The JSON array of the orders to cancel, in the given order.
pub open spec fn cancel_list_text(orders: Seq<TradePlceOrder>) -> Seq<char> {
    array_text(orders.map_values(|o: TradePlceOrder| cancel_item_text(o.order_id@, o.client_id@)))
}

/// The order list is always a JSON array, for every number of orders: `[`,
/// then for each order in turn the object `{"clientId":..,"orderId":..}` of
/// its identifiers, separated by commas, then `]`.
pub proof fn lemma_cancel_list_is_array(orders: Seq<TradePlceOrder>)
    ensures
        cancel_list_text(orders) == array_text(orders.map_values(|o: TradePlceOrder|
            object_text(seq![
                (json_string("clientId"@), json_string(o.client_id@)),
                (json_string("orderId"@), json_string(o.order_id@)),
            ]))),
        cancel_list_text(orders).len() >= 2,
        cancel_list_text(orders)[0] == '[',
        cancel_list_text(orders).last() == ']',
{
    let items = orders.map_values(|o: TradePlceOrder| cancel_item_text(o.order_id@, o.client_id@));
    let objects = orders.map_values(|o: TradePlceOrder|
        object_text(seq![
            (json_string("clientId"@), json_string(o.client_id@)),
            (json_string("orderId"@), json_string(o.order_id@)),
        ]));
    assert(items =~= objects);
    let t = array_text(items);
    assert(t == seq!['['] + crate::json::join(items, seq![',']) + seq![']']);
    assert(t[0] == '[');
    assert(t[t.len() - 1] == ']');
}

fn cancel_item(order: &TradePlceOrder) -> (res: String)
    ensures
        res@ == cancel_item_text(order.order_id@, order.client_id@),
{
    let mut members: Vec<(String, String)> = Vec::new();
    members.push((json_quote("clientId"), json_quote(order.client_id.as_str())));
    members.push((json_quote("orderId"), json_quote(order.order_id.as_str())));
    let res = frame_object(&members);
    assert(crate::json::pairs_view(members@) =~= seq![
        (json_string("clientId"@), json_string(order.client_id@)),
        (json_string("orderId"@), json_string(order.order_id@)),
    ]);
    res
}

impl BitUnixClient {
    /// Places an order: POST /api/v1/futures/trade/place_order with a body of
    /// the required fields and each optional field that is given, all as JSON strings.
    pub fn trade_place_order(
        &self,
        symbol: &str,
        qty: &str,
        side: &str,
        trade_side: &str,
        order_type: &str,
        price: Option<&str>,
        postion_id: Option<&str>,
        effect: Option<&str>,
        client_id: Option<&str>,
        tp_price: Option<&str>,
        tp_stop_type: Option<&str>,
        tp_order_type: Option<&str>,
        tp_order_price: Option<&str>,
        sl_price: Option<&str>,
        sl_stop_type: Option<&str>,
        sl_order_type: Option<&str>,
        sl_order_price: Option<&str>,
    ) -> (res: ApiCall)
        ensures
            res.method == HttpMethod::Post,
            res.path@ == "/api/v1/futures/trade/place_order"@,
            res.query@.len() == 0,
            res.body.as_map() == place_order_body(
                symbol, qty, side, trade_side, order_type, price, postion_id, effect, client_id,
                tp_price, tp_stop_type, tp_order_type, tp_order_price,
                sl_price, sl_stop_type, sl_order_type, sl_order_price,
            ),
    {
        let mut params = ParamMap::new();
        insert_json_str(&mut params, "symbol", symbol);
        insert_json_str(&mut params, "qty", qty);
        insert_json_str(&mut params, "side", side);
        insert_json_str(&mut params, "orderType", order_type);
        insert_json_str(&mut params, "tradeSide", trade_side);
        insert_opt(&mut params, "price", price);
        insert_opt(&mut params, "positionId", postion_id);
        insert_opt(&mut params, "effect", effect);
        insert_opt(&mut params, "clientId", client_id);
        insert_opt(&mut params, "tpPrice", tp_price);
        insert_opt(&mut params, "tpStopType", tp_stop_type);
        insert_opt(&mut params, "tpOrderType", tp_order_type);
        insert_opt(&mut params, "tpOrderPrice", tp_order_price);
        insert_opt(&mut params, "slPrice", sl_price);
        insert_opt(&mut params, "slStopType", sl_stop_type);
        insert_opt(&mut params, "slOrderType", sl_order_type);
        insert_opt(&mut params, "slOrderPrice", sl_order_price);
        ApiCall {
            method: HttpMethod::Post,
            path: "/api/v1/futures/trade/place_order".to_owned(),
            query: ParamMap::new(),
            body: params,
        }
    }

    /// Cancels orders of a symbol: POST /api/v1/futures/trade/cancel_orders with
    /// `symbol` and `orderList`, the array of the orders' identifiers.
    pub fn cancle_orders(&self, symbol: &str, order_list: Vec<TradePlceOrder>) -> (res: ApiCall)
        ensures
            res.method == HttpMethod::Post,
            res.path@ == "/api/v1/futures/trade/cancel_orders"@,
            res.query@.len() == 0,
            res.body.as_map() == Map::<Seq<char>, Seq<char>>::empty()
                .insert("symbol"@, json_string(symbol@))
                .insert("orderList"@, cancel_list_text(order_list@)),
    {
        let mut items: Vec<String> = Vec::new();
        let n = order_list.len();
        let ghost want = order_list@.map_values(|o: TradePlceOrder| cancel_item_text(o.order_id@, o.client_id@));
        for i in 0..n
            invariant
                n == order_list@.len(),
                want == order_list@.map_values(|o: TradePlceOrder| cancel_item_text(o.order_id@, o.client_id@)),
                strings_view(items@) =~= want.take(i as int),
        {
            let item = cancel_item(&order_list[i]);
            let ghost before = items@;
            items.push(item);
            assert(strings_view(items@) =~= strings_view(before).push(want[i as int]));
            assert(want.take(i + 1) =~= want.take(i as int).push(want[i as int]));
        }
        assert(want.take(n as int) =~= want);
        let list = frame_array(&items);
        let mut params = ParamMap::new();
        insert_json_str(&mut params, "symbol", symbol);
        params.insert("orderList".to_owned(), list);
        ApiCall {
            method: HttpMethod::Post,
            path: "/api/v1/futures/trade/cancel_orders".to_owned(),
            query: ParamMap::new(),
            body: params,
        }
    }

    /// Details of an order: GET /api/v1/futures/trade/get_order_detail with `orderId`.
    pub fn order_details(&self, order_id: &str) -> (res: ApiCall)
        ensures
            res.method == HttpMethod::Get,
            res.path@ == "/api/v1/futures/trade/get_order_detail"@,
            res.query.as_map() == Map::<Seq<char>, Seq<char>>::empty().insert("orderId"@, order_id@),
            res.body@.len() == 0,
    {
        let mut params = ParamMap::new();
        params.insert("orderId".to_owned(), order_id.to_owned());
        ApiCall {
            method: HttpMethod::Get,
            path: "/api/v1/futures/trade/get_order_detail".to_owned(),
            query: params,
            body: ParamMap::new(),
        }
    }

    /// Closes every position of a symbol: POST /api/v1/futures/trade/close_all_position
    /// with `symbol`.
    pub fn close_all_position(&self, symbol: &str) -> (res: ApiCall)
        ensures
            res.method == HttpMethod::Post,
            res.path@ == "/api/v1/futures/trade/close_all_position"@,
            res.query@.len() == 0,
            res.body.as_map() == Map::<Seq<char>, Seq<char>>::empty().insert("symbol"@, json_string(symbol@)),
    {
        let mut params = ParamMap::new();
        insert_json_str(&mut params, "symbol", symbol);
        ApiCall {
            method: HttpMethod::Post,
            path: "/api/v1/futures/trade/close_all_position".to_owned(),
            query: ParamMap::new(),
            body: params,
        }
    }
}

} // verus!
