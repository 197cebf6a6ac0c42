use bitunix::client::BitUnixClient;
use bitunix::json::insert_json_str;
use bitunix::params::{key_less, ParamMap};
use bitunix::restful::models::TradePlceOrder;
use bitunix::restful::sign::HttpMethod;

fn client() -> BitUnixClient {
    BitUnixClient::new(
        false,
        false,
        "testkey".to_string(),
        "testsecret".to_string(),
        "https://fapi.bitunix.com/".to_string(),
    )
}

fn params(pairs: &[(&str, &str)]) -> ParamMap {
    let mut m = ParamMap::new();
    for (k, v) in pairs {
        m.insert(k.to_string(), v.to_string());
    }
    m
}

const NONCE: &str = "abcdefghijklmnopqrstuvwxyzABCDEF";
const TS: &str = "1700000000000";

#[test]
fn new_keeps_fields() {
    let c = BitUnixClient::new(true, false, "k".to_string(), "s".to_string(), "d".to_string());
    assert!(c.debug);
    assert!(!c.testnet);
    assert_eq!(c.api_key, "k");
    assert_eq!(c.secret_key, "s");
    assert_eq!(c.domain, "d");
}

#[test]
fn keys_compare_by_bytes() {
    assert!(key_less("B", "a"));
    assert!(!key_less("a", "B"));
    assert!(key_less("ab", "abc"));
    assert!(!key_less("abc", "abc"));
    assert!(key_less("", "a"));
    assert!(key_less("z", "é"));
}

#[test]
fn query_string_is_in_key_order() {
    let m = params(&[("symbol", "BTCUSDT"), ("interval", "15m"), ("startTime", "1")]);
    assert_eq!(BitUnixClient::build_query_string(&m), "interval15mstartTime1symbolBTCUSDT");
    assert_eq!(BitUnixClient::build_query_string(&ParamMap::new()), "");
}

#[test]
fn insertion_order_does_not_matter() {
    let a = params(&[("b", "2"), ("a", "1"), ("c", "3")]);
    let b = params(&[("c", "3"), ("b", "2"), ("a", "1")]);
    assert_eq!(a.entries(), b.entries());
    assert_eq!(BitUnixClient::build_query_string(&a), BitUnixClient::build_query_string(&b));
}

#[test]
fn insert_replaces_an_existing_key() {
    let mut m = params(&[("symbol", "BTCUSDT"), ("qty", "1")]);
    assert_eq!(m.len(), 2);
    m.insert("symbol".to_string(), "ETHUSDT".to_string());
    assert_eq!(m.len(), 2);
    assert_eq!(BitUnixClient::build_query_string(&m), "qty1symbolETHUSDT");
    assert!(!m.is_empty());
    assert!(ParamMap::new().is_empty());
}

#[test]
fn full_url_without_query() {
    let c = client();
    assert_eq!(
        c.build_full_url("/api/v1/futures/account", &ParamMap::new()),
        "https://fapi.bitunix.com/api/v1/futures/account"
    );
}

#[test]
fn full_url_trims_every_extra_slash() {
    let c = BitUnixClient::new(false, false, String::new(), String::new(), "https://x.com///".to_string());
    assert_eq!(c.build_full_url("//a/b", &ParamMap::new()), "https://x.com/a/b");
}

#[test]
fn full_url_encodes_the_query() {
    let c = client();
    let m = params(&[("symbol", "BTC USDT"), ("note", "a&b=é~-._")]);
    assert_eq!(
        c.build_full_url("api/v1/x", &m),
        "https://fapi.bitunix.com/api/v1/x?note=a%26b%3D%C3%A9~-._&symbol=BTC%20USDT"
    );
}

#[test]
fn compact_json_removes_spaces_everywhere() {
    let mut body = ParamMap::new();
    insert_json_str(&mut body, "symbol", "BTC USDT");
    insert_json_str(&mut body, "note", "say \"hi\"");
    assert_eq!(
        BitUnixClient::compact_json(&body),
        "{\"note\":\"say\\\"hi\\\"\",\"symbol\":\"BTCUSDT\"}"
    );
    assert_eq!(BitUnixClient::compact_json(&ParamMap::new()), "{}");
}

#[test]
fn sha256_hex_of_known_inputs() {
    assert_eq!(
        bitunix::crypto::sha256_hex("abc"),
        "ba7816bf8f01cfea414140de5dae2223b00361a396177a9cb410ff61f20015ad"
    );
    assert_eq!(
        bitunix::crypto::sha256_hex(""),
        "e3b0c44298fc1c149afbf4c8996fb92427ae41e4649b934ca495991b7852b855"
    );
}

#[test]
fn nonce_is_32_alphanumerics() {
    let n = BitUnixClient::generate_nonce();
    assert_eq!(n.chars().count(), 32);
    assert!(n.chars().all(|c| c.is_ascii_alphanumeric()));
    assert_ne!(n, BitUnixClient::generate_nonce());
}

#[test]
fn timestamp_is_decimal_millis() {
    let t = client().get_timestamp();
    let v: i64 = t.parse().unwrap();
    assert!(v > 1_600_000_000_000);
    assert_eq!(v.to_string(), t);
}

#[test]
fn signed_get_request() {
    let c = client();
    let call = c.account("USDT".to_string());
    assert_eq!(call.method, HttpMethod::Get);
    let r = c.sign_call(&call, NONCE, TS);
    assert_eq!(r.method, HttpMethod::Get);
    assert_eq!(r.url, "https://fapi.bitunix.com/api/v1/futures/account?marginCoin=USDT");
    assert!(r.body.is_none());
    let h: Vec<(&str, &str)> = r.headers.iter().map(|(a, b)| (a.as_str(), b.as_str())).collect();
    assert_eq!(
        h,
        vec![
            ("api-key", "testkey"),
            ("nonce", NONCE),
            ("time", TS),
            ("sign", "8712e8cea41aafc6d41fffb3cb62696a6421c6d5d3a8a9fc435aaee174efc4cf"),
            ("Content-Type", "application/json"),
        ]
    );
}

#[test]
fn signed_post_request() {
    let c = client();
    let mut body = ParamMap::new();
    insert_json_str(&mut body, "symbol", "BTCUSDT");
    insert_json_str(&mut body, "side", "BUY");
    insert_json_str(&mut body, "qty", "0.5");
    let r = c.post("/api/v1/futures/trade/place_order", &ParamMap::new(), &body, NONCE, TS);
    assert_eq!(r.method, HttpMethod::Post);
    assert_eq!(r.url, "https://fapi.bitunix.com/api/v1/futures/trade/place_order");
    assert_eq!(r.body.as_deref(), Some("{\"qty\":\"0.5\",\"side\":\"BUY\",\"symbol\":\"BTCUSDT\"}"));
    let h: Vec<(&str, &str)> = r.headers.iter().map(|(a, b)| (a.as_str(), b.as_str())).collect();
    assert_eq!(
        h,
        vec![
            ("Api-Key", "testkey"),
            ("Nonce", NONCE),
            ("Timestamp", TS),
            ("Sign", "cbe597fc0818b5c74976c41d01a776c6c128e78c7d6d04029f416b0993ba30e2"),
            ("Content-Type", "application/json"),
        ]
    );
}

#[test]
fn sign_now_uses_a_fresh_nonce_and_time() {
    let c = client();
    let call = c.pending_positions("BTCUSDT");
    let r = c.sign_now(&call);
    assert_eq!(r.headers[1].0, "nonce");
    assert_eq!(r.headers[1].1.len(), 32);
    assert!(r.headers[2].1.parse::<i64>().unwrap() > 0);
    assert_eq!(r.headers[3].1.len(), 64);
    assert_eq!(r.url, "https://fapi.bitunix.com/api/v1/futures/position/get_pending_positions?symbol=BTCUSDT");
}

#[test]
fn account_call() {
    let call = client().account("USDT".to_string());
    assert_eq!(call.path, "/api/v1/futures/account");
    assert_eq!(BitUnixClient::build_query_string(&call.query), "marginCoinUSDT");
    assert!(call.body.is_empty());
}

#[test]
fn history_calls_with_and_without_symbol() {
    let c = client();
    let a = c.histroy_postions(Some("BTCUSDT".to_string()));
    assert_eq!(a.path, "/api/v1/futures/position/get_history_positions");
    assert_eq!(BitUnixClient::build_query_string(&a.query), "symbolBTCUSDT");
    let b = c.histroy_postions(None);
    assert!(b.query.is_empty());
    let t = c.history_trades(None);
    assert_eq!(t.path, "/api/v1/futures/trade/get_history_trades");
    assert!(t.query.is_empty());
    let t = c.history_trades(Some("ETHUSDT".to_string()));
    assert_eq!(BitUnixClient::build_query_string(&t.query), "symbolETHUSDT");
}

#[test]
fn kline_call_of_the_documented_example() {
    let c = client();
    let call = c.futures_market_kline("BTCUSDT", 1, 10234, "15m");
    let r = c.sign_call(&call, NONCE, TS);
    assert_eq!(
        r.url,
        "https://fapi.bitunix.com/api/v1/futures/market/kline?endTime=10234&interval=15m&startTime=1&symbol=BTCUSDT"
    );
}

#[test]
fn kline_call() {
    let c = client();
    let call = c.futures_market_kline("BTCUSDT", 1, -10234, "15m");
    assert_eq!(call.method, HttpMethod::Get);
    assert_eq!(call.path, "/api/v1/futures/market/kline");
    assert_eq!(
        BitUnixClient::build_query_string(&call.query),
        "endTime-10234interval15mstartTime1symbolBTCUSDT"
    );
    let r = c.sign_call(&call, NONCE, TS);
    assert_eq!(
        r.url,
        "https://fapi.bitunix.com/api/v1/futures/market/kline?endTime=-10234&interval=15m&startTime=1&symbol=BTCUSDT"
    );
}

#[test]
fn place_order_body() {
    let c = client();
    let call = c.trade_place_order(
        "BTCUSDT", "0.01", "BUY", "OPEN", "LIMIT", Some("60000"), None, Some("GTC"), None, None, None, None,
        None, Some("50000"), None, None, None,
    );
    assert_eq!(call.method, HttpMethod::Post);
    assert_eq!(call.path, "/api/v1/futures/trade/place_order");
    assert!(call.query.is_empty());
    assert_eq!(
        BitUnixClient::compact_json(&call.body),
        "{\"effect\":\"GTC\",\"orderType\":\"LIMIT\",\"price\":\"60000\",\"qty\":\"0.01\",\"side\":\"BUY\",\"slPrice\":\"50000\",\"symbol\":\"BTCUSDT\",\"tradeSide\":\"OPEN\"}"
    );
}

#[test]
fn cancel_orders_body() {
    let c = client();
    let orders = vec![
        TradePlceOrder { order_id: "o1".to_string(), client_id: "c1".to_string() },
        TradePlceOrder { order_id: "o2".to_string(), client_id: "c2".to_string() },
    ];
    let call = c.cancle_orders("BTCUSDT", orders);
    assert_eq!(call.path, "/api/v1/futures/trade/cancel_orders");
    assert_eq!(
        BitUnixClient::compact_json(&call.body),
        "{\"orderList\":[{\"clientId\":\"c1\",\"orderId\":\"o1\"},{\"clientId\":\"c2\",\"orderId\":\"o2\"}],\"symbol\":\"BTCUSDT\"}"
    );
    let empty = c.cancle_orders("X", Vec::new());
    assert_eq!(BitUnixClient::compact_json(&empty.body), "{\"orderList\":[],\"symbol\":\"X\"}");
}

#[test]
fn order_details_and_close_all() {
    let c = client();
    let d = c.order_details("123");
    assert_eq!(d.method, HttpMethod::Get);
    assert_eq!(d.path, "/api/v1/futures/trade/get_order_detail");
    assert_eq!(BitUnixClient::build_query_string(&d.query), "orderId123");
    let x = c.close_all_position("BTCUSDT");
    assert_eq!(x.method, HttpMethod::Post);
    assert_eq!(x.path, "/api/v1/futures/trade/close_all_position");
    assert_eq!(BitUnixClient::compact_json(&x.body), "{\"symbol\":\"BTCUSDT\"}");
}

#[test]
fn json_strings_escape_controls_quotes_and_backslashes() {
    let mut body = ParamMap::new();
    insert_json_str(&mut body, "k", "a\nb\u{1}\t\"\\\u{8}\u{c}\r\u{1f}\u{7f}é");
    assert_eq!(
        BitUnixClient::compact_json(&body),
        "{\"k\":\"a\\nb\\u0001\\t\\\"\\\\\\b\\f\\r\\u001f\u{7f}é\"}"
    );
}

#[test]
fn query_string_of_key_separated_maps_concatenates() {
    let a = params(&[("alpha", "1"), ("beta", "22")]);
    let b = params(&[("gamma", "333"), ("zeta", "4")]);
    let merged = params(&[("zeta", "4"), ("alpha", "1"), ("gamma", "333"), ("beta", "22")]);
    let qa = BitUnixClient::build_query_string(&a);
    let qb = BitUnixClient::build_query_string(&b);
    let qm = BitUnixClient::build_query_string(&merged);
    assert_eq!(qm, format!("{}{}", qa, qb));
    assert_eq!(qm.len(), "alpha1beta22gamma333zeta4".len());
}

#[test]
fn compact_body_reads_back_to_the_same_value() {
    let mut body = ParamMap::new();
    insert_json_str(&mut body, "symbol", "BTCUSDT");
    insert_json_str(&mut body, "note", "tab\there\"q\"");
    insert_json_str(&mut body, "qty", "0.5");
    let text = BitUnixClient::compact_json(&body);
    let mut expected = serde_json::Map::new();
    expected.insert("symbol".to_string(), serde_json::Value::String("BTCUSDT".to_string()));
    expected.insert("note".to_string(), serde_json::Value::String("tab\there\"q\"".to_string()));
    expected.insert("qty".to_string(), serde_json::Value::String("0.5".to_string()));
    let expected = serde_json::Value::Object(expected);
    assert_eq!(text, expected.to_string());
    let back: serde_json::Value = serde_json::from_str(&text).unwrap();
    assert_eq!(back, expected);
}
