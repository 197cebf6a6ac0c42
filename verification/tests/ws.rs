use bitunix::ws::futures_ws_private::{
    channel_message, generate_nonce, generate_signature, login_and_subscribe, login_message, private_url,
    PrivateAction, PrivateEvent, PrivateSession, MAX_RETRY_ATTEMPTS,
};
use bitunix::ws::websocket::{
    ping_message, ping_message_now, public_url, subscribe_message, PublicAction, PublicEvent, PublicSession,
};

#[test]
fn stream_urls() {
    assert_eq!(public_url("fapi.bitunix.com"), "wss://fapi.bitunix.com/public/");
    assert_eq!(private_url("fapi.bitunix.com"), "wss://fapi.bitunix.com/private/");
}

#[test]
fn public_messages() {
    assert_eq!(
        subscribe_message("market_kline_1min", "BTCUSDT"),
        "{\"args\":[{\"ch\":\"market_kline_1min\",\"symbol\":\"BTCUSDT\"}],\"op\":\"subscribe\"}"
    );
    assert_eq!(ping_message(123), "{\"op\":\"ping\",\"ping\":123}");
    assert!(ping_message_now().starts_with("{\"op\":\"ping\",\"ping\":"));
}

#[test]
fn login_signature_and_message() {
    let sign = generate_signature("testkey", "testsecret", 1700000000000, "abcdefghijklmnopqrstuvwxyzABCDEF");
    assert_eq!(sign, "b3d6bba1755f11d4cd5abc9728b45c2dc9ca9dab6f4861bc1187d8bdd3412784");
    assert_eq!(
        login_message("k", 5, "n", "s"),
        "{\"args\":[{\"apiKey\":\"k\",\"nonce\":\"n\",\"sign\":\"s\",\"timestamp\":5}],\"op\":\"login\"}"
    );
    assert_eq!(channel_message("balance", 7), "{\"ch\":\"balance\",\"ts\":7}");
    let n = generate_nonce();
    assert_eq!(n.len(), 32);
    assert!(n.chars().all(|c| c.is_ascii_alphanumeric()));
}

#[test]
fn login_and_subscribe_messages() {
    let msgs = login_and_subscribe("k", "s", &vec!["balance".to_string(), "order".to_string()]);
    assert_eq!(msgs.len(), 3);
    assert!(msgs[0].starts_with("{\"args\":[{\"apiKey\":\"k\",\"nonce\":\""));
    assert!(msgs[0].ends_with("}],\"op\":\"login\"}"));
    assert!(msgs[1].starts_with("{\"ch\":\"balance\",\"ts\":"));
    assert!(msgs[2].starts_with("{\"ch\":\"order\",\"ts\":"));
}

fn reconnect_wait(a: PublicAction) -> u64 {
    match a {
        PublicAction::Reconnect(w) => w,
        _ => panic!("expected a reconnection"),
    }
}

#[test]
fn public_backoff_doubles_up_to_sixty() {
    let mut s = PublicSession::new("market_kline_1min", "BTCUSDT");
    let waits: Vec<u64> = (0..7).map(|_| reconnect_wait(s.on_event(PublicEvent::ConnectFailed))).collect();
    assert_eq!(waits, vec![5, 10, 20, 40, 60, 60, 60]);
    match s.on_event(PublicEvent::Connected) {
        PublicAction::Send(m) => assert_eq!(m, subscribe_message("market_kline_1min", "BTCUSDT")),
        _ => panic!("expected the subscription"),
    }
    assert_eq!(s.retry_delay(), 5);
    assert_eq!(reconnect_wait(s.on_event(PublicEvent::Disconnected)), 5);
    assert_eq!(reconnect_wait(s.on_event(PublicEvent::HeartbeatFailed)), 10);
    assert_eq!(reconnect_wait(s.on_event(PublicEvent::SubscribeFailed)), 0);
    assert_eq!(s.retry_delay(), 20);
}

#[test]
fn public_messages_are_delivered() {
    let mut s = PublicSession::new("c", "s");
    match s.on_event(PublicEvent::Text("{\"x\":1}".to_string())) {
        PublicAction::Deliver(t) => assert_eq!(t, "{\"x\":1}"),
        _ => panic!("expected delivery"),
    }
    assert!(matches!(s.on_event(PublicEvent::Pong), PublicAction::Ignore));
    assert!(matches!(s.on_event(PublicEvent::Other), PublicAction::Ignore));
    match s.on_event(PublicEvent::HeartbeatDue) {
        PublicAction::Send(m) => assert!(m.starts_with("{\"op\":\"ping\",\"ping\":")),
        _ => panic!("expected a ping"),
    }
}

#[test]
fn private_gives_up_after_fifteen_failures() {
    let mut s = PrivateSession::new("k", "s", vec!["balance".to_string()]);
    let mut waits = Vec::new();
    for _ in 0..(MAX_RETRY_ATTEMPTS - 1) {
        match s.on_event(PrivateEvent::ConnectFailed) {
            PrivateAction::Reconnect(w) => waits.push(w),
            _ => panic!("expected a reconnection"),
        }
    }
    assert_eq!(waits, vec![5, 10, 20, 40, 60, 60, 60, 60, 60, 60, 60, 60, 60, 60]);
    assert_eq!(s.retry_count(), 14);
    assert!(matches!(s.on_event(PrivateEvent::ConnectFailed), PrivateAction::Stop(60)));
}

#[test]
fn private_connection_resets_and_logs_in() {
    let mut s = PrivateSession::new("k", "s", vec!["balance".to_string(), "position".to_string()]);
    let _ = s.on_event(PrivateEvent::ConnectFailed);
    let _ = s.on_event(PrivateEvent::ConnectFailed);
    assert_eq!(s.retry_count(), 2);
    match s.on_event(PrivateEvent::Connected) {
        PrivateAction::Send(msgs) => {
            assert_eq!(msgs.len(), 3);
            assert!(msgs[0].contains("\"op\":\"login\""));
            assert!(msgs[2].starts_with("{\"ch\":\"position\""));
        }
        _ => panic!("expected the login"),
    }
    assert_eq!(s.retry_count(), 0);
    assert_eq!(s.retry_delay(), 5);
    assert!(matches!(s.on_event(PrivateEvent::Disconnected), PrivateAction::Reconnect(5)));
    assert!(matches!(s.on_event(PrivateEvent::LoginFailed), PrivateAction::Reconnect(5)));
}

#[test]
fn private_filters_pongs_and_answers_pings() {
    let mut s = PrivateSession::new("k", "s", Vec::new());
    assert!(matches!(s.on_event(PrivateEvent::Text("{\"op\":\"pong\",\"pong\":1}".to_string())), PrivateAction::Ignore));
    match s.on_event(PrivateEvent::Text("{\"ch\":\"balance\"}".to_string())) {
        PrivateAction::Deliver(t) => assert_eq!(t, "{\"ch\":\"balance\"}"),
        _ => panic!("expected delivery"),
    }
    match s.on_event(PrivateEvent::Ping(vec![1, 2, 3])) {
        PrivateAction::Pong(p) => assert_eq!(p, vec![1, 2, 3]),
        _ => panic!("expected a pong"),
    }
    match s.on_event(PrivateEvent::HeartbeatDue) {
        PrivateAction::Send(m) => {
            assert_eq!(m.len(), 1);
            assert!(m[0].starts_with("{\"op\":\"ping\""));
        }
        _ => panic!("expected a ping"),
    }
    assert!(matches!(s.on_event(PrivateEvent::Other), PrivateAction::Ignore));
}
