//! The private account stream: login signature, login and subscription
//! messages, and the decisions of the loop that keeps it connected.
use vstd::prelude::*;

use crate::crypto::{is_nonce, now_millis, random_nonce, sha256_hex, sha256_hex_of};
use crate::json::{array_text, frame_array, frame_object, json_quote, json_string, object_text};
use crate::text::{glue, contains_seq, contains_str, i64_to_decimal, signed_decimal};
use crate::ws::websocket::{next_retry_delay, ping_message_now, ping_text};

verus! {

/// Seconds between heartbeats.
pub const HEARTBEAT_INTERVAL: u64 = 20;

/// The first wait after a failed connection, and the wait after a lost one, in seconds.
pub const RETRY_DELAY: u64 = 5;

/// Failed connections in a row after which the loop gives up.
pub const MAX_RETRY_ATTEMPTS: u32 = 15;

/// The longest wait between reconnections, in seconds.
pub const MAX_RETRY_DELAY: u64 = 60;

/// The URL of the private stream of a domain.
pub open spec fn private_url_text(wss_domain: Seq<char>) -> Seq<char> {
    "wss://"@ + wss_domain + "/private/"@
}

/// The URL of the private stream: `wss://{domain}/private/`.
pub fn private_url(wss_domain: &str) -> (res: String)
    ensures
        res@ == private_url_text(wss_domain@),
{
    let head = glue("wss://", wss_domain);
    glue(head.as_str(), "/private/")
}

/// A fresh random nonce of 32 ASCII letters and digits.
pub fn generate_nonce() -> (res: String)
    ensures
        is_nonce(res@),
{
    random_nonce()
}

/// The login signature: the hex SHA-256 of the hex SHA-256 of nonce,
/// timestamp (in decimal) and API key, followed by the secret key.
pub open spec fn login_signature(api_key: Seq<char>, secret_key: Seq<char>, timestamp: int, nonce: Seq<char>) -> Seq<char> {
    sha256_hex_of(sha256_hex_of(nonce + signed_decimal(timestamp) + api_key) + secret_key)
}

/// Computes the login signature.
pub fn generate_signature(api_key: &str, secret_key: &str, timestamp: i64, nonce: &str) -> (res: String)
    ensures
        res@ == login_signature(api_key@, secret_key@, timestamp as int, nonce@),
{
    let ts = i64_to_decimal(timestamp);
    let mut first_input = nonce.to_owned();
    first_input.append(ts.as_str());
    first_input.append(api_key);
    let first_hash = sha256_hex(first_input.as_str());
    let second_input = glue(first_hash.as_str(), secret_key);
    sha256_hex(second_input.as_str())
}

/// The login message:
/// `{"args":[{"apiKey":..,"nonce":..,"sign":..,"timestamp":..}],"op":"login"}`.
pub open spec fn login_text(api_key: Seq<char>, timestamp: int, nonce: Seq<char>, sign: Seq<char>) -> Seq<char> {
    let arg = object_text(seq![
        (json_string("apiKey"@), json_string(api_key)),
        (json_string("nonce"@), json_string(nonce)),
        (json_string("sign"@), json_string(sign)),
        (json_string("timestamp"@), signed_decimal(timestamp)),
    ]);
    object_text(seq![
        (json_string("args"@), array_text(seq![arg])),
        (json_string("op"@), json_string("login"@)),
    ])
}

/// The subscription to a channel at a time in milliseconds: `{"ch":..,"ts":..}`.
pub open spec fn channel_text(channel: Seq<char>, ts: int) -> Seq<char> {
    object_text(seq![
        (json_string("ch"@), json_string(channel)),
        (json_string("ts"@), signed_decimal(ts)),
    ])
}

/// `m` is the login for these credentials, signed with some nonce and time.
pub open spec fn is_login_message(m: Seq<char>, api_key: Seq<char>, secret_key: Seq<char>) -> bool {
    exists|t: i64, nonce: Seq<char>|
        is_nonce(nonce) && #[trigger] login_text(api_key, t as int, nonce, login_signature(api_key, secret_key, t as int, nonce)) == m
}

/// `m` is the subscription to `channel` at some time.
pub open spec fn is_channel_message(m: Seq<char>, channel: Seq<char>) -> bool {
    exists|t: i64| #[trigger] channel_text(channel, t as int) == m
}

/// `msgs` are the messages of a new connection: the login for these
/// credentials, then one subscription per channel, in order.
pub open spec fn is_opening(msgs: Seq<String>, api_key: Seq<char>, secret_key: Seq<char>, channels: Seq<Seq<char>>) -> bool {
    &&& msgs.len() == channels.len() + 1
    &&& is_login_message(msgs[0]@, api_key, secret_key)
    &&& forall|i: int| 0 <= i < channels.len() ==> #[trigger] is_channel_message(msgs[i + 1]@, channels[i])
}

/// Writes the login message.
pub fn login_message(api_key: &str, timestamp: i64, nonce: &str, sign: &str) -> (res: String)
    ensures
        res@ == login_text(api_key@, timestamp as int, nonce@, sign@),
{
    let mut arg_members: Vec<(String, String)> = Vec::new();
    arg_members.push((json_quote("apiKey"), json_quote(api_key)));
    arg_members.push((json_quote("nonce"), json_quote(nonce)));
    arg_members.push((json_quote("sign"), json_quote(sign)));
    arg_members.push((json_quote("timestamp"), i64_to_decimal(timestamp)));
    let arg = frame_object(&arg_members);
    let mut args: Vec<String> = Vec::new();
    args.push(arg);
    let args_text = frame_array(&args);
    let mut members: Vec<(String, String)> = Vec::new();
    members.push((json_quote("args"), args_text));
    members.push((json_quote("op"), json_quote("login")));
    let res = frame_object(&members);
    proof {
        let arg_v = object_text(seq![
            (json_string("apiKey"@), json_string(api_key@)),
            (json_string("nonce"@), json_string(nonce@)),
            (json_string("sign"@), json_string(sign@)),
            (json_string("timestamp"@), signed_decimal(timestamp as int)),
        ]);
        assert(crate::json::pairs_view(arg_members@) =~= seq![
            (json_string("apiKey"@), json_string(api_key@)),
            (json_string("nonce"@), json_string(nonce@)),
            (json_string("sign"@), json_string(sign@)),
            (json_string("timestamp"@), signed_decimal(timestamp as int)),
        ]);
        assert(crate::json::strings_view(args@) =~= seq![arg_v]);
        assert(crate::json::pairs_view(members@) =~= seq![
            (json_string("args"@), array_text(seq![arg_v])),
            (json_string("op"@), json_string("login"@)),
        ]);
    }
    res
}

/// Writes the subscription to a channel at a time in milliseconds.
pub fn channel_message(channel: &str, ts: i64) -> (res: String)
    ensures
        res@ == channel_text(channel@, ts as int),
{
    let mut members: Vec<(String, String)> = Vec::new();
    members.push((json_quote("ch"), json_quote(channel)));
    members.push((json_quote("ts"), i64_to_decimal(ts)));
    let res = frame_object(&members);
    assert(crate::json::pairs_view(members@) =~= seq![
        (json_string("ch"@), json_string(channel@)),
        (json_string("ts"@), signed_decimal(ts as int)),
    ]);
    res
}

/// The messages sent on a new connection, in order: the login (signed with a
/// fresh nonce and the current time), then one subscription per channel.
pub fn login_and_subscribe(api_key: &str, secret_key: &str, channels: &Vec<String>) -> (res: Vec<String>)
    ensures
        is_opening(res@, api_key@, secret_key@, crate::json::strings_view(channels@)),
{
    let timestamp = now_millis();
    let nonce = generate_nonce();
    let sign = generate_signature(api_key, secret_key, timestamp, nonce.as_str());
    let login = login_message(api_key, timestamp, nonce.as_str(), sign.as_str());
    let mut res: Vec<String> = Vec::new();
    res.push(login);
    assert(login_text(api_key@, timestamp as int, nonce@, login_signature(api_key@, secret_key@, timestamp as int, nonce@)) == res@[0]@);
    let n = channels.len();
    for i in 0..n
        invariant
            n == channels@.len(),
            res@.len() == i + 1,
            is_login_message(res@[0]@, api_key@, secret_key@),
            forall|j: int| 0 <= j < i ==> #[trigger] is_channel_message(res@[j + 1]@, channels@[j]@),
    {
        let ts = now_millis();
        let m = channel_message(channels[i].as_str(), ts);
        let ghost before = res@;
        res.push(m);
        assert(channel_text(channels@[i as int]@, ts as int) == res@[i + 1]@);
        assert forall|j: int| 0 <= j < i + 1 implies #[trigger] is_channel_message(res@[j + 1]@, channels@[j]@) by {
            if j < i {
                assert(res@[j + 1] == before[j + 1]);
            }
        }
    }
    assert forall|j: int| 0 <= j < crate::json::strings_view(channels@).len() implies
        #[trigger] is_channel_message(res@[j + 1]@, crate::json::strings_view(channels@)[j]) by {
        assert(is_channel_message(res@[j + 1]@, channels@[j]@));
    }
    res
}

/// Whether a text message is handed on: every message but the server's pongs.
pub open spec fn is_delivered(text: Seq<char>) -> bool {
    !contains_seq(text, "\"pong\""@)
}

/// A text is handed on exactly when it does not contain the six characters
/// `"pong"`, double quotes included, anywhere.
pub proof fn lemma_delivered_unless_quoted_pong(text: Seq<char>)
    ensures
        is_delivered(text) <==> !exists|i: int|
            0 <= i && i + 6 <= text.len() && #[trigger] text.subrange(i, i + 6) == seq!['"', 'p', 'o', 'n', 'g', '"'],
{
    reveal_strlit("\"pong\"");
    assert("\"pong\""@ =~= seq!['"', 'p', 'o', 'n', 'g', '"']);
}

/// What happened on the private stream.
pub enum PrivateEvent {
    /// The connection was made.
    Connected,
    /// The connection could not be made.
    ConnectFailed,
    /// The login or a subscription could not be queued.
    LoginFailed,
    /// The heartbeat timer fired.
    HeartbeatDue,
    /// The connection ended: the heartbeat could not be queued, the server
    /// closed it, a read failed, the input ended, or the writer stopped.
    Disconnected,
    /// A text message arrived.
    Text(String),
    /// A ping with this payload arrived.
    Ping(Vec<u8>),
    /// Any other frame arrived.
    Other,
}

/// What the loop does next.
pub enum PrivateAction {
    /// Send these texts, in order.
    Send(Vec<String>),
    /// Answer with a pong carrying this payload.
    Pong(Vec<u8>),
    /// Hand this text to the handler and the callback.
    Deliver(String),
    /// Nothing.
    Ignore,
    /// Drop the connection, wait this many seconds, and connect again.
    Reconnect(u64),
    /// Wait this many seconds, then stop for good.
    Stop(u64),
}

/// The state of the private stream's loop: credentials, channels, and the
/// count of failed connections in a row with the current wait.
pub struct PrivateSession {
    api_key: String,
    secret_key: String,
    channels: Vec<String>,
    attempts: Attempts,
}

/// The failed connections in a row, and the wait that follows from them.
struct Attempts {
    count: u32,
    delay: u64,
}

/// The failure count and wait after one more failed connection.
pub open spec fn after_connect_failure(count: int, delay: int) -> (int, int) {
    (count + 1, next_retry_delay(delay))
}

/// The failure count and wait after `n` failed connections in a row, from a
/// fresh connection's state.
pub open spec fn after_failures(n: nat) -> (int, int)
    decreases n,
{
    if n == 0 {
        (0, RETRY_DELAY as int)
    } else {
        let prev = after_failures((n - 1) as nat);
        after_connect_failure(prev.0, prev.1)
    }
}

/// Whether a failed connection that brings the count to `count` ends the loop.
pub open spec fn gives_up(count: int) -> bool {
    count >= MAX_RETRY_ATTEMPTS
}

/// From a fresh state, the `n`-th failed connection in a row ends the loop
/// exactly when `n` reaches `MAX_RETRY_ATTEMPTS`; the waits stay between
/// `RETRY_DELAY` and `MAX_RETRY_DELAY`.
pub proof fn lemma_gives_up_after_max_attempts(n: nat)
    ensures
        after_failures(n).0 == n,
        gives_up(after_failures(n).0) <==> n >= MAX_RETRY_ATTEMPTS,
        RETRY_DELAY <= after_failures(n).1 <= MAX_RETRY_DELAY,
    decreases n,
{
    if n > 0 {
        lemma_gives_up_after_max_attempts((n - 1) as nat);
    }
}

impl Attempts {
    #[verifier::type_invariant]
    closed spec fn follows_count(self) -> bool {
        &&& self.delay == after_failures(self.count as nat).1
        &&& RETRY_DELAY <= self.delay <= MAX_RETRY_DELAY
        &&& self.count < MAX_RETRY_ATTEMPTS
    }
}

impl PrivateSession {
    /// Failed connections in a row so far.
    pub closed spec fn count(&self) -> u32 {
        self.attempts.count
    }

    /// The current wait before reconnecting.
    pub closed spec fn delay(&self) -> u64 {
        self.attempts.delay
    }

    /// The API key.
    pub closed spec fn api_key_view(&self) -> Seq<char> {
        self.api_key@
    }

    /// The secret key.
    pub closed spec fn secret_key_view(&self) -> Seq<char> {
        self.secret_key@
    }

    /// The channels subscribed to, in order.
    pub closed spec fn channels_view(&self) -> Seq<Seq<char>> {
        crate::json::strings_view(self.channels@)
    }

    /// A loop for these credentials and channels, before its first connection.
    pub fn new(api_key: &str, secret_key: &str, channels: Vec<String>) -> (res: PrivateSession)
        ensures
            res.count() == 0,
            res.delay() == RETRY_DELAY,
            res.api_key_view() == api_key@,
            res.secret_key_view() == secret_key@,
            res.channels_view() == crate::json::strings_view(channels@),
    {
        PrivateSession {
            api_key: api_key.to_owned(),
            secret_key: secret_key.to_owned(),
            channels,
            attempts: Attempts { count: 0, delay: RETRY_DELAY },
        }
    }

    /// Failed connections in a row so far.
    pub fn retry_count(&self) -> (res: u32)
        ensures
            res == self.count(),
            res < MAX_RETRY_ATTEMPTS,
    {
        proof {
            use_type_invariant(&self.attempts);
        }
        self.attempts.count
    }

    /// The current wait before reconnecting, in seconds.
    pub fn retry_delay(&self) -> (res: u64)
        ensures
            res == self.delay(),
            RETRY_DELAY <= res <= MAX_RETRY_DELAY,
            res == after_failures(self.count() as nat).1,
    {
        proof {
            use_type_invariant(&self.attempts);
        }
        self.attempts.delay
    }

    /// Decides what to do on an event, and updates the failure count and wait.
    pub fn on_event(&mut self, event: PrivateEvent) -> (action: PrivateAction)
        ensures
            final(self).api_key_view() == old(self).api_key_view(),
            final(self).secret_key_view() == old(self).secret_key_view(),
            final(self).channels_view() == old(self).channels_view(),
            final(self).delay() == after_failures(final(self).count() as nat).1,
            match event {
                PrivateEvent::Connected => {
                    &&& final(self).count() == 0
                    &&& final(self).delay() == RETRY_DELAY
                    &&& action matches PrivateAction::Send(msgs)
                    &&& is_opening(msgs@, old(self).api_key_view(), old(self).secret_key_view(), old(self).channels_view())
                },
                PrivateEvent::ConnectFailed => {
                    let (count, delay) = after_connect_failure(old(self).count() as int, old(self).delay() as int);
                    if gives_up(count) {
                        action == PrivateAction::Stop(old(self).delay())
                    } else {
                        &&& final(self).count() == count
                        &&& final(self).delay() == delay
                        &&& action == PrivateAction::Reconnect(old(self).delay())
                    }
                },
                PrivateEvent::LoginFailed | PrivateEvent::Disconnected => {
                    &&& final(self).count() == old(self).count()
                    &&& final(self).delay() == old(self).delay()
                    &&& action == PrivateAction::Reconnect(RETRY_DELAY)
                },
                PrivateEvent::HeartbeatDue => {
                    &&& final(self).count() == old(self).count()
                    &&& final(self).delay() == old(self).delay()
                    &&& action matches PrivateAction::Send(msgs)
                    &&& msgs@.len() == 1
                    &&& exists|t: i64| #[trigger] ping_text(t as int) == msgs@[0]@
                },
                PrivateEvent::Text(text) => {
                    &&& final(self).count() == old(self).count()
                    &&& final(self).delay() == old(self).delay()
                    &&& if contains_seq(text@, seq!['"', 'p', 'o', 'n', 'g', '"']) {
                        action == PrivateAction::Ignore
                    } else {
                        action matches PrivateAction::Deliver(m) && m@ == text@
                    }
                },
                PrivateEvent::Ping(payload) => {
                    &&& final(self).count() == old(self).count()
                    &&& final(self).delay() == old(self).delay()
                    &&& action matches PrivateAction::Pong(p)
                    &&& p@ == payload@
                },
                PrivateEvent::Other => {
                    &&& final(self).count() == old(self).count()
                    &&& final(self).delay() == old(self).delay()
                    &&& action == PrivateAction::Ignore
                },
            },
    {
        proof {
            use_type_invariant(&self.attempts);
        }
        match event {
            PrivateEvent::Connected => {
                self.attempts = Attempts { count: 0, delay: RETRY_DELAY };
                let msgs = login_and_subscribe(self.api_key.as_str(), self.secret_key.as_str(), &self.channels);
                PrivateAction::Send(msgs)
            },
            PrivateEvent::ConnectFailed => {
                let wait = self.attempts.delay;
                let count = self.attempts.count + 1;
                if count >= MAX_RETRY_ATTEMPTS {
                    return PrivateAction::Stop(wait);
                }
                let next = if wait <= MAX_RETRY_DELAY / 2 { wait * 2 } else { MAX_RETRY_DELAY };
                proof {
                    lemma_gives_up_after_max_attempts(count as nat);
                }
                self.attempts = Attempts { count, delay: next };
                PrivateAction::Reconnect(wait)
            },
            PrivateEvent::LoginFailed | PrivateEvent::Disconnected => PrivateAction::Reconnect(RETRY_DELAY),
            PrivateEvent::HeartbeatDue => {
                let mut msgs: Vec<String> = Vec::new();
                msgs.push(ping_message_now());
                PrivateAction::Send(msgs)
            },
            PrivateEvent::Text(text) => {
                proof {
                    reveal_strlit("\"pong\"");
                    assert("\"pong\""@ =~= seq!['"', 'p', 'o', 'n', 'g', '"']);
                }
                if contains_str(text.as_str(), "\"pong\"") {
                    PrivateAction::Ignore
                } else {
                    PrivateAction::Deliver(text)
                }
            },
            PrivateEvent::Ping(payload) => PrivateAction::Pong(payload),
            PrivateEvent::Other => PrivateAction::Ignore,
        }
    }
}

} // verus!
