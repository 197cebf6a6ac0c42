//! The public market stream: its messages, and the decisions of the loop that
//! keeps it connected (subscribe on connect, heartbeat, back off on failure).
use vstd::prelude::*;

use crate::crypto::now_secs;
use crate::json::{array_text, frame_array, frame_object, json_quote, json_string, object_text};
use crate::text::{glue, i64_to_decimal, signed_decimal};

verus! {

/// Seconds between heartbeats.
pub const HEARTBEAT_INTERVAL: u64 = 20;

/// The wait before the first reconnection after a failure, in seconds.
pub const INITIAL_RETRY_DELAY: u64 = 5;

/// The longest wait between reconnections, in seconds.
pub const MAX_RETRY_DELAY: u64 = 60;

/// The URL of the public stream of a domain.
pub open spec fn public_url_text(wss_domain: Seq<char>) -> Seq<char> {
    "wss://"@ + wss_domain + "/public/"@
}

/// The URL of the public stream: `wss://{domain}/public/`.
pub fn public_url(wss_domain: &str) -> (res: String)
    ensures
        res@ == public_url_text(wss_domain@),
{
    let head = glue("wss://", wss_domain);
    glue(head.as_str(), "/public/")
}

/// The subscription to a channel of a symbol:
/// `{"args":[{"ch":..,"symbol":..}],"op":"subscribe"}`.
pub open spec fn subscribe_text(interval: Seq<char>, symbol: Seq<char>) -> Seq<char> {
    let arg = object_text(seq![
        (json_string("ch"@), json_string(interval)),
        (json_string("symbol"@), json_string(symbol)),
    ]);
    object_text(seq![
        (json_string("args"@), array_text(seq![arg])),
        (json_string("op"@), json_string("subscribe"@)),
    ])
}

/// The heartbeat at a time in seconds: `{"op":"ping","ping":..}`.
pub open spec fn ping_text(now_secs: int) -> Seq<char> {
    object_text(seq![
        (json_string("op"@), json_string("ping"@)),
        (json_string("ping"@), signed_decimal(now_secs)),
    ])
}

/// Writes the subscription to channel `interval` of `symbol`.
pub fn subscribe_message(interval: &str, symbol: &str) -> (res: String)
    ensures
        res@ == subscribe_text(interval@, symbol@),
{
    let mut arg_members: Vec<(String, String)> = Vec::new();
    arg_members.push((json_quote("ch"), json_quote(interval)));
    arg_members.push((json_quote("symbol"), json_quote(symbol)));
    let arg = frame_object(&arg_members);
    let mut args: Vec<String> = Vec::new();
    args.push(arg);
    let args_text = frame_array(&args);
    let mut members: Vec<(String, String)> = Vec::new();
    members.push((json_quote("args"), args_text));
    members.push((json_quote("op"), json_quote("subscribe")));
    let res = frame_object(&members);
    proof {
        let arg_v = object_text(seq![
            (json_string("ch"@), json_string(interval@)),
            (json_string("symbol"@), json_string(symbol@)),
        ]);
        assert(crate::json::pairs_view(arg_members@) =~= seq![
            (json_string("ch"@), json_string(interval@)),
            (json_string("symbol"@), json_string(symbol@)),
        ]);
        assert(crate::json::strings_view(args@) =~= seq![arg_v]);
        assert(crate::json::pairs_view(members@) =~= seq![
            (json_string("args"@), array_text(seq![arg_v])),
            (json_string("op"@), json_string("subscribe"@)),
        ]);
    }
    res
}

/// Writes the heartbeat for a time in seconds.
pub fn ping_message(now_secs: i64) -> (res: String)
    ensures
        res@ == ping_text(now_secs as int),
{
    let mut members: Vec<(String, String)> = Vec::new();
    members.push((json_quote("op"), json_quote("ping")));
    members.push((json_quote("ping"), i64_to_decimal(now_secs)));
    let res = frame_object(&members);
    assert(crate::json::pairs_view(members@) =~= seq![
        (json_string("op"@), json_string("ping"@)),
        (json_string("ping"@), signed_decimal(now_secs as int)),
    ]);
    res
}

/// Writes the heartbeat for the current time.
pub fn ping_message_now() -> (res: String)
    ensures
        exists|t: i64| res@ == ping_text(t as int),
{
    ping_message(now_secs())
}

/// The wait after `delay`: doubled, but at most `MAX_RETRY_DELAY`.
pub open spec fn next_retry_delay(delay: int) -> int {
    if 2 * delay <= MAX_RETRY_DELAY {
        2 * delay
    } else {
        MAX_RETRY_DELAY as int
    }
}

/// The wait after `n` failures in a row since the last connection.
pub open spec fn retry_delay_after(n: nat) -> int
    decreases n,
{
    if n == 0 {
        INITIAL_RETRY_DELAY as int
    } else {
        next_retry_delay(retry_delay_after((n - 1) as nat))
    }
}

/// Two to the power `n`.
pub open spec fn pow2(n: nat) -> int
    decreases n,
{
    if n == 0 { 1 } else { 2 * pow2((n - 1) as nat) }
}

/// `INITIAL_RETRY_DELAY * 2^n`, capped at `MAX_RETRY_DELAY`.
pub open spec fn capped_backoff(n: nat) -> int {
    if INITIAL_RETRY_DELAY * pow2(n) <= MAX_RETRY_DELAY {
        INITIAL_RETRY_DELAY * pow2(n)
    } else {
        MAX_RETRY_DELAY as int
    }
}

/// After `n` failures in a row, the wait is `INITIAL_RETRY_DELAY * 2^n`,
/// capped at `MAX_RETRY_DELAY`.
pub proof fn lemma_backoff(n: nat)
    ensures
        retry_delay_after(n) == capped_backoff(n),
    decreases n,
{
    if n > 0 {
        lemma_backoff((n - 1) as nat);
        lemma_pow2_positive((n - 1) as nat);
    }
}

proof fn lemma_pow2_positive(n: nat)
    ensures
        pow2(n) >= 1,
    decreases n,
{
    if n > 0 {
        lemma_pow2_positive((n - 1) as nat);
    }
}

/// The waits stay between `INITIAL_RETRY_DELAY` and `MAX_RETRY_DELAY`, and
/// never shrink while failures go on.
pub proof fn lemma_retry_delay_bounds(n: nat)
    ensures
        INITIAL_RETRY_DELAY <= retry_delay_after(n) <= MAX_RETRY_DELAY,
        retry_delay_after(n) <= retry_delay_after(n + 1),
    decreases n,
{
    if n > 0 {
        lemma_retry_delay_bounds((n - 1) as nat);
    }
}

/// What happened on the public stream.
pub enum PublicEvent {
    /// The connection was made.
    Connected,
    /// The connection could not be made.
    ConnectFailed,
    /// The subscription could not be sent.
    SubscribeFailed,
    /// The heartbeat timer fired.
    HeartbeatDue,
    /// The heartbeat could not be sent.
    HeartbeatFailed,
    /// The stream ended: closed by the server, a read error, or end of input.
    Disconnected,
    /// A text message arrived.
    Text(String),
    /// A pong arrived.
    Pong,
    /// Any other frame arrived.
    Other,
}

/// What the loop does next.
pub enum PublicAction {
    /// Send this text.
    Send(String),
    /// Hand this text to the handler and the callback.
    Deliver(String),
    /// Nothing.
    Ignore,
    /// Drop the connection, wait this many seconds, and connect again.
    Reconnect(u64),
}

/// The wait before the next reconnection, with the number of failures since
/// the last connection that led to it.
struct Backoff {
    delay: u64,
    failures: Ghost<nat>,
}

impl Backoff {
    #[verifier::type_invariant]
    closed spec fn follows_failures(self) -> bool {
        &&& self.delay == retry_delay_after(self.failures@)
        &&& INITIAL_RETRY_DELAY <= self.delay <= MAX_RETRY_DELAY
    }
}

/// The state of the public stream's loop: the channel, and the current wait.
pub struct PublicSession {
    interval: String,
    symbol: String,
    backoff: Backoff,
}

impl PublicSession {
    /// The current wait before reconnecting.
    pub closed spec fn delay(&self) -> u64 {
        self.backoff.delay
    }

    /// Failed connections and lost connections since the last connection was made.
    pub closed spec fn failures(&self) -> nat {
        self.backoff.failures@
    }

    /// The channel subscribed to.
    pub closed spec fn interval_view(&self) -> Seq<char> {
        self.interval@
    }

    /// The symbol subscribed to.
    pub closed spec fn symbol_view(&self) -> Seq<char> {
        self.symbol@
    }

    /// A loop for channel `interval` of `symbol`, before its first connection.
    pub fn new(interval: &str, symbol: &str) -> (res: PublicSession)
        ensures
            res.delay() == INITIAL_RETRY_DELAY,
            res.failures() == 0,
            res.interval_view() == interval@,
            res.symbol_view() == symbol@,
    {
        PublicSession {
            interval: interval.to_owned(),
            symbol: symbol.to_owned(),
            backoff: Backoff { delay: INITIAL_RETRY_DELAY, failures: Ghost(0) },
        }
    }

    /// The current wait before reconnecting, in seconds.
    pub fn retry_delay(&self) -> (res: u64)
        ensures
            res == self.delay(),
            res == retry_delay_after(self.failures()),
            INITIAL_RETRY_DELAY <= res <= MAX_RETRY_DELAY,
    {
        proof {
            use_type_invariant(&self.backoff);
        }
        self.backoff.delay
    }

    /// Decides what to do on an event, and updates the wait.
    pub fn on_event(&mut self, event: PublicEvent) -> (action: PublicAction)
        ensures
            final(self).interval_view() == old(self).interval_view(),
            final(self).symbol_view() == old(self).symbol_view(),
            INITIAL_RETRY_DELAY <= final(self).delay() <= MAX_RETRY_DELAY,
            final(self).delay() == retry_delay_after(final(self).failures()),
            match event {
                PublicEvent::Connected => {
                    &&& final(self).delay() == INITIAL_RETRY_DELAY
                    &&& final(self).failures() == 0
                    &&& action matches PublicAction::Send(m)
                    &&& m@ == subscribe_text(old(self).interval_view(), old(self).symbol_view())
                },
                PublicEvent::ConnectFailed | PublicEvent::HeartbeatFailed | PublicEvent::Disconnected => {
                    &&& final(self).delay() == next_retry_delay(old(self).delay() as int)
                    &&& final(self).failures() == old(self).failures() + 1
                    &&& action == PublicAction::Reconnect(old(self).delay())
                    &&& old(self).delay() == capped_backoff(old(self).failures())
                },
                PublicEvent::SubscribeFailed => {
                    &&& final(self).delay() == old(self).delay()
                    &&& final(self).failures() == old(self).failures()
                    &&& action == PublicAction::Reconnect(0)
                },
                PublicEvent::HeartbeatDue => {
                    &&& final(self).delay() == old(self).delay()
                    &&& final(self).failures() == old(self).failures()
                    &&& action matches PublicAction::Send(m)
                    &&& exists|t: i64| m@ == ping_text(t as int)
                },
                PublicEvent::Text(text) => {
                    &&& final(self).delay() == old(self).delay()
                    &&& final(self).failures() == old(self).failures()
                    &&& action matches PublicAction::Deliver(m)
                    &&& m@ == text@
                },
                PublicEvent::Pong | PublicEvent::Other => {
                    &&& final(self).delay() == old(self).delay()
                    &&& final(self).failures() == old(self).failures()
                    &&& action == PublicAction::Ignore
                },
            },
    {
        proof {
            use_type_invariant(&self.backoff);
        }
        match event {
            PublicEvent::Connected => {
                self.backoff = Backoff { delay: INITIAL_RETRY_DELAY, failures: Ghost(0) };
                PublicAction::Send(subscribe_message(self.interval.as_str(), self.symbol.as_str()))
            },
            PublicEvent::ConnectFailed | PublicEvent::HeartbeatFailed | PublicEvent::Disconnected => {
                let wait = self.backoff.delay;
                let next = if wait <= MAX_RETRY_DELAY / 2 { wait * 2 } else { MAX_RETRY_DELAY };
                let ghost failures = self.backoff.failures@;
                proof {
                    lemma_retry_delay_bounds(failures + 1);
                    lemma_backoff(failures);
                }
                self.backoff = Backoff { delay: next, failures: Ghost(failures + 1) };
                PublicAction::Reconnect(wait)
            },
            PublicEvent::SubscribeFailed => PublicAction::Reconnect(0),
            PublicEvent::HeartbeatDue => PublicAction::Send(ping_message_now()),
            PublicEvent::Text(text) => PublicAction::Deliver(text),
            PublicEvent::Pong | PublicEvent::Other => PublicAction::Ignore,
        }
    }
}

} // verus!
