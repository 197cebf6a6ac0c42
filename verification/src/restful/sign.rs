//! Signing REST requests: the query string, the URL, the compact JSON body,
//! the double SHA-256 signature and the headers that carry it.
use vstd::prelude::*;

use crate::client::BitUnixClient;
use crate::crypto::{is_nonce, random_nonce, sha256_hex, sha256_hex_of, timestamp_millis_text};
use crate::json::{join, lemma_join_lacks, join_with, object_of, object_text, pairs_view, quoted_members, strings_view};
use crate::params::{entries_map, key_lt, keys_sorted, lemma_entries_determined, lemma_entries_map_append, ParamMap};
use crate::restful::url::{
    after_last, lemma_after_last, lemma_split_join, lemma_split_sep_then,
    lemma_split_whole, lemma_url_round_trip, split, url_decoded, url_encode, url_encoded,
};
use crate::text::{
    lemma_concat_lacks,
    push_char, remove_spaces, signed_decimal, trim_end_char, trim_end_matches, trim_start_char,
    trim_start_matches, without_spaces,
};

verus! {

/// The text that is signed for a query: each key followed by its value, in key order.
pub open spec fn query_text(entries: Seq<(Seq<char>, Seq<char>)>) -> Seq<char>
    decreases entries.len(),
{
    if entries.len() == 0 {
        seq![]
    } else {
        query_text(entries.drop_last()) + entries.last().0 + entries.last().1
    }
}

/// One `key=value` pair of a URL query, both URL-encoded.
pub open spec fn url_pair(e: (Seq<char>, Seq<char>)) -> Seq<char> {
    url_encoded(e.0) + seq!['='] + url_encoded(e.1)
}

/// The full URL: the domain without trailing slashes, a slash, the path without
/// leading slashes, and for a non-empty query `?` and the `&`-joined pairs in key order.
pub open spec fn full_url(domain: Seq<char>, path: Seq<char>, entries: Seq<(Seq<char>, Seq<char>)>) -> Seq<char> {
    let base = trim_end_char(domain, '/') + seq!['/'] + trim_start_char(path, '/');
    if entries.len() == 0 {
        base
    } else {
        base + seq!['?'] + join(entries.map_values(|e: (Seq<char>, Seq<char>)| url_pair(e)), seq!['&'])
    }
}

/// One piece of a query read back: split on `=`, both sides URL-decoded.
pub open spec fn decode_pair(piece: Seq<char>) -> (Seq<char>, Seq<char>) {
    let kv = split(piece, '=');
    (url_decoded(kv[0]), url_decoded(kv[1]))
}

/// A query read back: split on `&`, each piece read as a pair.
pub open spec fn decode_query(q: Seq<char>) -> Seq<(Seq<char>, Seq<char>)> {
    split(q, '&').map_values(|piece: Seq<char>| decode_pair(piece))
}

proof fn lemma_url_pair_shape(e: (Seq<char>, Seq<char>))
    ensures
        !url_pair(e).contains('&'),
        !url_pair(e).contains('?'),
        split(url_pair(e), '=') == seq![url_encoded(e.0), url_encoded(e.1)],
        decode_pair(url_pair(e)) == e,
{
    lemma_url_round_trip(e.0);
    lemma_url_round_trip(e.1);
    assert(!seq!['='].contains('&'));
    assert(!seq!['='].contains('?'));
    lemma_concat_lacks(url_encoded(e.0), seq!['='], '&');
    lemma_concat_lacks(url_encoded(e.0) + seq!['='], url_encoded(e.1), '&');
    lemma_concat_lacks(url_encoded(e.0), seq!['='], '?');
    lemma_concat_lacks(url_encoded(e.0) + seq!['='], url_encoded(e.1), '?');
    assert(url_pair(e) =~= url_encoded(e.0).push('=') + url_encoded(e.1));
    lemma_split_sep_then(url_encoded(e.0), url_encoded(e.1), '=');
    lemma_split_whole(url_encoded(e.0), '=');
    assert(seq![url_encoded(e.0)].push(url_encoded(e.1)) =~= seq![url_encoded(e.0), url_encoded(e.1)]);
}

/// A URL with parameters reads back to them: the text after its last `?`,
/// split on `&`, each piece split on its single `=` and both sides
/// URL-decoded, gives exactly the parameters, in the same (increasing key) order.
pub proof fn lemma_full_url_decodes(domain: Seq<char>, path: Seq<char>, entries: Seq<(Seq<char>, Seq<char>)>)
    requires
        entries.len() > 0,
    ensures
        ({
            let q = after_last(full_url(domain, path, entries), '?');
            &&& forall|i: int| 0 <= i < split(q, '&').len() ==> #[trigger] split(split(q, '&')[i], '=').len() == 2
            &&& decode_query(q) == entries
        }),
{
    let pairs = entries.map_values(|e: (Seq<char>, Seq<char>)| url_pair(e));
    assert forall|i: int| 0 <= i < pairs.len() implies !(#[trigger] pairs[i]).contains('&') && !pairs[i].contains('?') by {
        lemma_url_pair_shape(entries[i]);
    }
    let joined = join(pairs, seq!['&']);
    assert(!seq!['&'].contains('?'));
    lemma_join_lacks(pairs, seq!['&'], '?');
    let base = trim_end_char(domain, '/') + seq!['/'] + trim_start_char(path, '/');
    assert(full_url(domain, path, entries) =~= base.push('?') + joined);
    lemma_after_last(base, joined, '?');
    lemma_split_join(pairs, '&');
    let q = after_last(full_url(domain, path, entries), '?');
    assert(split(q, '&') == pairs);
    assert forall|i: int| 0 <= i < split(q, '&').len() implies #[trigger] split(split(q, '&')[i], '=').len() == 2 by {
        lemma_url_pair_shape(entries[i]);
    }
    assert forall|i: int| 0 <= i < entries.len() implies #[trigger] decode_query(q)[i] == entries[i] by {
        lemma_url_pair_shape(entries[i]);
    }
    assert(decode_query(q) =~= entries);
}

/// Slashes at the end of the domain or at the start of the path do not change the URL.
pub proof fn lemma_url_ignores_extra_slashes(domain: Seq<char>, path: Seq<char>, entries: Seq<(Seq<char>, Seq<char>)>)
    ensures
        full_url(domain.push('/'), path, entries) == full_url(domain, path, entries),
        full_url(domain, seq!['/'] + path, entries) == full_url(domain, path, entries),
{
    assert(domain.push('/').drop_last() =~= domain);
    assert((seq!['/'] + path).drop_first() =~= path);
}

/// The compact JSON body for a map of keys to JSON value texts: the object
/// that serde_json writes, with every space removed.
pub open spec fn compact_body(entries: Seq<(Seq<char>, Seq<char>)>) -> Seq<char> {
    without_spaces(object_text(quoted_members(entries)))
}

/// When no key and no value text holds a space, compaction leaves the
/// serializer's text as it is: the compact body is exactly the JSON object
/// that serde_json writes for the map, so it reads back to the same value.
pub proof fn lemma_compact_body_keeps_text(entries: Seq<(Seq<char>, Seq<char>)>)
    requires
        forall|i: int| 0 <= i < entries.len() ==> !(#[trigger] entries[i]).0.contains(' ') && !entries[i].1.contains(' '),
    ensures
        compact_body(entries) == object_text(quoted_members(entries)),
{
    let members = quoted_members(entries);
    assert forall|i: int| 0 <= i < members.len() implies !(#[trigger] members[i]).0.contains(' ') && !members[i].1.contains(' ') by {
        crate::json::lemma_json_string_lacks_space(entries[i].0);
    }
    crate::json::lemma_object_text_lacks_space(members);
    crate::text::lemma_without_spaces_keeps(object_text(members));
}

/// For a body of JSON strings (as `insert_json_str` makes) whose keys and
/// values hold no space, the compact body is the serializer's text.
pub proof fn lemma_compact_string_body_keeps_text(strings: Seq<(Seq<char>, Seq<char>)>)
    requires
        forall|i: int| 0 <= i < strings.len() ==> !(#[trigger] strings[i]).0.contains(' ') && !strings[i].1.contains(' '),
    ensures
        ({
            let entries = strings.map_values(|e: (Seq<char>, Seq<char>)| (e.0, crate::json::json_string(e.1)));
            compact_body(entries) == object_text(quoted_members(entries))
        }),
{
    let entries = strings.map_values(|e: (Seq<char>, Seq<char>)| (e.0, crate::json::json_string(e.1)));
    assert forall|i: int| 0 <= i < entries.len() implies !(#[trigger] entries[i]).0.contains(' ') && !entries[i].1.contains(' ') by {
        crate::json::lemma_json_string_lacks_space(strings[i].1);
    }
    lemma_compact_body_keeps_text(entries);
}

/// The total length of all keys and values.
pub open spec fn entries_text_len(entries: Seq<(Seq<char>, Seq<char>)>) -> int
    decreases entries.len(),
{
    if entries.len() == 0 {
        0
    } else {
        entries_text_len(entries.drop_last()) + entries.last().0.len() + entries.last().1.len()
    }
}

/// The query text of two runs of entries is their query texts one after the other.
pub proof fn lemma_query_text_concat(a: Seq<(Seq<char>, Seq<char>)>, b: Seq<(Seq<char>, Seq<char>)>)
    ensures
        query_text(a + b) == query_text(a) + query_text(b),
    decreases b.len(),
{
    if b.len() == 0 {
        assert(a + b =~= a);
        assert(query_text(a) + query_text(b) =~= query_text(a));
    } else {
        lemma_query_text_concat(a, b.drop_last());
        assert((a + b).drop_last() =~= a + b.drop_last());
        assert((a + b).last() == b.last());
        assert(query_text(a) + query_text(b.drop_last()) + b.last().0 + b.last().1
            =~= query_text(a) + query_text(b));
    }
}

/// The query text is as long as all keys and values together; no entries give
/// the empty text.
pub proof fn lemma_query_text_len(entries: Seq<(Seq<char>, Seq<char>)>)
    ensures
        query_text(entries).len() == entries_text_len(entries),
        entries.len() == 0 ==> query_text(entries) == Seq::<char>::empty(),
    decreases entries.len(),
{
    if entries.len() > 0 {
        lemma_query_text_len(entries.drop_last());
    }
}

/// When every key of `a` sorts before every key of `b`, the query text of the
/// merged parameters is the query text of `a` followed by that of `b`.
pub proof fn lemma_query_text_merge(
    a: Seq<(Seq<char>, Seq<char>)>,
    b: Seq<(Seq<char>, Seq<char>)>,
    merged: Seq<(Seq<char>, Seq<char>)>,
)
    requires
        keys_sorted(a),
        keys_sorted(b),
        forall|i: int, j: int| 0 <= i < a.len() && 0 <= j < b.len() ==> key_lt(#[trigger] a[i].0, #[trigger] b[j].0),
        keys_sorted(merged),
        entries_map(merged) == entries_map(a).union_prefer_right(entries_map(b)),
    ensures
        merged == a + b,
        query_text(merged) == query_text(a) + query_text(b),
{
    assert(keys_sorted(a + b)) by {
        assert forall|i: int, j: int| 0 <= i < j < (a + b).len() implies key_lt(#[trigger] (a + b)[i].0, #[trigger] (a + b)[j].0) by {
            if j < a.len() {
                assert((a + b)[i] == a[i] && (a + b)[j] == a[j]);
            } else if i < a.len() {
                assert((a + b)[i] == a[i] && (a + b)[j] == b[j - a.len()]);
            } else {
                assert((a + b)[i] == b[i - a.len()] && (a + b)[j] == b[j - a.len()]);
            }
        }
    }
    lemma_entries_map_append(a, b);
    lemma_entries_determined(merged, a + b);
    lemma_query_text_concat(a, b);
}

/// The signature of a request: the hex SHA-256 of the hex SHA-256 of
/// nonce, timestamp, API key, query text and body, followed by the secret key.
pub open spec fn request_signature(
    nonce: Seq<char>,
    timestamp: Seq<char>,
    api_key: Seq<char>,
    query: Seq<char>,
    body: Seq<char>,
    secret_key: Seq<char>,
) -> Seq<char> {
    sha256_hex_of(sha256_hex_of(nonce + timestamp + api_key + query + body) + secret_key)
}

/// The HTTP method of a request.
#[derive(Clone, Copy, Debug, PartialEq, Eq, Structural)]
pub enum HttpMethod {
    Get,
    Post,
}

/// A request ready to send: method, URL, headers in order, and body.
pub struct SignedRequest {
    pub method: HttpMethod,
    pub url: String,
    pub headers: Vec<(String, String)>,
    pub body: Option<String>,
}

/// What a signed request holds, as text.
pub struct RequestView {
    pub method: HttpMethod,
    pub url: Seq<char>,
    pub headers: Seq<(Seq<char>, Seq<char>)>,
    pub body: Option<Seq<char>>,
}

impl View for SignedRequest {
    type V = RequestView;

    open spec fn view(&self) -> RequestView {
        RequestView {
            method: self.method,
            url: self.url@,
            headers: pairs_view(self.headers@),
            body: match self.body {
                Some(b) => Some(b@),
                None => None,
            },
        }
    }
}

/// The GET request for a path and query parameters, signed with the given nonce and timestamp.
pub open spec fn get_request(
    client: BitUnixClient,
    path: Seq<char>,
    params: Seq<(Seq<char>, Seq<char>)>,
    nonce: Seq<char>,
    timestamp: Seq<char>,
) -> RequestView {
    let sign = request_signature(nonce, timestamp, client.api_key@, query_text(params), seq![], client.secret_key@);
    RequestView {
        method: HttpMethod::Get,
        url: full_url(client.domain@, path, params),
        headers: seq![
            ("api-key"@, client.api_key@),
            ("nonce"@, nonce),
            ("time"@, timestamp),
            ("sign"@, sign),
            ("Content-Type"@, "application/json"@),
        ],
        body: None,
    }
}

/// The POST request for a path, query parameters and a body (keys to JSON
/// value texts), signed with the given nonce and timestamp.
pub open spec fn post_request(
    client: BitUnixClient,
    path: Seq<char>,
    query: Seq<(Seq<char>, Seq<char>)>,
    body: Seq<(Seq<char>, Seq<char>)>,
    nonce: Seq<char>,
    timestamp: Seq<char>,
) -> RequestView {
    let text = compact_body(body);
    let sign = request_signature(nonce, timestamp, client.api_key@, query_text(query), text, client.secret_key@);
    RequestView {
        method: HttpMethod::Post,
        url: full_url(client.domain@, path, query),
        headers: seq![
            ("Api-Key"@, client.api_key@),
            ("Nonce"@, nonce),
            ("Timestamp"@, timestamp),
            ("Sign"@, sign),
            ("Content-Type"@, "application/json"@),
        ],
        body: Some(text),
    }
}

/// A call of the API: method, path, query parameters, and the body as keys to
/// JSON value texts (empty for a GET).
pub struct ApiCall {
    pub method: HttpMethod,
    pub path: String,
    pub query: ParamMap,
    pub body: ParamMap,
}

/// The request that a call becomes, signed with the given nonce and timestamp.
pub open spec fn call_request(client: BitUnixClient, call: ApiCall, nonce: Seq<char>, timestamp: Seq<char>) -> RequestView {
    match call.method {
        HttpMethod::Get => get_request(client, call.path@, call.query@, nonce, timestamp),
        HttpMethod::Post => post_request(client, call.path@, call.query@, call.body@, nonce, timestamp),
    }
}

fn header(name: &str, value: &str) -> (res: (String, String))
    ensures
        res.0@ == name@,
        res.1@ == value@,
{
    (name.to_owned(), value.to_owned())
}

impl BitUnixClient {
    /// The text that is signed for the query parameters: keys and values
    /// concatenated in increasing key order.
    pub fn build_query_string(params: &ParamMap) -> (res: String)
        ensures
            res@ == query_text(params@),
            keys_sorted(params@),
    {
        let entries = params.entries();
        let n = entries.len();
        let ghost es = pairs_view(entries@);
        let mut res = String::new();
        for i in 0..n
            invariant
                n == entries@.len(),
                es == pairs_view(entries@),
                es == params@,
                res@ == query_text(es.take(i as int)),
        {
            res.append(entries[i].0.as_str());
            res.append(entries[i].1.as_str());
            assert(es.take(i + 1).drop_last() =~= es.take(i as int));
        }
        assert(es.take(n as int) =~= es);
        res
    }

    /// The full URL of a path with its query parameters URL-encoded.
    pub fn build_full_url(&self, path: &str, params: &ParamMap) -> (res: String)
        ensures
            res@ == full_url(self.domain@, path@, params@),
            keys_sorted(params@),
    {
        let domain = trim_end_matches(self.domain.as_str(), '/');
        let path = trim_start_matches(path, '/');
        let mut res = domain;
        push_char(&mut res, '/');
        res.append(path.as_str());
        if params.is_empty() {
            return res;
        }
        let entries = params.entries();
        let n = entries.len();
        let ghost es = pairs_view(entries@);
        let mut pairs: Vec<String> = Vec::new();
        for i in 0..n
            invariant
                n == entries@.len(),
                es == pairs_view(entries@),
                strings_view(pairs@) =~= es.take(i as int).map_values(|e: (Seq<char>, Seq<char>)| url_pair(e)),
        {
            let mut pair = url_encode(entries[i].0.as_str());
            push_char(&mut pair, '=');
            let value = url_encode(entries[i].1.as_str());
            pair.append(value.as_str());
            assert(es[i as int] == (entries@[i as int].0@, entries@[i as int].1@));
            assert(pair@ == url_pair(es[i as int]));
            let ghost before = pairs@;
            pairs.push(pair);
            assert(strings_view(pairs@) =~= strings_view(before).push(url_pair(es[i as int])));
            assert(es.take(i + 1) =~= es.take(i as int).push(es[i as int]));
        }
        assert(es.take(n as int) =~= es);
        let query = join_with(&pairs, "&");
        push_char(&mut res, '?');
        res.append(query.as_str());
        proof {
            reveal_strlit("&");
            assert("&"@ =~= seq!['&']);
        }
        res
    }

    /// The compact JSON body: the object for the map, with every space removed.
    pub fn compact_json(body: &ParamMap) -> (res: String)
        ensures
            res@ == compact_body(body@),
            !res@.contains(' '),
    {
        let text = object_of(body);
        remove_spaces(text.as_str())
    }

    /// The current time in milliseconds since the Unix epoch, in decimal.
    pub fn get_timestamp(&self) -> (res: String)
        ensures
            exists|t: i64| res@ == signed_decimal(t as int),
    {
        timestamp_millis_text()
    }

    /// A fresh random nonce of 32 ASCII letters and digits.
    pub fn generate_nonce() -> (res: String)
        ensures
            is_nonce(res@),
    {
        random_nonce()
    }

    fn signature(&self, nonce: &str, timestamp: &str, query: &str, body: &str) -> (res: String)
        ensures
            res@ == request_signature(nonce@, timestamp@, self.api_key@, query@, body@, self.secret_key@),
    {
        let mut pre_sign = nonce.to_owned();
        pre_sign.append(timestamp);
        pre_sign.append(self.api_key.as_str());
        pre_sign.append(query);
        pre_sign.append(body);
        let digest = sha256_hex(pre_sign.as_str());
        let mut sign_input = digest;
        sign_input.append(self.secret_key.as_str());
        sha256_hex(sign_input.as_str())
    }

    /// Signs a GET of `request_path` with the query `parameters`, using the given
    /// nonce and timestamp.
    pub fn get(&self, request_path: &str, parameters: &ParamMap, nonce: &str, timestamp: &str) -> (res: SignedRequest)
        ensures
            res@ == get_request(*self, request_path@, parameters@, nonce@, timestamp@),
    {
        let query_str = Self::build_query_string(parameters);
        let sign = self.signature(nonce, timestamp, query_str.as_str(), "");
        let url = self.build_full_url(request_path, parameters);
        let mut headers: Vec<(String, String)> = Vec::new();
        headers.push(header("api-key", self.api_key.as_str()));
        headers.push(header("nonce", nonce));
        headers.push(header("time", timestamp));
        headers.push(header("sign", sign.as_str()));
        headers.push(header("Content-Type", "application/json"));
        proof {
            reveal_strlit("");
            assert(""@ =~= Seq::<char>::empty());
        }
        let res = SignedRequest { method: HttpMethod::Get, url, headers, body: None };
        assert(res@.headers =~= get_request(*self, request_path@, parameters@, nonce@, timestamp@).headers);
        res
    }

    /// Signs a POST of `request_path` with the query `query_params` and the body
    /// `body` (keys to JSON value texts), using the given nonce and timestamp.
    pub fn post(
        &self,
        request_path: &str,
        query_params: &ParamMap,
        body: &ParamMap,
        nonce: &str,
        timestamp: &str,
    ) -> (res: SignedRequest)
        ensures
            res@ == post_request(*self, request_path@, query_params@, body@, nonce@, timestamp@),
    {
        let query_str = Self::build_query_string(query_params);
        let compact_body = Self::compact_json(body);
        let sign = self.signature(nonce, timestamp, query_str.as_str(), compact_body.as_str());
        let url = self.build_full_url(request_path, query_params);
        let mut headers: Vec<(String, String)> = Vec::new();
        headers.push(header("Api-Key", self.api_key.as_str()));
        headers.push(header("Nonce", nonce));
        headers.push(header("Timestamp", timestamp));
        headers.push(header("Sign", sign.as_str()));
        headers.push(header("Content-Type", "application/json"));
        let res = SignedRequest { method: HttpMethod::Post, url, headers, body: Some(compact_body) };
        assert(res@.headers =~= post_request(*self, request_path@, query_params@, body@, nonce@, timestamp@).headers);
        res
    }

    /// Signs a call with the given nonce and timestamp.
    pub fn sign_call(&self, call: &ApiCall, nonce: &str, timestamp: &str) -> (res: SignedRequest)
        ensures
            res@ == call_request(*self, *call, nonce@, timestamp@),
    {
        match call.method {
            HttpMethod::Get => self.get(call.path.as_str(), &call.query, nonce, timestamp),
            HttpMethod::Post => self.post(call.path.as_str(), &call.query, &call.body, nonce, timestamp),
        }
    }

    /// Signs a call with a fresh nonce and the current time.
    pub fn sign_now(&self, call: &ApiCall) -> (res: SignedRequest)
        ensures
            exists|nonce: Seq<char>, t: i64|
                is_nonce(nonce) && #[trigger] call_request(*self, *call, nonce, signed_decimal(t as int)) == res@,
    {
        let timestamp = self.get_timestamp();
        let nonce = Self::generate_nonce();
        let res = self.sign_call(call, nonce.as_str(), timestamp.as_str());
        let ghost t = choose|t: i64| timestamp@ == signed_decimal(t as int);
        assert(call_request(*self, *call, nonce@, signed_decimal(t as int)) == res@);
        res
    }
}

} // verus!
