//! URL encoding (percent-encoding of UTF-8 bytes), its decoding, and the
//! splitting of a query back into its pairs.
use vstd::prelude::*;
use vstd::utf8::{decode_utf8, encode_utf8};

verus! {

/// Whether URL encoding leaves a byte as it is: ASCII letters, digits and `-`, `.`, `_`, `~`.
pub open spec fn is_unreserved(b: u8) -> bool {
    (48 <= b && b <= 57) || (65 <= b && b <= 90) || (97 <= b && b <= 122) || b == 45 || b == 46
        || b == 95 || b == 126
}

/// The upper-case hexadecimal digit for `d`, where `d < 16`.
pub open spec fn hex_digit_upper(d: nat) -> char {
    if d < 10 {
        crate::text::digit_char(d)
    } else if d == 10 { 'A' }
    else if d == 11 { 'B' }
    else if d == 12 { 'C' }
    else if d == 13 { 'D' }
    else if d == 14 { 'E' }
    else { 'F' }
}

/// How URL encoding writes one byte: itself, or `%` and two upper-case hex digits.
pub open spec fn byte_encoded(b: u8) -> Seq<char> {
    if is_unreserved(b) {
        seq![b as char]
    } else {
        seq!['%', hex_digit_upper((b / 16) as nat), hex_digit_upper((b % 16) as nat)]
    }
}

/// The URL encoding of a byte sequence, byte by byte.
pub open spec fn percent_encoded(bytes: Seq<u8>) -> Seq<char>
    decreases bytes.len(),
{
    if bytes.len() == 0 {
        seq![]
    } else {
        percent_encoded(bytes.drop_last()) + byte_encoded(bytes.last())
    }
}

/// The URL encoding of a string: of its UTF-8 bytes.
pub open spec fn url_encoded(s: Seq<char>) -> Seq<char> {
    percent_encoded(encode_utf8(s))
}

/// URL-encodes a string.
///
/// Trusted: `urlencoding::encode`, documented (and written) to percent-encode
/// every byte of the string's UTF-8 encoding except ASCII letters, digits and
/// `-`, `_`, `.`, `~`, with upper-case hex digits.
#[verifier::external_body]
pub(crate) fn url_encode(s: &str) -> (res: String)
    ensures
        res@ == url_encoded(s@),
{
    urlencoding::encode(s).into_owned()
}

/// The value of a hexadecimal digit (either case); 0 for any other character.
pub open spec fn hex_value(c: char) -> int {
    if '0' <= c && c <= '9' {
        c as int - '0' as int
    } else if 'A' <= c && c <= 'F' {
        c as int - 'A' as int + 10
    } else if 'a' <= c && c <= 'f' {
        c as int - 'a' as int + 10
    } else {
        0
    }
}

/// Percent-decoding: `%` and two hex digits give one byte, any other
/// character gives its own code as a byte.
pub open spec fn percent_decode(s: Seq<char>) -> Seq<u8>
    decreases s.len(),
{
    if s.len() == 0 {
        seq![]
    } else if s[0] == '%' && s.len() >= 3 {
        seq![(hex_value(s[1]) * 16 + hex_value(s[2])) as u8] + percent_decode(s.subrange(3, s.len() as int))
    } else {
        seq![s[0] as u8] + percent_decode(s.drop_first())
    }
}

/// URL decoding: percent-decoding, then reading the bytes as UTF-8.
pub open spec fn url_decoded(t: Seq<char>) -> Seq<char> {
    decode_utf8(percent_decode(t))
}

proof fn lemma_hex_value_upper(d: nat)
    requires
        d < 16,
    ensures
        hex_value(hex_digit_upper(d)) == d,
{
}

proof fn lemma_decode_byte_encoded(b: u8, rest: Seq<char>)
    ensures
        percent_decode(byte_encoded(b) + rest) == seq![b] + percent_decode(rest),
{
    let s = byte_encoded(b) + rest;
    if is_unreserved(b) {
        assert(s[0] == b as char);
        assert(s.drop_first() =~= rest);
        assert((b as char) as u8 == b);
    } else {
        lemma_hex_value_upper((b / 16) as nat);
        lemma_hex_value_upper((b % 16) as nat);
        assert(s.subrange(3, s.len() as int) =~= rest);
        assert((hex_value(s[1]) * 16 + hex_value(s[2])) as u8 == b);
    }
}

proof fn lemma_encoded_cons(b: u8, bytes: Seq<u8>)
    ensures
        percent_encoded(seq![b] + bytes) == byte_encoded(b) + percent_encoded(bytes),
    decreases bytes.len(),
{
    if bytes.len() == 0 {
        assert(seq![b] + bytes =~= seq![b]);
        assert(seq![b].drop_last() =~= Seq::<u8>::empty());
        assert(percent_encoded(bytes) =~= Seq::<char>::empty());
        assert(byte_encoded(b) + percent_encoded(bytes) =~= byte_encoded(b));
        assert(percent_encoded(Seq::<u8>::empty()) + byte_encoded(b) =~= byte_encoded(b));
    } else {
        lemma_encoded_cons(b, bytes.drop_last());
        assert((seq![b] + bytes).drop_last() =~= seq![b] + bytes.drop_last());
        assert((seq![b] + bytes).last() == bytes.last());
        assert(byte_encoded(b) + percent_encoded(bytes.drop_last()) + byte_encoded(bytes.last())
            =~= byte_encoded(b) + percent_encoded(bytes));
    }
}

/// Percent-decoding undoes percent-encoding.
pub proof fn lemma_percent_round_trip(bytes: Seq<u8>)
    ensures
        percent_decode(percent_encoded(bytes)) == bytes,
    decreases bytes.len(),
{
    if bytes.len() > 0 {
        let b = bytes[0];
        let tail = bytes.drop_first();
        assert(bytes =~= seq![b] + tail);
        lemma_encoded_cons(b, tail);
        lemma_decode_byte_encoded(b, percent_encoded(tail));
        lemma_percent_round_trip(tail);
        assert(seq![b] + tail =~= bytes);
    }
}

/// The characters that URL encoding can write: ASCII letters, digits,
/// `-`, `.`, `_`, `~` and `%`.
pub open spec fn is_encoded_char(c: char) -> bool {
    ('0' <= c && c <= '9') || ('A' <= c && c <= 'Z') || ('a' <= c && c <= 'z') || c == '-' || c == '.'
        || c == '_' || c == '~' || c == '%'
}

proof fn lemma_percent_encoded_chars(bytes: Seq<u8>)
    ensures
        forall|i: int| 0 <= i < percent_encoded(bytes).len() ==> is_encoded_char(#[trigger] percent_encoded(bytes)[i]),
    decreases bytes.len(),
{
    if bytes.len() > 0 {
        lemma_percent_encoded_chars(bytes.drop_last());
        let prev = percent_encoded(bytes.drop_last());
        let tail = byte_encoded(bytes.last());
        assert forall|i: int| 0 <= i < percent_encoded(bytes).len() implies is_encoded_char(#[trigger] percent_encoded(bytes)[i]) by {
            if i < prev.len() {
                assert(percent_encoded(bytes)[i] == prev[i]);
            } else {
                assert(percent_encoded(bytes)[i] == tail[i - prev.len()]);
            }
        }
    }
}

/// URL decoding undoes URL encoding, and URL encoding writes no `&`, `=` or `?`.
pub proof fn lemma_url_round_trip(s: Seq<char>)
    ensures
        url_decoded(url_encoded(s)) == s,
        !url_encoded(s).contains('&'),
        !url_encoded(s).contains('='),
        !url_encoded(s).contains('?'),
{
    lemma_percent_round_trip(encode_utf8(s));
    vstd::utf8::encode_utf8_decode_utf8(s);
    lemma_percent_encoded_chars(encode_utf8(s));
}

/// The pieces of `s` between occurrences of `sep` (one piece when `sep` does not occur).
pub open spec fn split(s: Seq<char>, sep: char) -> Seq<Seq<char>>
    decreases s.len(),
{
    if s.len() == 0 {
        seq![seq![]]
    } else {
        let prev = split(s.drop_last(), sep);
        if s.last() == sep {
            prev.push(seq![])
        } else {
            prev.update(prev.len() - 1, prev.last().push(s.last()))
        }
    }
}

/// The text after the last occurrence of `c` (all of it when `c` does not occur).
pub open spec fn after_last(s: Seq<char>, c: char) -> Seq<char>
    decreases s.len(),
{
    if s.len() == 0 {
        s
    } else if s.last() == c {
        seq![]
    } else {
        after_last(s.drop_last(), c).push(s.last())
    }
}

proof fn lemma_split_nonempty(s: Seq<char>, sep: char)
    ensures
        split(s, sep).len() >= 1,
    decreases s.len(),
{
    if s.len() > 0 {
        lemma_split_nonempty(s.drop_last(), sep);
    }
}

proof fn lemma_split_append(x: Seq<char>, b: Seq<char>, sep: char)
    requires
        !b.contains(sep),
    ensures
        split(x + b, sep) == split(x, sep).update(split(x, sep).len() - 1, split(x, sep).last() + b),
    decreases b.len(),
{
    lemma_split_nonempty(x, sep);
    let px = split(x, sep);
    if b.len() == 0 {
        assert(x + b =~= x);
        assert(px.last() + b =~= px.last());
        assert(px.update(px.len() - 1, px.last() + b) =~= px);
    } else {
        let bd = b.drop_last();
        assert(!bd.contains(sep)) by {
            if bd.contains(sep) {
                let i = choose|i: int| 0 <= i < bd.len() && bd[i] == sep;
                assert(b[i] == sep);
            }
        }
        lemma_split_append(x, bd, sep);
        assert((x + b).drop_last() =~= x + bd);
        assert((x + b).last() == b.last());
        assert(b.last() != sep) by {
            assert(b[b.len() - 1] == b.last());
        }
        assert((px.last() + bd).push(b.last()) =~= px.last() + b);
        assert(px.update(px.len() - 1, px.last() + bd).update(px.len() - 1, (px.last() + bd).push(b.last()))
            =~= px.update(px.len() - 1, px.last() + b));
    }
}

/// Splitting `a`, `sep`, `b` gives the pieces of `a` and then `b`, when `b` holds no `sep`.
pub proof fn lemma_split_sep_then(a: Seq<char>, b: Seq<char>, sep: char)
    requires
        !b.contains(sep),
    ensures
        split(a.push(sep) + b, sep) == split(a, sep).push(b),
{
    assert(a.push(sep).drop_last() =~= a);
    lemma_split_append(a.push(sep), b, sep);
    let p = split(a, sep).push(seq![]);
    assert(p.last() + b =~= b);
    assert(p.update(p.len() - 1, b) =~= split(a, sep).push(b));
}

/// A text without `sep` splits into itself alone.
pub proof fn lemma_split_whole(b: Seq<char>, sep: char)
    requires
        !b.contains(sep),
    ensures
        split(b, sep) == seq![b],
{
    lemma_split_append(Seq::<char>::empty(), b, sep);
    assert(Seq::<char>::empty() + b =~= b);
    assert(Seq::<char>::empty() + b =~= b);
    assert(seq![Seq::<char>::empty()].update(0, Seq::<char>::empty() + b) =~= seq![b]);
}

/// Splitting a `sep`-joined list on `sep` gives the list back, when no item holds `sep`.
pub proof fn lemma_split_join(items: Seq<Seq<char>>, sep: char)
    requires
        items.len() >= 1,
        forall|i: int| 0 <= i < items.len() ==> !(#[trigger] items[i]).contains(sep),
    ensures
        split(crate::json::join(items, seq![sep]), sep) == items,
    decreases items.len(),
{
    if items.len() == 1 {
        lemma_split_whole(items[0], sep);
        assert(seq![items[0]] =~= items);
    } else {
        let d = items.drop_last();
        lemma_split_join(d, sep);
        let j = crate::json::join(d, seq![sep]);
        assert(j + seq![sep] + items.last() =~= j.push(sep) + items.last());
        assert(!items.last().contains(sep)) by {
            assert(items[items.len() - 1] == items.last());
        }
        lemma_split_sep_then(j, items.last(), sep);
        assert(d.push(items.last()) =~= items);
    }
}

/// The text after the last `c` of `a`, `c`, `b` is `b`, when `b` holds no `c`.
pub proof fn lemma_after_last(a: Seq<char>, b: Seq<char>, c: char)
    requires
        !b.contains(c),
    ensures
        after_last(a.push(c) + b, c) == b,
    decreases b.len(),
{
    if b.len() == 0 {
        assert(a.push(c) + b =~= a.push(c));
    } else {
        let bd = b.drop_last();
        assert(!bd.contains(c)) by {
            if bd.contains(c) {
                let i = choose|i: int| 0 <= i < bd.len() && bd[i] == c;
                assert(b[i] == c);
            }
        }
        lemma_after_last(a, bd, c);
        assert((a.push(c) + b).drop_last() =~= a.push(c) + bd);
        assert(b.last() != c) by {
            assert(b[b.len() - 1] == b.last());
        }
        assert(bd.push(b.last()) =~= b);
    }
}

} // verus!
