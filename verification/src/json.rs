//! Compact JSON text: the framing of objects and arrays, with string
//! literals quoted by serde_json.
use vstd::prelude::*;

use crate::params::ParamMap;
use crate::text::{hex_digit_lower, push_char};

verus! {

/// How serde_json writes one character inside a string literal: `"` and `\`
/// escaped with a backslash; backspace, tab, line feed, form feed and carriage
/// return as `\b`, `\t`, `\n`, `\f`, `\r`; every other character below
/// U+0020 as `\u00` and two lower-case hex digits; anything else as itself.
pub open spec fn char_escaped(c: char) -> Seq<char> {
    if c == '"' {
        seq!['\\', '"']
    } else if c == '\\' {
        seq!['\\', '\\']
    } else if c == '\x08' {
        seq!['\\', 'b']
    } else if c == '\t' {
        seq!['\\', 't']
    } else if c == '\n' {
        seq!['\\', 'n']
    } else if c == '\x0C' {
        seq!['\\', 'f']
    } else if c == '\r' {
        seq!['\\', 'r']
    } else if (c as u32) < 0x20 {
        seq![
            '\\',
            'u',
            '0',
            '0',
            hex_digit_lower(((c as u32) / 16) as nat),
            hex_digit_lower(((c as u32) % 16) as nat),
        ]
    } else {
        seq![c]
    }
}

/// The characters of a string, each as serde_json writes it inside a literal.
pub open spec fn escaped(s: Seq<char>) -> Seq<char>
    decreases s.len(),
{
    if s.len() == 0 {
        seq![]
    } else {
        escaped(s.drop_last()) + char_escaped(s.last())
    }
}

/// The JSON string literal that serde_json writes for a string: the escaped
/// characters between double quotes.
pub open spec fn json_string(s: Seq<char>) -> Seq<char> {
    seq!['"'] + escaped(s) + seq!['"']
}

proof fn lemma_char_escaped_lacks_space(c: char)
    requires
        c != ' ',
    ensures
        !char_escaped(c).contains(' '),
{
    let e = char_escaped(c);
    if (c as u32) < 0x20 && c != '"' && c != '\\' && c != '\x08' && c != '\t' && c != '\n' && c != '\x0C' && c != '\r' {
        assert forall|i: int| 0 <= i < e.len() implies e[i] != ' ' by {
            if i == 4 {
                assert(e[4] == hex_digit_lower(((c as u32) / 16) as nat));
            } else if i == 5 {
                assert(e[5] == hex_digit_lower(((c as u32) % 16) as nat));
            }
        }
    }
}

/// A string without spaces has a JSON literal without spaces.
pub proof fn lemma_json_string_lacks_space(s: Seq<char>)
    requires
        !s.contains(' '),
    ensures
        !json_string(s).contains(' '),
{
    lemma_escaped_lacks_space(s);
    crate::text::lemma_concat_lacks(seq!['"'], escaped(s), ' ');
    crate::text::lemma_concat_lacks(seq!['"'] + escaped(s), seq!['"'], ' ');
}

proof fn lemma_escaped_lacks_space(s: Seq<char>)
    requires
        !s.contains(' '),
    ensures
        !escaped(s).contains(' '),
    decreases s.len(),
{
    if s.len() > 0 {
        let d = s.drop_last();
        assert(!d.contains(' ')) by {
            if d.contains(' ') {
                let i = choose|i: int| 0 <= i < d.len() && d[i] == ' ';
                assert(s[i] == ' ');
            }
        }
        lemma_escaped_lacks_space(d);
        assert(s.last() != ' ') by {
            assert(s[s.len() - 1] == s.last());
        }
        lemma_char_escaped_lacks_space(s.last());
        crate::text::lemma_concat_lacks(escaped(d), char_escaped(s.last()), ' ');
    }
}

/// Quotes a string as a JSON string literal.
///
/// Trusted: `serde_json::Value::String(..).to_string()` (serde_json's `Display`
/// for `Value`). Its source (`format_escaped_str` and the `ESCAPE` table)
/// writes a double quote, each character as `char_escaped` says, and a double quote.
#[verifier::external_body]
pub(crate) fn json_quote(s: &str) -> (res: String)
    ensures
        res@ == json_string(s@),
{
    serde_json::Value::String(s.to_string()).to_string()
}

/// The items joined with `sep` between each two of them.
pub open spec fn join(items: Seq<Seq<char>>, sep: Seq<char>) -> Seq<char>
    decreases items.len(),
{
    if items.len() == 0 {
        seq![]
    } else if items.len() == 1 {
        items[0]
    } else {
        join(items.drop_last(), sep) + sep + items.last()
    }
}

/// A `sep`-joined list holds `c` only where an item or the separator does.
pub proof fn lemma_join_lacks(items: Seq<Seq<char>>, sep: Seq<char>, c: char)
    requires
        !sep.contains(c),
        forall|i: int| 0 <= i < items.len() ==> !(#[trigger] items[i]).contains(c),
    ensures
        !join(items, sep).contains(c),
    decreases items.len(),
{
    if items.len() > 1 {
        lemma_join_lacks(items.drop_last(), sep, c);
        let j = join(items.drop_last(), sep);
        let l = items.last();
        assert(!l.contains(c)) by {
            assert(items[items.len() - 1] == l);
        }
        assert forall|i: int| 0 <= i < (j + sep + l).len() implies (j + sep + l)[i] != c by {
            if i < j.len() {
                assert((j + sep + l)[i] == j[i]);
            } else if i < j.len() + sep.len() {
                assert((j + sep + l)[i] == sep[i - j.len()]);
            } else {
                assert((j + sep + l)[i] == l[i - j.len() - sep.len()]);
            }
        }
    } else if items.len() == 1 {
        assert(items[0] == join(items, sep));
    }
}

/// One object member: the key text, a colon, the value text.
pub open spec fn member_text(m: (Seq<char>, Seq<char>)) -> Seq<char> {
    m.0 + seq![':'] + m.1
}

/// A compact JSON object from its members (key text, value text), in order.
pub open spec fn object_text(members: Seq<(Seq<char>, Seq<char>)>) -> Seq<char> {
    seq!['{'] + join(members.map_values(|m: (Seq<char>, Seq<char>)| member_text(m)), seq![',']) + seq!['}']
}

/// A compact JSON array from the texts of its items, in order.
pub open spec fn array_text(items: Seq<Seq<char>>) -> Seq<char> {
    seq!['['] + join(items, seq![',']) + seq![']']
}

/// An object whose member texts hold no spaces has a text without spaces.
pub proof fn lemma_object_text_lacks_space(members: Seq<(Seq<char>, Seq<char>)>)
    requires
        forall|i: int| 0 <= i < members.len() ==> !(#[trigger] members[i]).0.contains(' ') && !members[i].1.contains(' '),
    ensures
        !object_text(members).contains(' '),
{
    let texts = members.map_values(|m: (Seq<char>, Seq<char>)| member_text(m));
    assert forall|i: int| 0 <= i < texts.len() implies !(#[trigger] texts[i]).contains(' ') by {
        let m = members[i];
        assert(!seq![':'].contains(' '));
        crate::text::lemma_concat_lacks(m.0, seq![':'], ' ');
        crate::text::lemma_concat_lacks(m.0 + seq![':'], m.1, ' ');
    }
    assert(!seq![','].contains(' '));
    lemma_join_lacks(texts, seq![','], ' ');
    assert(!seq!['{'].contains(' '));
    assert(!seq!['}'].contains(' '));
    crate::text::lemma_concat_lacks(seq!['{'], join(texts, seq![',']), ' ');
    crate::text::lemma_concat_lacks(seq!['{'] + join(texts, seq![',']), seq!['}'], ' ');
}

/// The members of the JSON object that a map of keys to JSON value texts
/// stands for: each key quoted, in the map's key order.
pub open spec fn quoted_members(entries: Seq<(Seq<char>, Seq<char>)>) -> Seq<(Seq<char>, Seq<char>)> {
    entries.map_values(|e: (Seq<char>, Seq<char>)| (json_string(e.0), e.1))
}

/// The view of a list of strings.
pub open spec fn strings_view(v: Seq<String>) -> Seq<Seq<char>> {
    v.map_values(|s: String| s@)
}

/// The view of a list of string pairs.
pub open spec fn pairs_view(v: Seq<(String, String)>) -> Seq<(Seq<char>, Seq<char>)> {
    v.map_values(|e: (String, String)| (e.0@, e.1@))
}

/// Joins the items with `sep` between each two of them.
pub fn join_with(items: &Vec<String>, sep: &str) -> (res: String)
    ensures
        res@ == join(strings_view(items@), sep@),
{
    let mut res = String::new();
    let n = items.len();
    let ghost all = strings_view(items@);
    for i in 0..n
        invariant
            n == items@.len(),
            all == strings_view(items@),
            res@ == join(all.take(i as int), sep@),
    {
        assert(all.take(i + 1).drop_last() =~= all.take(i as int));
        assert(all.take(i + 1).last() == items@[i as int]@);
        if i > 0 {
            res.append(sep);
        }
        res.append(items[i].as_str());
        assert(i == 0 ==> all.take(i + 1) =~= seq![items@[0]@]);
    }
    assert(all.take(n as int) =~= all);
    res
}

/// Writes a compact JSON object from its members (key text, value text), in order.
pub fn frame_object(members: &Vec<(String, String)>) -> (res: String)
    ensures
        res@ == object_text(pairs_view(members@)),
{
    let mut texts: Vec<String> = Vec::new();
    let n = members.len();
    let ghost ms = pairs_view(members@);
    for i in 0..n
        invariant
            n == members@.len(),
            ms == pairs_view(members@),
            strings_view(texts@) =~= ms.take(i as int).map_values(|m: (Seq<char>, Seq<char>)| member_text(m)),
    {
        let mut t = members[i].0.clone();
        push_char(&mut t, ':');
        t.append(members[i].1.as_str());
        assert(t@ == member_text(ms[i as int]));
        let ghost before = texts@;
        texts.push(t);
        assert(strings_view(texts@) =~= strings_view(before).push(t@));
        assert(ms.take(i + 1) =~= ms.take(i as int).push(ms[i as int]));
    }
    assert(ms.take(n as int) =~= ms);
    let inner = join_with(&texts, ",");
    let mut res = String::new();
    push_char(&mut res, '{');
    res.append(inner.as_str());
    push_char(&mut res, '}');
    proof {
        reveal_strlit(",");
        assert(","@ =~= seq![',']);
    }
    assert(res@ =~= object_text(ms));
    res
}

/// Writes a compact JSON array from the texts of its items, in order.
pub fn frame_array(items: &Vec<String>) -> (res: String)
    ensures
        res@ == array_text(strings_view(items@)),
{
    let inner = join_with(items, ",");
    let mut res = String::new();
    push_char(&mut res, '[');
    res.append(inner.as_str());
    push_char(&mut res, ']');
    proof {
        reveal_strlit(",");
        assert(","@ =~= seq![',']);
    }
    assert(res@ =~= array_text(strings_view(items@)));
    res
}

/// Writes the compact JSON object for a map of keys to JSON value texts,
/// members in the map's key order, as serde_json writes a `Map`.
pub fn object_of(map: &ParamMap) -> (res: String)
    ensures
        res@ == object_text(quoted_members(map@)),
{
    let entries = map.entries();
    let n = entries.len();
    let ghost es = pairs_view(entries@);
    let mut members: Vec<(String, String)> = Vec::new();
    for i in 0..n
        invariant
            n == entries@.len(),
            es == pairs_view(entries@),
            es == map@,
            pairs_view(members@) =~= quoted_members(es.take(i as int)),
    {
        let k = json_quote(entries[i].0.as_str());
        let v = entries[i].1.clone();
        let ghost before = members@;
        members.push((k, v));
        assert(pairs_view(members@) =~= pairs_view(before).push((json_string(es[i as int].0), es[i as int].1)));
        assert(es.take(i + 1) =~= es.take(i as int).push(es[i as int]));
    }
    assert(es.take(n as int) =~= es);
    frame_object(&members)
}

/// Sets `key` to the JSON string literal for `value`.
pub fn insert_json_str(map: &mut ParamMap, key: &str, value: &str)
    ensures
        final(map).as_map() == old(map).as_map().insert(key@, json_string(value@)),
{
    map.insert(key.to_owned(), json_quote(value));
}

} // verus!
