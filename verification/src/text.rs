//! Character-level text helpers: building strings, decimal and hexadecimal
//! rendering, trimming and searching.
use vstd::prelude::*;

verus! {

/// Appends one character to a string.
///
/// Trusted: `String::push`, documented to append the given `char` to the end of the string.
#[verifier::external_body]
pub(crate) fn push_char(s: &mut String, c: char)
    ensures
        final(s)@ == old(s)@.push(c),
{
    s.push(c);
}

/// The characters of a string slice, in order.
pub fn chars_of(s: &str) -> (res: Vec<char>)
    ensures
        res@ == s@,
{
    let mut res: Vec<char> = Vec::new();
    for c in it: s.chars()
        invariant
            res@ == it.seq().take(it.index() as int),
    {
        res.push(c);
    }
    res
}

/// The string made of the given characters.
pub fn string_of(chars: &[char]) -> (res: String)
    ensures
        res@ == chars@,
{
    let res = string_of_range(chars, 0, chars.len());
    assert(chars@.subrange(0, chars@.len() as int) == chars@);
    res
}

/// The string made of the characters `chars[from..to]`.
pub fn string_of_range(chars: &[char], from: usize, to: usize) -> (res: String)
    requires
        from <= to <= chars@.len(),
    ensures
        res@ == chars@.subrange(from as int, to as int),
{
    let mut res = String::new();
    for i in from..to
        invariant
            to <= chars@.len(),
            res@ == chars@.subrange(from as int, i as int),
    {
        push_char(&mut res, chars[i]);
        assert(chars@.subrange(from as int, i + 1) == chars@.subrange(from as int, i as int).push(chars@[i as int]));
    }
    res
}

/// The string `a` followed by the string `b`.
pub fn glue(a: &str, b: &str) -> (res: String)
    ensures
        res@ == a@ + b@,
{
    let mut res = a.to_owned();
    res.append(b);
    res
}

/// The decimal digit for `d`, where `d < 10`.
pub open spec fn digit_char(d: nat) -> char {
    if d == 0 { '0' }
    else if d == 1 { '1' }
    else if d == 2 { '2' }
    else if d == 3 { '3' }
    else if d == 4 { '4' }
    else if d == 5 { '5' }
    else if d == 6 { '6' }
    else if d == 7 { '7' }
    else if d == 8 { '8' }
    else { '9' }
}

/// The decimal rendering of a natural number, with no leading zeros ("0" for zero).
pub open spec fn decimal(n: nat) -> Seq<char>
    decreases n,
{
    if n < 10 {
        seq![digit_char(n)]
    } else {
        decimal(n / 10).push(digit_char(n % 10))
    }
}

/// The decimal rendering of an integer: a leading '-' for negative numbers.
pub open spec fn signed_decimal(n: int) -> Seq<char> {
    if n < 0 {
        seq!['-'] + decimal((-n) as nat)
    } else {
        decimal(n as nat)
    }
}

fn digit_of(d: u64) -> (c: char)
    requires
        d < 10,
    ensures
        c == digit_char(d as nat),
{
    if d == 0 { '0' }
    else if d == 1 { '1' }
    else if d == 2 { '2' }
    else if d == 3 { '3' }
    else if d == 4 { '4' }
    else if d == 5 { '5' }
    else if d == 6 { '6' }
    else if d == 7 { '7' }
    else if d == 8 { '8' }
    else { '9' }
}

/// Renders an unsigned integer in decimal.
pub fn u64_to_decimal(n: u64) -> (res: String)
    ensures
        res@ == decimal(n as nat),
{
    let mut digits: Vec<char> = Vec::new();
    let mut q: u64 = n;
    loop
        invariant_except_break
            decimal(n as nat) == decimal(q as nat) + digits@,
        ensures
            decimal(n as nat) == digits@,
        decreases q,
    {
        let d = digit_of(q % 10);
        digits.insert(0, d);
        if q < 10 {
            assert(digits@ == seq![d] + (digits@.drop_first()));
            break;
        }
        assert(decimal(q as nat) == decimal((q / 10) as nat).push(d));
        assert(decimal((q / 10) as nat).push(d) + digits@.drop_first() == decimal((q / 10) as nat) + digits@);
        q = q / 10;
    }
    string_of(digits.as_slice())
}

/// Renders a signed integer in decimal, as `i64::to_string` does.
pub fn i64_to_decimal(n: i64) -> (res: String)
    ensures
        res@ == signed_decimal(n as int),
{
    if n < 0 {
        let magnitude: u64 = if n == i64::MIN {
            9223372036854775808u64
        } else {
            (-n) as u64
        };
        let digits = u64_to_decimal(magnitude);
        let mut res = String::new();
        push_char(&mut res, '-');
        res.append(digits.as_str());
        assert(res@ == seq!['-'] + decimal(magnitude as nat));
        res
    } else {
        u64_to_decimal(n as u64)
    }
}

/// The lower-case hexadecimal digit for `d`, where `d < 16`.
pub open spec fn hex_digit_lower(d: nat) -> char {
    if d < 10 {
        digit_char(d)
    } else if d == 10 { 'a' }
    else if d == 11 { 'b' }
    else if d == 12 { 'c' }
    else if d == 13 { 'd' }
    else if d == 14 { 'e' }
    else { 'f' }
}

/// Each byte as two lower-case hexadecimal digits, high nibble first.
pub open spec fn lower_hex(bytes: Seq<u8>) -> Seq<char>
    decreases bytes.len(),
{
    if bytes.len() == 0 {
        seq![]
    } else {
        let b = bytes.last();
        lower_hex(bytes.drop_last()) + seq![hex_digit_lower((b / 16) as nat), hex_digit_lower((b % 16) as nat)]
    }
}

fn hex_digit_of(d: u8) -> (c: char)
    requires
        d < 16,
    ensures
        c == hex_digit_lower(d as nat),
{
    if d < 10 { digit_of(d as u64) }
    else if d == 10 { 'a' }
    else if d == 11 { 'b' }
    else if d == 12 { 'c' }
    else if d == 13 { 'd' }
    else if d == 14 { 'e' }
    else { 'f' }
}

/// A lower-case hexadecimal digit.
pub open spec fn is_lower_hex_digit(c: char) -> bool {
    ('0' <= c && c <= '9') || ('a' <= c && c <= 'f')
}

/// The hex rendering has two digits per byte, each a lower-case hex digit.
pub proof fn lemma_lower_hex_shape(bytes: Seq<u8>)
    ensures
        lower_hex(bytes).len() == 2 * bytes.len(),
        forall|i: int| 0 <= i < lower_hex(bytes).len() ==> is_lower_hex_digit(#[trigger] lower_hex(bytes)[i]),
    decreases bytes.len(),
{
    if bytes.len() > 0 {
        lemma_lower_hex_shape(bytes.drop_last());
        let b = bytes.last();
        let prev = lower_hex(bytes.drop_last());
        let tail = seq![hex_digit_lower((b / 16) as nat), hex_digit_lower((b % 16) as nat)];
        assert forall|i: int| 0 <= i < lower_hex(bytes).len() implies is_lower_hex_digit(#[trigger] lower_hex(bytes)[i]) by {
            if i < prev.len() {
                assert(lower_hex(bytes)[i] == prev[i]);
            } else {
                assert(lower_hex(bytes)[i] == tail[i - prev.len()]);
            }
        }
    }
}

/// Renders bytes as lower-case hexadecimal, two digits per byte (the `{:x}` form of a digest).
pub fn hex_lower(bytes: &[u8]) -> (res: String)
    ensures
        res@ == lower_hex(bytes@),
{
    let mut res = String::new();
    let n = bytes.len();
    for i in 0..n
        invariant
            n == bytes@.len(),
            res@ == lower_hex(bytes@.take(i as int)),
    {
        let b = bytes[i];
        push_char(&mut res, hex_digit_of(b / 16));
        push_char(&mut res, hex_digit_of(b % 16));
        assert(bytes@.take(i + 1).drop_last() == bytes@.take(i as int));
    }
    assert(bytes@.take(n as int) == bytes@);
    res
}

/// Two texts without `c` joined hold no `c`.
pub proof fn lemma_concat_lacks(a: Seq<char>, b: Seq<char>, c: char)
    requires
        !a.contains(c),
        !b.contains(c),
    ensures
        !(a + b).contains(c),
{
    assert forall|i: int| 0 <= i < (a + b).len() implies (a + b)[i] != c by {
        if i < a.len() {
            assert((a + b)[i] == a[i]);
        } else {
            assert((a + b)[i] == b[i - a.len()]);
        }
    }
}

/// The text with every space character removed.
pub open spec fn without_spaces(s: Seq<char>) -> Seq<char>
    decreases s.len(),
{
    if s.len() == 0 {
        seq![]
    } else if s.last() == ' ' {
        without_spaces(s.drop_last())
    } else {
        without_spaces(s.drop_last()).push(s.last())
    }
}

/// No space is left once spaces are removed.
pub proof fn lemma_without_spaces_has_none(s: Seq<char>)
    ensures
        !without_spaces(s).contains(' '),
    decreases s.len(),
{
    if s.len() > 0 {
        lemma_without_spaces_has_none(s.drop_last());
        if s.last() != ' ' {
            let prev = without_spaces(s.drop_last());
            assert forall|i: int| 0 <= i < without_spaces(s).len() implies without_spaces(s)[i] != ' ' by {
                if i < prev.len() {
                    assert(without_spaces(s)[i] == prev[i]);
                }
            }
        }
    }
}

/// Removing spaces leaves a text without spaces as it is.
pub proof fn lemma_without_spaces_keeps(s: Seq<char>)
    requires
        !s.contains(' '),
    ensures
        without_spaces(s) == s,
    decreases s.len(),
{
    if s.len() > 0 {
        let d = s.drop_last();
        assert(!d.contains(' ')) by {
            if d.contains(' ') {
                let i = choose|i: int| 0 <= i < d.len() && d[i] == ' ';
                assert(s[i] == ' ');
            }
        }
        lemma_without_spaces_keeps(d);
        assert(s.last() != ' ') by {
            assert(s[s.len() - 1] == s.last());
        }
        assert(d.push(s.last()) =~= s);
    }
}

/// Removes every space from a string, as `s.replace(' ', "")` does.
pub fn remove_spaces(s: &str) -> (res: String)
    ensures
        res@ == without_spaces(s@),
        !res@.contains(' '),
{
    proof {
        lemma_without_spaces_has_none(s@);
    }
    let chars = chars_of(s);
    let mut res = String::new();
    let n = chars.len();
    for i in 0..n
        invariant
            n == chars@.len(),
            chars@ == s@,
            res@ == without_spaces(s@.take(i as int)),
    {
        let c = chars[i];
        if c != ' ' {
            push_char(&mut res, c);
        }
        assert(s@.take(i + 1).drop_last() == s@.take(i as int));
    }
    assert(s@.take(n as int) == s@);
    res
}

/// The text without any trailing occurrences of `c`.
pub open spec fn trim_end_char(s: Seq<char>, c: char) -> Seq<char>
    decreases s.len(),
{
    if s.len() > 0 && s.last() == c {
        trim_end_char(s.drop_last(), c)
    } else {
        s
    }
}

/// The text without any leading occurrences of `c`.
pub open spec fn trim_start_char(s: Seq<char>, c: char) -> Seq<char>
    decreases s.len(),
{
    if s.len() > 0 && s[0] == c {
        trim_start_char(s.drop_first(), c)
    } else {
        s
    }
}

/// Removes all trailing `c` characters, as `str::trim_end_matches(c)` does.
pub fn trim_end_matches(s: &str, c: char) -> (res: String)
    ensures
        res@ == trim_end_char(s@, c),
{
    let chars = chars_of(s);
    let mut end = chars.len();
    assert(s@.take(end as int) == s@);
    while end > 0 && chars[end - 1] == c
        invariant
            end <= chars@.len(),
            chars@ == s@,
            trim_end_char(s@, c) == trim_end_char(s@.take(end as int), c),
        decreases end,
    {
        assert(s@.take(end as int).drop_last() == s@.take(end - 1));
        end = end - 1;
    }
    let kept = string_of_range(chars.as_slice(), 0, end);
    assert(chars@.subrange(0, end as int) == s@.take(end as int));
    kept
}

/// Removes all leading `c` characters, as `str::trim_start_matches(c)` does.
pub fn trim_start_matches(s: &str, c: char) -> (res: String)
    ensures
        res@ == trim_start_char(s@, c),
{
    let chars = chars_of(s);
    let n = chars.len();
    let mut start: usize = 0;
    assert(s@.skip(0) == s@);
    while start < n && chars[start] == c
        invariant
            start <= n,
            n == chars@.len(),
            chars@ == s@,
            trim_start_char(s@, c) == trim_start_char(s@.skip(start as int), c),
        decreases n - start,
    {
        assert(s@.skip(start as int).drop_first() == s@.skip(start + 1));
        start = start + 1;
    }
    let kept = string_of_range(chars.as_slice(), start, n);
    assert(chars@.subrange(start as int, n as int) == s@.skip(start as int));
    kept
}

/// Whether `pat` occurs in `s` as a contiguous run of characters.
pub open spec fn contains_seq(s: Seq<char>, pat: Seq<char>) -> bool {
    exists|i: int| 0 <= i && i + pat.len() <= s.len() && #[trigger] s.subrange(i, i + pat.len()) == pat
}

fn occurs_at(s: &Vec<char>, pat: &Vec<char>, i: usize) -> (res: bool)
    requires
        i + pat@.len() <= s@.len(),
    ensures
        res == (s@.subrange(i as int, i + pat@.len()) == pat@),
{
    let m = pat.len();
    let mut j: usize = 0;
    while j < m
        invariant
            j <= m,
            m == pat@.len(),
            i + m <= s.len(),
            forall|k: int| 0 <= k < j ==> s@[i + k] == pat@[k],
        decreases m - j,
    {
        if s[i + j] != pat[j] {
            assert(s@.subrange(i as int, i + m)[j as int] != pat@[j as int]);
            return false;
        }
        j = j + 1;
    }
    assert(s@.subrange(i as int, i + m) =~= pat@);
    true
}

/// Whether `pat` occurs in `s`, as `str::contains` does for a string pattern.
pub fn contains_str(s: &str, pat: &str) -> (res: bool)
    ensures
        res == contains_seq(s@, pat@),
{
    let sc = chars_of(s);
    let pc = chars_of(pat);
    let n = sc.len();
    let m = pc.len();
    if m > n {
        return false;
    }
    if m == 0 {
        assert(s@.subrange(0, 0 + pat@.len() as int) =~= pat@);
        return true;
    }
    let mut i: usize = 0;
    while i <= n - m
        invariant
            n == sc@.len(),
            m == pc@.len(),
            m <= n,
            sc@ == s@,
            pc@ == pat@,
            i <= n - m + 1,
            0 < m,
            forall|k: int| 0 <= k < i ==> #[trigger] s@.subrange(k, k + m) != pat@,
        decreases n - m + 1 - i,
    {
        if occurs_at(&sc, &pc, i) {
            return true;
        }
        i = i + 1;
    }
    false
}

} // verus!
