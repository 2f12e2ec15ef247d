//! Text coercions: decimal text to a double, the combined `"lat,lon"` form,
//! and trimming.

use vstd::prelude::*;

verus! {

/// What `str::parse` gives for a double-precision number, as IEEE-754 bits;
/// nothing where the text is not a number.
pub uninterp spec fn float_bits(s: Seq<char>) -> Option<u64>;

/// What `str::trim` leaves of a text.
pub uninterp spec fn trimmed(s: Seq<char>) -> Seq<char>;

/// Calls `str::parse` for a double and hands on the bits of the number, or
/// nothing where the text does not parse. The type to parse into is taken
/// from `serde_json::Value::as_f64`, so that text and JSON numbers are read
/// as the same kind of number; on `Null` that call always gives nothing, so
/// the `or` adds no value of its own.
#[verifier::external_body]
pub(crate) fn parse_float(s: &str) -> (r: Option<u64>)
    ensures
        r == float_bits(s@),
{
    let unparsed = serde_json::Value::Null.as_f64();
    s.parse().ok().or(unparsed).map(|x| x.to_bits())
}

/// Calls `str::trim`: the text without leading and trailing whitespace.
#[verifier::external_body]
pub(crate) fn trim(s: &str) -> (r: String)
    ensures
        r@ == trimmed(s@),
{
    s.trim().to_string()
}

/// The double that an optional text parses to.
pub open spec fn float_of(s: Option<Seq<char>>) -> Option<u64> {
    match s {
        Some(t) => float_bits(t),
        None => None,
    }
}

/// The position of the first comma at or after `from`, or the length of `s`
/// where there is none.
pub open spec fn comma_from(s: Seq<char>, from: int) -> int
    decreases s.len() - from,
{
    if from < 0 || from >= s.len() {
        s.len() as int
    } else if s[from] == ',' {
        from
    } else {
        comma_from(s, from + 1)
    }
}

/// The text before the first comma (all of it where there is none).
pub open spec fn first_part(s: Seq<char>) -> Seq<char> {
    s.subrange(0, comma_from(s, 0))
}

/// The text between the first comma and the second (or the end); nothing
/// where `s` holds no comma.
pub open spec fn second_part(s: Seq<char>) -> Option<Seq<char>> {
    let c = comma_from(s, 0);
    if c < s.len() {
        Some(s.subrange(c + 1, comma_from(s, c + 1)))
    } else {
        None
    }
}

/// `comma_from` stays within the text and finds a comma or the end.
pub proof fn lemma_comma_from(s: Seq<char>, from: int)
    requires
        0 <= from <= s.len(),
    ensures
        from <= comma_from(s, from) <= s.len(),
        comma_from(s, from) < s.len() ==> s[comma_from(s, from)] == ',',
        forall|k: int| from <= k < comma_from(s, from) ==> s[k] != ',',
    decreases s.len() - from,
{
    if from < s.len() && s[from] != ',' {
        lemma_comma_from(s, from + 1);
    }
}

/// Two texts without commas, joined by one comma, split into exactly those
/// two texts.
pub proof fn lemma_split_joined(a: Seq<char>, b: Seq<char>)
    requires
        !a.contains(','),
        !b.contains(','),
    ensures
        first_part(a + seq![','] + b) == a,
        second_part(a + seq![','] + b) == Some(b),
{
    let s = a + seq![','] + b;
    let n = a.len() as int;
    lemma_comma_from(s, 0);
    let c = comma_from(s, 0);
    assert(s[n] == ',');
    if c < n {
        assert(s[c] == a[c]);
        assert(a.contains(a[c]));
    }
    assert(c == n);
    assert(s.subrange(0, n) =~= a);
    lemma_comma_from(s, n + 1);
    let d = comma_from(s, n + 1);
    if d < s.len() {
        assert(s[d] == b[d - n - 1]);
        assert(b.contains(b[d - n - 1]));
    }
    assert(s.subrange(n + 1, s.len() as int) =~= b);
}

/// A text without a comma is its own first part and has no second.
pub proof fn lemma_split_single(a: Seq<char>)
    requires
        !a.contains(','),
    ensures
        first_part(a) == a,
        second_part(a) is None,
{
    lemma_comma_from(a, 0);
    let c = comma_from(a, 0);
    if c < a.len() {
        assert(a.contains(a[c]));
    }
    assert(a.subrange(0, a.len() as int) =~= a);
}

/// Finds the first comma at or after `from`.
fn find_comma(s: &str, from: usize, len: usize) -> (r: usize)
    requires
        len == s@.len(),
        from <= len,
    ensures
        r == comma_from(s@, from as int),
        from <= r <= len,
{
    let mut i: usize = from;
    while i < len
        invariant
            len == s@.len(),
            from <= i <= len,
            comma_from(s@, from as int) == comma_from(s@, i as int),
        decreases len - i,
    {
        if s.get_char(i) == ',' {
            return i;
        }
        i += 1;
    }
    i
}

/// Splits a text at its commas and keeps the first two parts.
pub fn split_pair(s: &str) -> (r: (String, Option<String>))
    ensures
        r.0@ == first_part(s@),
        crate::json::text_view(r.1) == second_part(s@),
{
    let len: usize = s.unicode_len();
    let c: usize = find_comma(s, 0, len);
    let head = String::from_str(s.substring_char(0, c));
    if c < len {
        let d: usize = find_comma(s, c + 1, len);
        let tail = String::from_str(s.substring_char(c + 1, d));
        (head, Some(tail))
    } else {
        (head, None)
    }
}

/// Reads a combined `"lat,lon"` text: each part is parsed on its own, so one
/// that is no number is absent without taking the other with it.
pub fn parse_coordinates(loc: &str) -> (r: (Option<u64>, Option<u64>))
    ensures
        r.0 == float_bits(first_part(loc@)),
        r.1 == float_of(second_part(loc@)),
{
    let parts = split_pair(loc);
    let latitude = parse_float(parts.0.as_str());
    let longitude = match parts.1 {
        Some(t) => parse_float(t.as_str()),
        None => None,
    };
    (latitude, longitude)
}

/// The double that an optional text parses to.
pub fn parse_float_of(s: Option<String>) -> (r: Option<u64>)
    ensures
        r == float_of(crate::json::text_view(s)),
{
    match s {
        Some(t) => parse_float(t.as_str()),
        None => None,
    }
}

} // verus!
