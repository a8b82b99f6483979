//! Text helpers: comparison, ASCII case folding, searching and the parsing of
//! a `host:port` address.

use vstd::prelude::*;

verus! {

/// Whether two string slices hold the same characters.
pub fn same_text(a: &str, b: &str) -> (r: bool)
    ensures
        r == (a@ == b@),
{
    let x = a.to_owned();
    let y = b.to_owned();
    x == y
}

/// The characters of a string slice, one by one.
pub fn chars_of(s: &str) -> (r: Vec<char>)
    ensures
        r@ == s@,
{
    let n: usize = s.unicode_len();
    let mut out: Vec<char> = Vec::new();
    let mut i: usize = 0;
    while i < n
        invariant
            n == s@.len(),
            0 <= i <= n,
            out@ == s@.subrange(0, i as int),
        decreases n - i,
    {
        let c = s.get_char(i);
        out.push(c);
        i += 1;
    }
    out
}

/// The ASCII lower-case form of one character: `A`..`Z` become `a`..`z`,
/// every other character stays as it is.
pub open spec fn lower_char(c: char) -> char {
    if 65 <= c as u32 <= 90 {
        ((c as u32 + 32) as u8) as char
    } else {
        c
    }
}

/// The ASCII lower-case form of a text, character by character.
pub open spec fn ascii_lowercase(s: Seq<char>) -> Seq<char> {
    Seq::new(s.len(), |i: int| lower_char(s[i]))
}

/// `String::make_ascii_lowercase` of std: in place, it maps the ASCII letters
/// `A`..`Z` to `a`..`z` and leaves every other character unchanged.
#[verifier::external_body]
pub(crate) fn make_ascii_lowercase(s: &mut String)
    ensures
        final(s)@ == ascii_lowercase(old(s)@),
{
    s.make_ascii_lowercase();
}

/// Lower-casing leaves the length alone and is idempotent.
pub proof fn lemma_ascii_lowercase_idempotent(s: Seq<char>)
    ensures
        ascii_lowercase(s).len() == s.len(),
        ascii_lowercase(ascii_lowercase(s)) == ascii_lowercase(s),
{
    assert forall|i: int| 0 <= i < s.len() implies lower_char(lower_char(s[i])) == lower_char(
        s[i],
    ) by {
        let c = s[i];
        if 65 <= c as u32 <= 90 {
            let d = ((c as u32 + 32) as u8) as char;
            assert(d as u32 == c as u32 + 32);
        }
    }
    assert(ascii_lowercase(ascii_lowercase(s)) =~= ascii_lowercase(s));
}

/// The Unicode lower-case form of a text, as std computes it.
pub uninterp spec fn unicode_lowercase(s: Seq<char>) -> Seq<char>;

/// `str::to_lowercase` of std. Its result follows the Unicode tables, so the
/// contract only gives it a name.
#[verifier::external_body]
pub(crate) fn to_lowercase(s: &str) -> (r: String)
    ensures
        r@ == unicode_lowercase(s@),
{
    s.to_lowercase()
}

/// Whether `needle` occurs in `hay` starting at position `at`.
pub open spec fn occurs_at(hay: Seq<char>, needle: Seq<char>, at: int) -> bool {
    &&& 0 <= at
    &&& at + needle.len() <= hay.len()
    &&& hay.subrange(at, at + needle.len()) == needle
}

/// Whether `needle` occurs somewhere in `hay`.
pub open spec fn contains_text(hay: Seq<char>, needle: Seq<char>) -> bool {
    exists|at: int| occurs_at(hay, needle, at)
}

fn matches_at(hay: &Vec<char>, needle: &Vec<char>, at: usize) -> (r: bool)
    requires
        at + needle.len() <= hay.len(),
    ensures
        r == occurs_at(hay@, needle@, at as int),
{
    let mut k: usize = 0;
    while k < needle.len()
        invariant
            at + needle.len() <= hay.len(),
            0 <= k <= needle.len(),
            forall|j: int| 0 <= j < k ==> hay@[at + j] == needle@[j],
        decreases needle.len() - k,
    {
        if hay[at + k] != needle[k] {
            return false;
        }
        k += 1;
    }
    assert(hay@.subrange(at as int, at + needle.len()) =~= needle@);
    true
}

/// Whether `needle` occurs in `hay`.
pub fn contains(hay: &str, needle: &str) -> (r: bool)
    ensures
        r == contains_text(hay@, needle@),
{
    let h = chars_of(hay);
    let n = chars_of(needle);
    if n.len() > h.len() {
        return false;
    }
    let last: usize = h.len() - n.len();
    let mut at: usize = 0;
    loop
        invariant
            h@ == hay@,
            n@ == needle@,
            n.len() <= h.len(),
            last == h.len() - n.len(),
            0 <= at <= last,
            forall|j: int| 0 <= j < at ==> !occurs_at(h@, n@, j),
        decreases last - at,
    {
        if matches_at(&h, &n, at) {
            return true;
        }
        if at == last {
            return false;
        }
        at += 1;
    }
}

/// Whether a character is one of `0`..`9`.
pub open spec fn is_digit(c: char) -> bool {
    48 <= c as u32 <= 57
}

/// The number that a run of decimal digits writes.
pub open spec fn digits_value(s: Seq<char>) -> nat
    decreases s.len(),
{
    if s.len() == 0 {
        0
    } else {
        (digits_value(s.drop_last()) * 10 + (s.last() as u32 - 48)) as nat
    }
}

/// Whether every character of `s` is a decimal digit.
pub open spec fn all_digits(s: Seq<char>) -> bool {
    forall|i: int| 0 <= i < s.len() ==> is_digit(#[trigger] s[i])
}

/// What is left of a number's text once one leading `+` is taken away.
pub open spec fn unsigned_digits(s: Seq<char>) -> Seq<char> {
    if s.len() > 0 && s[0] == '+' {
        s.subrange(1, s.len() as int)
    } else {
        s
    }
}

/// The port that a text writes in decimal: an optional `+`, then one digit
/// or more, with a value of at most 65535. No other text writes a port.
pub open spec fn port_of(s: Seq<char>) -> Option<u16> {
    let d = unsigned_digits(s);
    if d.len() > 0 && all_digits(d) && digits_value(d) <= u16::MAX {
        Some(digits_value(d) as u16)
    } else {
        None
    }
}

proof fn lemma_digits_value_grows(s: Seq<char>, k: int)
    requires
        all_digits(s),
        0 <= k <= s.len(),
    ensures
        digits_value(s.subrange(0, k)) <= digits_value(s),
    decreases s.len() - k,
{
    if k == s.len() {
        assert(s.subrange(0, k) =~= s);
    } else {
        lemma_digits_value_grows(s, k + 1);
        let t = s.subrange(0, k + 1);
        assert(t.drop_last() =~= s.subrange(0, k));
    }
}

/// Reads a port number written in decimal.
pub fn parse_port(s: &str) -> (r: Option<u16>)
    ensures
        r == port_of(s@),
{
    let cs = chars_of(s);
    let start: usize = if cs.len() > 0 && cs[0] == '+' {
        1
    } else {
        0
    };
    let ghost d = unsigned_digits(s@);
    if start == cs.len() {
        return None;
    }
    let mut value: u32 = 0;
    let mut i: usize = start;
    while i < cs.len()
        invariant
            cs@ == s@,
            d == unsigned_digits(s@),
            d == cs@.subrange(start as int, cs.len() as int),
            start <= i <= cs.len(),
            all_digits(d.subrange(0, i - start)),
            value == digits_value(d.subrange(0, i - start)),
            value <= u16::MAX,
        decreases cs.len() - i,
    {
        let c = cs[i];
        let ghost before = d.subrange(0, i - start);
        let ghost after = d.subrange(0, i - start + 1);
        assert(after.drop_last() =~= before);
        let code: u32 = c as u32;
        if code < 48 || code > 57 {
            assert(!is_digit(d[i - start]));
            return None;
        }
        let digit: u32 = code - 48;
        value = value * 10 + digit;
        assert forall|j: int| 0 <= j < after.len() implies is_digit(#[trigger] after[j]) by {
            if j < before.len() {
                assert(after[j] == before[j]);
            }
        }
        if value > 65535 {
            proof {
                if all_digits(d) {
                    lemma_digits_value_grows(d, i - start + 1);
                }
            }
            return None;
        }
        i += 1;
    }
    assert(d.subrange(0, i - start) =~= d);
    Some(value as u16)
}

/// The first position at or after `from` at which `s` holds `c`, or the
/// length of `s` where there is none.
pub open spec fn position_from(s: Seq<char>, c: char, from: int) -> int
    decreases s.len() - from,
{
    if from < 0 || from >= s.len() {
        s.len() as int
    } else if s[from] == c {
        from
    } else {
        position_from(s, c, from + 1)
    }
}

fn find_from(s: &Vec<char>, c: char, from: usize) -> (r: usize)
    requires
        from <= s.len(),
    ensures
        r == position_from(s@, c, from as int),
        from <= r <= s.len(),
{
    let mut i: usize = from;
    while i < s.len() && s[i] != c
        invariant
            from <= i <= s.len(),
            position_from(s@, c, from as int) == position_from(s@, c, i as int),
        decreases s.len() - i,
    {
        i += 1;
    }
    i
}

/// The host and the port of an address `host:port`. The host is what stands
/// before the first colon; the port is read from what stands between the
/// first colon and the second, or the end. An address without a colon, or
/// with no port there, has neither.
pub open spec fn host_and_port(s: Seq<char>) -> Option<(Seq<char>, u16)> {
    let colon = position_from(s, ':', 0);
    if colon >= s.len() {
        None
    } else {
        let end = position_from(s, ':', colon + 1);
        match port_of(s.subrange(colon + 1, end)) {
            Some(port) => Some((s.subrange(0, colon), port)),
            None => None,
        }
    }
}

/// Splits an address `host:port`.
pub fn split_host_port(s: &str) -> (r: Option<(String, u16)>)
    ensures
        match r {
            Some((host, port)) => host_and_port(s@) == Some((host@, port)),
            None => host_and_port(s@) is None,
        },
{
    let cs = chars_of(s);
    let colon = find_from(&cs, ':', 0);
    if colon >= cs.len() {
        return None;
    }
    let end = find_from(&cs, ':', colon + 1);
    match parse_port(s.substring_char(colon + 1, end)) {
        Some(port) => Some((s.substring_char(0, colon).to_owned(), port)),
        None => None,
    }
}

} // verus!
