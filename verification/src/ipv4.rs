//! IPv4 addresses in dotted-decimal notation.

use vstd::prelude::*;
use vstd::string::*;

verus! {

/// A decimal digit.
pub open spec fn is_digit(c: char) -> bool {
    '0' <= c <= '9'
}

/// The digit that stands for `d`, for `d` from 0 to 9.
pub open spec fn digit_char(d: int) -> char {
    (d + 48) as char
}

/// The number that a digit stands for.
pub open spec fn digit_value(c: char) -> int {
    c as int - 48
}

/// The decimal numeral of an octet: one to three digits, without leading
/// zeros.
pub open spec fn decimal(n: u8) -> Seq<char> {
    if n < 10 {
        seq![digit_char(n as int)]
    } else if n < 100 {
        seq![digit_char(n as int / 10), digit_char(n as int % 10)]
    } else {
        seq![digit_char(n as int / 100), digit_char((n as int / 10) % 10), digit_char(n as int % 10)]
    }
}

/// An IPv4 address: four octets, the first written first.
#[derive(Debug, Clone, Copy, PartialEq, Eq, Structural)]
pub struct Ipv4Addr {
    pub a: u8,
    pub b: u8,
    pub c: u8,
    pub d: u8,
}

impl Ipv4Addr {
    /// The address in dotted-decimal notation.
    pub open spec fn text(self) -> Seq<char> {
        decimal(self.a) + seq!['.'] + decimal(self.b) + seq!['.'] + decimal(self.c) + seq!['.']
            + decimal(self.d)
    }

    /// The address that a text denotes: the one whose dotted-decimal
    /// notation the text is.
    pub open spec fn parse(s: Seq<char>) -> Option<Ipv4Addr> {
        if exists|ip: Ipv4Addr| ip.text() == s {
            Some(choose|ip: Ipv4Addr| ip.text() == s)
        } else {
            None
        }
    }

    /// The address with the given octets.
    pub fn new(a: u8, b: u8, c: u8, d: u8) -> (ip: Ipv4Addr)
        ensures
            ip == (Ipv4Addr { a, b, c, d }),
    {
        Ipv4Addr { a, b, c, d }
    }
}

/// The text of one digit.
fn digit_str(d: u8) -> (s: &'static str)
    requires
        d < 10,
    ensures
        s@ == seq![digit_char(d as int)],
{
    proof {
        reveal_strlit("0");
        reveal_strlit("1");
        reveal_strlit("2");
        reveal_strlit("3");
        reveal_strlit("4");
        reveal_strlit("5");
        reveal_strlit("6");
        reveal_strlit("7");
        reveal_strlit("8");
        reveal_strlit("9");
    }
    let s = if d == 0 {
        "0"
    } else if d == 1 {
        "1"
    } else if d == 2 {
        "2"
    } else if d == 3 {
        "3"
    } else if d == 4 {
        "4"
    } else if d == 5 {
        "5"
    } else if d == 6 {
        "6"
    } else if d == 7 {
        "7"
    } else if d == 8 {
        "8"
    } else {
        "9"
    };
    assert(s@ =~= seq![digit_char(d as int)]);
    s
}

/// Writes the decimal numeral of `n` at the end of `out`.
fn push_decimal(out: &mut String, n: u8)
    ensures
        final(out)@ == old(out)@ + decimal(n),
{
    if n >= 100 {
        out.append(digit_str(n / 100));
    }
    if n >= 10 {
        out.append(digit_str((n / 10) % 10));
    }
    out.append(digit_str(n % 10));
    assert(out@ =~= old(out)@ + decimal(n));
}

impl Ipv4Addr {
    /// Writes the address in dotted-decimal notation.
    pub fn to_string(&self) -> (s: String)
        ensures
            s@ == self.text(),
    {
        proof {
            reveal_strlit(".");
        }
        let mut s = String::new();
        push_decimal(&mut s, self.a);
        s.append(".");
        push_decimal(&mut s, self.b);
        s.append(".");
        push_decimal(&mut s, self.c);
        s.append(".");
        push_decimal(&mut s, self.d);
        assert(s@ =~= self.text());
        s
    }
}

/// The octet whose decimal numeral `x` is, if there is one.
pub open spec fn octet_of(x: Seq<char>) -> Option<u8> {
    if x.len() == 1 && is_digit(x[0]) {
        Some(digit_value(x[0]) as u8)
    } else if x.len() == 2 && is_digit(x[0]) && is_digit(x[1]) && x[0] != '0' {
        Some((10 * digit_value(x[0]) + digit_value(x[1])) as u8)
    } else if x.len() == 3 && is_digit(x[0]) && is_digit(x[1]) && is_digit(x[2]) && x[0] != '0'
        && 100 * digit_value(x[0]) + 10 * digit_value(x[1]) + digit_value(x[2]) <= 255 {
        Some((100 * digit_value(x[0]) + 10 * digit_value(x[1]) + digit_value(x[2])) as u8)
    } else {
        None
    }
}

/// `octet_of` reads exactly the decimal numerals of the octets.
pub proof fn lemma_octet_of(x: Seq<char>, n: u8)
    ensures
        octet_of(x) == Some(n) <==> x == decimal(n),
        1 <= decimal(n).len() <= 3,
        forall|i: int| 0 <= i < decimal(n).len() ==> is_digit(#[trigger] decimal(n)[i]),
{
    if octet_of(x) == Some(n) {
        assert(x =~= decimal(n));
    }
    if x == decimal(n) {
        assert(octet_of(x) == Some(n));
    }
}

/// The notation of an address holds digits and dots, so no line feed.
pub proof fn lemma_text_has_no_line_feed(ip: Ipv4Addr)
    ensures
        forall|i: int| 0 <= i < ip.text().len() ==> #[trigger] ip.text()[i] != '\n',
{
    lemma_octet_of(decimal(ip.a), ip.a);
    lemma_octet_of(decimal(ip.b), ip.b);
    lemma_octet_of(decimal(ip.c), ip.c);
    lemma_octet_of(decimal(ip.d), ip.d);
}

/// The end of the run of digits that starts at `start`.
pub open spec fn digits_end(s: Seq<char>, start: int) -> int
    decreases s.len() - start,
{
    if 0 <= start < s.len() && is_digit(s[start]) {
        digits_end(s, start + 1)
    } else {
        start
    }
}

/// What `digits_end` finds: digits up to the end it gives, and none there.
proof fn lemma_digits_end(s: Seq<char>, start: int)
    requires
        0 <= start <= s.len(),
    ensures
        start <= digits_end(s, start) <= s.len(),
        forall|i: int| start <= i < digits_end(s, start) ==> is_digit(#[trigger] s[i]),
        digits_end(s, start) < s.len() ==> !is_digit(s[digits_end(s, start)]),
    decreases s.len() - start,
{
    if start < s.len() && is_digit(s[start]) {
        lemma_digits_end(s, start + 1);
    }
}

/// A run of digits that is followed by something else ends where
/// `digits_end` says.
proof fn lemma_digits_end_is(s: Seq<char>, start: int, end: int)
    requires
        0 <= start <= end <= s.len(),
        forall|i: int| start <= i < end ==> is_digit(#[trigger] s[i]),
        end < s.len() ==> !is_digit(s[end]),
    ensures
        digits_end(s, start) == end,
    decreases end - start,
{
    if start < end {
        lemma_digits_end_is(s, start + 1, end);
    }
}

/// The octet whose numeral starts at `start`, and where the numeral ends.
pub open spec fn octet_at(s: Seq<char>, start: int) -> Option<(u8, int)> {
    let end = digits_end(s, start);
    match octet_of(s.subrange(start, end)) {
        Some(n) => Some((n, end)),
        None => None,
    }
}

/// Whether a dot stands at `at`.
pub open spec fn dot_at(s: Seq<char>, at: int) -> bool {
    0 <= at < s.len() && s[at] == '.'
}

/// Reads a text from left to right as four numerals with dots between.
pub open spec fn scan(s: Seq<char>) -> Option<Ipv4Addr> {
    match octet_at(s, 0) {
        Some((a, e1)) if dot_at(s, e1) => match octet_at(s, e1 + 1) {
            Some((b, e2)) if dot_at(s, e2) => match octet_at(s, e2 + 1) {
                Some((c, e3)) if dot_at(s, e3) => match octet_at(s, e3 + 1) {
                    Some((d, e4)) if e4 == s.len() => Some(Ipv4Addr { a, b, c, d }),
                    _ => None,
                },
                _ => None,
            },
            _ => None,
        },
        _ => None,
    }
}

/// A numeral found by `octet_at` is the numeral of the octet it gives.
proof fn lemma_octet_at_sound(s: Seq<char>, start: int)
    requires
        0 <= start <= s.len(),
    ensures
        octet_at(s, start) matches Some((n, end)) ==> start < end <= s.len() && s.subrange(
            start,
            end,
        ) == decimal(n),
{
    lemma_digits_end(s, start);
    if let Some((n, end)) = octet_at(s, start) {
        lemma_octet_of(s.subrange(start, end), n);
    }
}

/// Where the numeral of `n` stands at `start` and no digit follows it,
/// `octet_at` finds it.
proof fn lemma_octet_at_complete(s: Seq<char>, start: int, n: u8)
    requires
        0 <= start,
        start + decimal(n).len() <= s.len(),
        s.subrange(start, start + decimal(n).len()) == decimal(n),
        start + decimal(n).len() < s.len() ==> !is_digit(s[start + decimal(n).len()]),
    ensures
        octet_at(s, start) == Some((n, start + decimal(n).len())),
{
    let end = start + decimal(n).len();
    lemma_octet_of(decimal(n), n);
    assert forall|i: int| start <= i < end implies is_digit(#[trigger] s[i]) by {
        assert(s[i] == s.subrange(start, end)[i - start]);
    }
    lemma_digits_end_is(s, start, end);
}

impl Ipv4Addr {
    /// What `scan` reads is the notation of the address it gives.
    proof fn lemma_scan_sound(s: Seq<char>)
        ensures
            scan(s) matches Some(ip) ==> ip.text() == s,
    {
        lemma_octet_at_sound(s, 0);
        if let Some((a, e1)) = octet_at(s, 0) {
            if dot_at(s, e1) {
                lemma_octet_at_sound(s, e1 + 1);
                if let Some((b, e2)) = octet_at(s, e1 + 1) {
                    if dot_at(s, e2) {
                        lemma_octet_at_sound(s, e2 + 1);
                        if let Some((c, e3)) = octet_at(s, e2 + 1) {
                            if dot_at(s, e3) {
                                lemma_octet_at_sound(s, e3 + 1);
                                if scan(s) is Some {
                                    assert(s =~= s.subrange(0, e1) + seq!['.'] + s.subrange(
                                        e1 + 1,
                                        e2,
                                    ) + seq!['.'] + s.subrange(e2 + 1, e3) + seq!['.']
                                        + s.subrange(e3 + 1, s.len() as int));
                                }
                            }
                        }
                    }
                }
            }
        }
    }

    /// `scan` reads the notation of every address.
    proof fn lemma_scan_complete(ip: Ipv4Addr)
        ensures
            scan(ip.text()) == Some(ip),
    {
        let s = ip.text();
        lemma_octet_of(decimal(ip.a), ip.a);
        lemma_octet_of(decimal(ip.b), ip.b);
        lemma_octet_of(decimal(ip.c), ip.c);
        lemma_octet_of(decimal(ip.d), ip.d);
        let e1 = decimal(ip.a).len() as int;
        let e2 = e1 + 1 + decimal(ip.b).len();
        let e3 = e2 + 1 + decimal(ip.c).len();
        let e4 = e3 + 1 + decimal(ip.d).len();
        assert(s.len() == e4);
        assert(s.subrange(0, e1) =~= decimal(ip.a));
        assert(s[e1] == '.');
        lemma_octet_at_complete(s, 0, ip.a);
        assert(s.subrange(e1 + 1, e2) =~= decimal(ip.b));
        assert(s[e2] == '.');
        lemma_octet_at_complete(s, e1 + 1, ip.b);
        assert(s.subrange(e2 + 1, e3) =~= decimal(ip.c));
        assert(s[e3] == '.');
        lemma_octet_at_complete(s, e2 + 1, ip.c);
        assert(s.subrange(e3 + 1, e4) =~= decimal(ip.d));
        lemma_octet_at_complete(s, e3 + 1, ip.d);
    }

    /// No two addresses are written alike.
    pub proof fn lemma_text_injective(first: Ipv4Addr, second: Ipv4Addr)
        requires
            first.text() == second.text(),
        ensures
            first == second,
    {
        Self::lemma_scan_complete(first);
        Self::lemma_scan_complete(second);
    }

    /// A text denotes the address that `scan` reads from it, and no other.
    proof fn lemma_parse_is_scan(s: Seq<char>)
        ensures
            Self::parse(s) == scan(s),
    {
        Self::lemma_scan_sound(s);
        if exists|ip: Ipv4Addr| ip.text() == s {
            let ip = choose|ip: Ipv4Addr| ip.text() == s;
            Self::lemma_scan_complete(ip);
        }
    }

    /// Writing an address and reading the text gives the address back.
    pub proof fn lemma_format_then_parse(ip: Ipv4Addr)
        ensures
            Self::parse(ip.text()) == Some(ip),
    {
        Self::lemma_scan_complete(ip);
        Self::lemma_parse_is_scan(ip.text());
    }

    /// Reading a text that denotes an address and writing the address
    /// gives the same text back.
    pub proof fn lemma_parse_then_format(s: Seq<char>)
        ensures
            Self::parse(s) matches Some(ip) ==> ip.text() == s,
    {
    }

    /// A text in dotted-decimal notation has seven to fifteen characters.
    pub proof fn lemma_text_len(ip: Ipv4Addr)
        ensures
            7 <= ip.text().len() <= 15,
    {
        lemma_octet_of(decimal(ip.a), ip.a);
        lemma_octet_of(decimal(ip.b), ip.b);
        lemma_octet_of(decimal(ip.c), ip.c);
        lemma_octet_of(decimal(ip.d), ip.d);
    }
}

/// Finds the end of the run of digits that starts at `start`.
fn scan_digits(s: &str, start: usize, len: usize) -> (end: usize)
    requires
        len == s@.len(),
        start <= len,
    ensures
        end == digits_end(s@, start as int),
        start <= end <= len,
{
    let mut end = start;
    while end < len && is_digit_char(s.get_char(end))
        invariant
            len == s@.len(),
            start <= end <= len,
            digits_end(s@, start as int) == digits_end(s@, end as int),
        decreases len - end,
    {
        end += 1;
    }
    end
}

fn is_digit_char(c: char) -> (yes: bool)
    ensures
        yes == is_digit(c),
{
    '0' <= c && c <= '9'
}

fn digit_of(c: char) -> (d: u8)
    requires
        is_digit(c),
    ensures
        d == digit_value(c),
{
    (c as u32 - 48) as u8
}

/// Reads the characters from `start` to `end` as the numeral of an octet.
fn read_octet(s: &str, start: usize, end: usize) -> (octet: Option<u8>)
    requires
        start <= end <= s@.len(),
    ensures
        octet == octet_of(s@.subrange(start as int, end as int)),
{
    let ghost x = s@.subrange(start as int, end as int);
    let width = end - start;
    if width == 0 || width > 3 {
        return None;
    }
    let c0 = s.get_char(start);
    assert(c0 == x[0]);
    if !is_digit_char(c0) {
        return None;
    }
    if width == 1 {
        return Some(digit_of(c0));
    }
    let c1 = s.get_char(start + 1);
    assert(c1 == x[1]);
    if !is_digit_char(c1) || c0 == '0' {
        return None;
    }
    if width == 2 {
        return Some(10 * digit_of(c0) + digit_of(c1));
    }
    let c2 = s.get_char(start + 2);
    assert(c2 == x[2]);
    if !is_digit_char(c2) {
        return None;
    }
    let value: u16 = 100 * (digit_of(c0) as u16) + 10 * (digit_of(c1) as u16) + (digit_of(c2) as u16);
    if value <= 255 {
        Some(value as u8)
    } else {
        None
    }
}

/// Reads the numeral that starts at `start`.
fn read_octet_at(s: &str, start: usize, len: usize) -> (found: Option<(u8, usize)>)
    requires
        len == s@.len(),
        start <= len,
    ensures
        match found {
            Some((n, end)) => octet_at(s@, start as int) == Some((n, end as int)) && end <= len,
            None => octet_at(s@, start as int) is None,
        },
{
    let end = scan_digits(s, start, len);
    match read_octet(s, start, end) {
        Some(n) => Some((n, end)),
        None => None,
    }
}

fn is_dot_at(s: &str, at: usize, len: usize) -> (yes: bool)
    requires
        len == s@.len(),
    ensures
        yes == dot_at(s@, at as int),
{
    at < len && s.get_char(at) == '.'
}

impl Ipv4Addr {
    /// Reads an address in dotted-decimal notation: four decimal numerals
    /// from 0 to 255, none with a leading zero, with a dot between each two.
    /// Any other text is no address.
    pub fn from_str(s: &str) -> (read: Option<Ipv4Addr>)
        ensures
            read == Self::parse(s@),
            read matches Some(ip) ==> ip.text() == s@,
            read is None ==> forall|ip: Ipv4Addr| ip.text() != s@,
    {
        proof {
            Self::lemma_parse_is_scan(s@);
            assert forall|ip: Ipv4Addr| ip.text() == s@ implies s@.len() <= 15 by {
                Self::lemma_text_len(ip);
            }
        }
        let len = s.unicode_len();
        if len > 15 {
            return None;
        }
        let (a, e1) = match read_octet_at(s, 0, len) {
            Some(found) => found,
            None => {
                return None;
            },
        };
        if !is_dot_at(s, e1, len) {
            return None;
        }
        let (b, e2) = match read_octet_at(s, e1 + 1, len) {
            Some(found) => found,
            None => {
                return None;
            },
        };
        if !is_dot_at(s, e2, len) {
            return None;
        }
        let (c, e3) = match read_octet_at(s, e2 + 1, len) {
            Some(found) => found,
            None => {
                return None;
            },
        };
        if !is_dot_at(s, e3, len) {
            return None;
        }
        let (d, e4) = match read_octet_at(s, e3 + 1, len) {
            Some(found) => found,
            None => {
                return None;
            },
        };
        if e4 != len {
            return None;
        }
        Some(Ipv4Addr { a, b, c, d })
    }
}

} // verus!
