//! Text helpers: the statements this library makes about decimal numbers and
//! request decoding, and the few std text functions it relies on.
use vstd::prelude::*;
use vstd::string::{StrSliceExecFns, StringExecFns};

verus! {

/// Character of a decimal digit `0 <= d < 10`.
pub open spec fn digit_char(d: int) -> char {
    if d == 0 { '0' }
    else if d == 1 { '1' }
    else if d == 2 { '2' }
    else if d == 3 { '3' }
    else if d == 4 { '4' }
    else if d == 5 { '5' }
    else if d == 6 { '6' }
    else if d == 7 { '7' }
    else if d == 8 { '8' }
    else { '9' }
}

/// Value of a decimal digit character.
pub open spec fn digit_value(c: char) -> int {
    c as int - '0' as int
}

pub open spec fn is_digit(c: char) -> bool {
    '0' <= c && c <= '9'
}

/// Decimal digits of a natural number, most significant first, no leading zero.
pub open spec fn nat_text(n: nat) -> Seq<char>
    decreases n,
{
    if n < 10 {
        seq![digit_char(n as int)]
    } else {
        nat_text(n / 10).push(digit_char((n % 10) as int))
    }
}

/// Decimal form of an integer: a minus sign before a negative one.
pub open spec fn int_text(n: int) -> Seq<char> {
    if n < 0 {
        seq!['-'] + nat_text((-n) as nat)
    } else {
        nat_text(n as nat)
    }
}

/// Value of a non-empty run of decimal digits.
pub open spec fn digits_value(t: Seq<char>) -> int
    decreases t.len(),
{
    if t.len() == 0 {
        0
    } else {
        digits_value(t.drop_last()) * 10 + digit_value(t.last())
    }
}

pub open spec fn all_digits(t: Seq<char>) -> bool {
    t.len() > 0 && forall|i: int| 0 <= i < t.len() ==> is_digit(#[trigger] t[i])
}

/// What parsing a token as an `i32` gives: an optional sign followed by one or
/// more decimal digits, whose value lies in the range of `i32`.
pub open spec fn parsed_i32(t: Seq<char>) -> Option<int> {
    let negative = t.len() > 0 && t[0] == '-';
    let signed = t.len() > 0 && (t[0] == '-' || t[0] == '+');
    let body = if signed { t.skip(1) } else { t };
    let v = if negative { -digits_value(body) } else { digits_value(body) };
    if all_digits(body) && i32::MIN <= v && v <= i32::MAX {
        Some(v)
    } else {
        None
    }
}

/// Text that decoding a byte string as UTF-8, replacing each invalid
/// sequence, gives.
pub uninterp spec fn lossy_text(b: Seq<u8>) -> Seq<char>;

/// Text that lower-casing a string gives.
pub uninterp spec fn lower_of(s: Seq<char>) -> Seq<char>;

/// Relies on `String::from_utf8_lossy`: the text depends on the bytes alone,
/// and bytes below 128 are valid UTF-8 that decodes to the same code points.
#[verifier::external_body]
pub(crate) fn decode_lossy(b: &[u8]) -> (r: String)
    ensures
        r@ == lossy_text(b@),
        (forall|i: int| 0 <= i < b@.len() ==> #[trigger] b@[i] < 128) ==> r@ == b@.map_values(
            |c: u8| c as char,
        ),
{
    String::from_utf8_lossy(b).into_owned()
}

/// Relies on `str::to_lowercase`: the result depends on the characters alone.
#[verifier::external_body]
pub(crate) fn lowercase(s: &str) -> (r: String)
    ensures
        r@ == lower_of(s@),
{
    s.to_lowercase()
}

/// Relies on `<i32 as FromStr>::from_str`, documented to accept an optional
/// `+` or `-` followed by decimal digits, and to fail on anything else or on a
/// value out of range.
#[verifier::external_body]
pub(crate) fn parse_i32(t: &str) -> (r: Option<i32>)
    ensures
        r matches Some(n) ==> parsed_i32(t@) == Some(n as int),
        r is None ==> parsed_i32(t@) is None,
{
    t.parse::<i32>().ok()
}

/// Relies on `<i128 as ToString>::to_string`: the decimal form of the value.
#[verifier::external_body]
pub(crate) fn i128_text(n: i128) -> (r: String)
    ensures
        r@ == int_text(n as int),
{
    n.to_string()
}

/// Whether two strings hold the same characters.
pub fn text_equals(a: &str, b: &str) -> (r: bool)
    ensures
        r == (a@ == b@),
{
    let n = a.unicode_len();
    let m = b.unicode_len();
    if n != m {
        return false;
    }
    let mut i: usize = 0;
    while i < n
        invariant
            n == a@.len(),
            m == b@.len(),
            n == m,
            i <= n,
            forall|j: int| 0 <= j < i ==> a@[j] == b@[j],
        decreases n - i,
    {
        if a.get_char(i) != b.get_char(i) {
            return false;
        }
        i = i + 1;
    }
    assert(a@ =~= b@);
    true
}

/// A fresh string holding the characters of `s`.
pub fn owned_text(s: &str) -> (r: String)
    ensures
        r@ == s@,
{
    String::from_str(s)
}

} // verus!
