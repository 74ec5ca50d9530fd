//! Text helpers: decimal numbers, comma-separated lists, and the few std
//! string functions the library relies on.
use vstd::prelude::*;

verus! {

/// The ASCII digit for `d`, which is below ten.
pub open spec fn digit_char(d: nat) -> char {
    if d == 0 {
        '0'
    } else if d == 1 {
        '1'
    } else if d == 2 {
        '2'
    } else if d == 3 {
        '3'
    } else if d == 4 {
        '4'
    } else if d == 5 {
        '5'
    } else if d == 6 {
        '6'
    } else if d == 7 {
        '7'
    } else if d == 8 {
        '8'
    } else {
        '9'
    }
}

/// The value of an ASCII digit.
pub open spec fn digit_value(c: char) -> nat {
    (c as nat - '0' as nat) as nat
}

/// Whether `c` is an ASCII digit.
pub open spec fn is_digit(c: char) -> bool {
    '0' <= c && c <= '9'
}

/// `n` written in decimal, without sign or leading zeros.
pub open spec fn decimal_text(n: nat) -> Seq<char>
    decreases n,
{
    if n < 10 {
        seq![digit_char(n)]
    } else {
        decimal_text(n / 10).push(digit_char(n % 10))
    }
}

/// The number that a non-empty run of ASCII digits denotes.
pub open spec fn digits_value(s: Seq<char>) -> nat
    decreases s.len(),
{
    if s.len() == 0 {
        0
    } else {
        digits_value(s.drop_last()) * 10 + digit_value(s.last())
    }
}

/// The `u64` that `s` spells: an optional `+`, then one or more ASCII digits
/// whose value fits in 64 bits.
pub open spec fn parsed_u64(s: Seq<char>) -> Option<u64> {
    let digits = if s.len() > 0 && s[0] == '+' {
        s.skip(1)
    } else {
        s
    };
    if digits.len() > 0 && (forall|i: int| 0 <= i < digits.len() ==> is_digit(#[trigger] digits[i]))
        && digits_value(digits) <= u64::MAX {
        Some(digits_value(digits) as u64)
    } else {
        None
    }
}

/// `items`, separated by a comma and a space.
pub open spec fn joined(items: Seq<Seq<char>>) -> Seq<char>
    decreases items.len(),
{
    if items.len() == 0 {
        Seq::empty()
    } else if items.len() == 1 {
        items[0]
    } else {
        joined(items.drop_last()) + ", "@ + items.last()
    }
}

/// What `str::to_lowercase` makes of a string.
pub uninterp spec fn lowercase_of(s: Seq<char>) -> Seq<char>;

/// What `str::trim` leaves of a string.
pub uninterp spec fn trimmed(s: Seq<char>) -> Seq<char>;

/// What `str::trim_end` leaves of a string.
pub uninterp spec fn trimmed_end(s: Seq<char>) -> Seq<char>;

/// Relies on `str::trim`: the result depends on the characters alone.
#[verifier::external_body]
pub(crate) fn trim(s: &str) -> (r: &str)
    ensures
        r@ == trimmed(s@),
{
    s.trim()
}

/// Relies on `str::trim_end`: the result depends on the characters alone.
#[verifier::external_body]
pub(crate) fn trim_end(s: &str) -> (r: &str)
    ensures
        r@ == trimmed_end(s@),
{
    s.trim_end()
}

/// Relies on `u64`'s `Display`: the decimal digits of the number.
#[verifier::external_body]
pub(crate) fn u64_text(n: u64) -> (r: String)
    ensures
        r@ == decimal_text(n as nat),
{
    n.to_string()
}

/// Relies on `str::parse::<u64>`: an optional `+` and decimal digits, within
/// range, give the number; anything else is an error.
#[verifier::external_body]
pub(crate) fn parse_u64(s: &str) -> (r: Option<u64>)
    ensures
        r == parsed_u64(s@),
{
    s.parse::<u64>().ok()
}

/// Relies on `str::to_lowercase`: the result depends on the characters alone.
#[verifier::external_body]
pub(crate) fn to_lowercase(s: &str) -> (r: String)
    ensures
        r@ == lowercase_of(s@),
{
    s.to_lowercase()
}

/// Whether `a` and `b` hold the same characters.
pub fn same_text(a: &String, b: &str) -> (r: bool)
    ensures
        r == (a@ == b@),
{
    let b = String::from_str(b);
    *a == b
}

/// Joins `items` with a comma and a space between neighbours.
pub fn join_comma(items: &Vec<&str>) -> (r: String)
    ensures
        r@ == joined(items@.map_values(|s: &str| s@)),
{
    let ghost views = items@.map_values(|s: &str| s@);
    let mut out = String::new();
    let mut i: usize = 0;
    while i < items.len()
        invariant
            i <= items.len(),
            views == items@.map_values(|s: &str| s@),
            out@ == joined(views.take(i as int)),
        decreases items.len() - i,
    {
        assert(views.take(i + 1).drop_last() =~= views.take(i as int));
        if i > 0 {
            out.append(", ");
        } else {
            assert(out@ + views[0] =~= views[0]);
        }
        out.append(items[i]);
        i += 1;
    }
    assert(views.take(items.len() as int) =~= views);
    out
}

} // verus!
