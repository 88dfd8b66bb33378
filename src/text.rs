//! Text comparison and the decimal, boolean readings of a filter term.
use vstd::prelude::*;

verus! {

/// Whether `c` is an ASCII decimal digit.
pub open spec fn is_digit(c: char) -> bool {
    '0' <= c && c <= '9'
}

/// A non-empty run of decimal digits.
pub open spec fn all_digits(s: Seq<char>) -> bool {
    &&& s.len() > 0
    &&& forall|i: int| 0 <= i < s.len() ==> is_digit(#[trigger] s[i])
}

/// The value of a run of decimal digits, most significant first.
pub open spec fn digits_value(s: Seq<char>) -> int
    decreases s.len(),
{
    if s.len() == 0 {
        0
    } else {
        digits_value(s.drop_last()) * 10 + (s.last() as u32 - '0' as u32)
    }
}

/// The integer that `s` writes in decimal with an optional `+` or `-` sign,
/// or `None` where `s` is not of that form.
pub open spec fn signed_decimal(s: Seq<char>) -> Option<int> {
    if s.len() > 0 && s[0] == '-' && all_digits(s.drop_first()) {
        Some(-digits_value(s.drop_first()))
    } else if s.len() > 0 && s[0] == '+' && all_digits(s.drop_first()) {
        Some(digits_value(s.drop_first()))
    } else if all_digits(s) {
        Some(digits_value(s))
    } else {
        None
    }
}

/// The integer that `s` writes in decimal with an optional `+` sign, or `None`.
pub open spec fn unsigned_decimal(s: Seq<char>) -> Option<int> {
    if s.len() > 0 && s[0] == '+' && all_digits(s.drop_first()) {
        Some(digits_value(s.drop_first()))
    } else if all_digits(s) {
        Some(digits_value(s))
    } else {
        None
    }
}

/// The boolean that `s` spells, exactly `true` or `false`.
pub open spec fn boolean_text(s: Seq<char>) -> Option<bool> {
    if s == "true"@ {
        Some(true)
    } else if s == "false"@ {
        Some(false)
    } else {
        None
    }
}

/// Character-wise equality of two strings.
pub fn text_eq(a: &str, b: &str) -> (r: bool)
    ensures
        r == (a@ == b@),
{
    let n = a.unicode_len();
    if n != b.unicode_len() {
        return false;
    }
    let mut i: usize = 0;
    while i < n
        invariant
            n == a@.len(),
            n == b@.len(),
            i <= n,
            forall|j: int| 0 <= j < i ==> a@[j] == b@[j],
        decreases n - i,
    {
        if a.get_char(i) != b.get_char(i) {
            return false;
        }
        i = i + 1;
    }
    assert(a@ =~= b@);
    true
}

/// The text of the error `str::parse::<i32>` reports for `s`.
pub uninterp spec fn i32_parse_error(s: Seq<char>) -> Seq<char>;

/// The text of the error `str::parse::<i64>` reports for `s`.
pub uninterp spec fn i64_parse_error(s: Seq<char>) -> Seq<char>;

/// The text of the error `str::parse::<u64>` reports for `s`.
pub uninterp spec fn u64_parse_error(s: Seq<char>) -> Seq<char>;

/// The text of the error `str::parse::<bool>` reports for `s`.
pub uninterp spec fn bool_parse_error(s: Seq<char>) -> Seq<char>;

/// Relies on `str::parse::<i32>` (`i32::from_str`): an optional sign followed by
/// decimal digits only, and a value in range, is read; anything else is an
/// error, handed back as the text its `Display` gives.
#[verifier::external_body]
pub(crate) fn parse_i32(s: &str) -> (r: Result<i32, String>)
    ensures
        r is Ok <==> (signed_decimal(s@) matches Some(v) && i32::MIN <= v <= i32::MAX),
        r matches Ok(v) ==> signed_decimal(s@) == Some(v as int),
        r matches Err(e) ==> e@ == i32_parse_error(s@),
{
    s.parse::<i32>().map_err(|e| e.to_string())
}

/// Relies on `str::parse::<i64>` (`i64::from_str`): an optional sign followed by
/// decimal digits only, and a value in range, is read; anything else is an
/// error, handed back as the text its `Display` gives.
#[verifier::external_body]
pub(crate) fn parse_i64(s: &str) -> (r: Result<i64, String>)
    ensures
        r is Ok <==> (signed_decimal(s@) matches Some(v) && i64::MIN <= v <= i64::MAX),
        r matches Ok(v) ==> signed_decimal(s@) == Some(v as int),
        r matches Err(e) ==> e@ == i64_parse_error(s@),
{
    s.parse::<i64>().map_err(|e| e.to_string())
}

/// Relies on `str::parse::<u64>` (`u64::from_str`): an optional `+` followed by
/// decimal digits only, and a value in range, is read; anything else is an
/// error, handed back as the text its `Display` gives.
#[verifier::external_body]
pub(crate) fn parse_u64(s: &str) -> (r: Result<u64, String>)
    ensures
        r is Ok <==> (unsigned_decimal(s@) matches Some(v) && v <= u64::MAX),
        r matches Ok(v) ==> unsigned_decimal(s@) == Some(v as int),
        r matches Err(e) ==> e@ == u64_parse_error(s@),
{
    s.parse::<u64>().map_err(|e| e.to_string())
}

/// Relies on `str::parse::<bool>` (`bool::from_str`): only `true` and `false`
/// are accepted; anything else is an error, handed back as the text its
/// `Display` gives.
#[verifier::external_body]
pub(crate) fn parse_bool(s: &str) -> (r: Result<bool, String>)
    ensures
        r is Ok <==> boolean_text(s@) is Some,
        r matches Ok(v) ==> boolean_text(s@) == Some(v),
        r matches Err(e) ==> e@ == bool_parse_error(s@),
{
    s.parse::<bool>().map_err(|e| e.to_string())
}

} // verus!
