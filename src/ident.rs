//! The two values a fresh header takes from outside: a random identifier and the
//! local time.

use vstd::prelude::*;

verus! {

/// A character of the URL-safe alphabet: ASCII letters, digits, `_` and `-`.
pub open spec fn is_url_safe_char(c: char) -> bool {
    ('a' <= c && c <= 'z') || ('A' <= c && c <= 'Z') || ('0' <= c && c <= '9') || c == '_' || c
        == '-'
}

/// An ASCII decimal digit.
pub open spec fn is_ascii_digit(c: char) -> bool {
    '0' <= c && c <= '9'
}

/// The shape every RFC 3339 text of `chrono`'s `to_rfc3339` has: at least 25
/// characters, ending in a UTC offset written as a sign, two digits, `:` and two
/// digits.
pub open spec fn is_rfc3339_text(s: Seq<char>) -> bool {
    &&& s.len() >= 25
    &&& (s[s.len() - 6] == '+' || s[s.len() - 6] == '-')
    &&& is_ascii_digit(s[s.len() - 5])
    &&& is_ascii_digit(s[s.len() - 4])
    &&& s[s.len() - 3] == ':'
    &&& is_ascii_digit(s[s.len() - 2])
    &&& is_ascii_digit(s[s.len() - 1])
}

/// Relies on `nanoid::format` with `nanoid::rngs::default` and
/// `nanoid::alphabet::SAFE`: `size` characters drawn at random from the URL-safe
/// alphabet. It loops forever for a size of zero, which is left out; it panics
/// where the operating system has no entropy to give.
#[verifier::external_body]
pub(crate) fn random_url_safe_id(size: usize) -> (r: String)
    requires
        size > 0,
    ensures
        r@.len() == size,
        forall|i: int| 0 <= i < r@.len() ==> is_url_safe_char(#[trigger] r@[i]),
{
    nanoid::format(nanoid::rngs::default, &nanoid::alphabet::SAFE, size)
}

/// Relies on `chrono::Local::now` and `chrono::DateTime::to_rfc3339`: the local
/// time now, as RFC 3339 text. Which time it gives depends on the clock and on
/// the machine's time zone; only the shape of the text is stated: a four-digit
/// (or signed) year, date, time, optional fraction, and an offset `+HH:MM` or
/// `-HH:MM`, which `use_z = false` always writes in full.
#[verifier::external_body]
pub(crate) fn local_now_rfc3339() -> (r: String)
    ensures
        is_rfc3339_text(r@),
{
    chrono::Local::now().to_rfc3339()
}

} // verus!
