//! The identifier and secret generator: random URL-safe tokens.

use vstd::prelude::*;

verus! {

/// Length of a paste's public slug, in characters.
pub const SLUG_LEN: usize = 6;

/// Length of a paste's capability secret, in characters.
pub const SECRET_LEN: usize = 16;

/// Holds of every character the token alphabet can produce:
/// ASCII letters, digits, `_` and `-`.
pub open spec fn is_url_safe_char(c: char) -> bool {
    ||| c == '_'
    ||| c == '-'
    ||| '0' <= c <= '9'
    ||| 'a' <= c <= 'z'
    ||| 'A' <= c <= 'Z'
}

/// Holds of every token the generator can produce.
pub open spec fn is_url_safe(s: Seq<char>) -> bool {
    forall|i: int| 0 <= i < s.len() ==> is_url_safe_char(#[trigger] s[i])
}

/// Relies on nanoid::format with nanoid's URL-safe alphabet and default
/// random source: it pushes characters drawn from that 64-symbol ASCII
/// alphabet until the string holds exactly `len` of them. The result is
/// random, so nothing beyond its length and alphabet is stated.
#[verifier::external_body]
fn random_token(len: usize) -> (r: String)
    ensures
        r@.len() == len,
        is_url_safe(r@),
{
    nanoid::format(nanoid::rngs::default, &nanoid::alphabet::SAFE, len)
}

/// A fresh random slug of six URL-safe characters.
pub fn new_slug() -> (r: String)
    ensures
        r@.len() == SLUG_LEN,
        is_url_safe(r@),
{
    random_token(SLUG_LEN)
}

/// A fresh random capability secret of sixteen URL-safe characters.
pub fn new_secret() -> (r: String)
    ensures
        r@.len() == SECRET_LEN,
        is_url_safe(r@),
{
    random_token(SECRET_LEN)
}

} // verus!
