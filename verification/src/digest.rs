//! Password digests: the stored gate a locked paste compares reads against.

use vstd::prelude::*;
use vstd::string::StringSliceAdditionalSpecFns;

verus! {

/// The digest the hash function assigns to a byte string. Its value is
/// determined by the bytes alone; nothing further is assumed of it.
pub uninterp spec fn digest_of(bytes: Seq<u8>) -> Seq<char>;

/// The digest of a piece of text, taken over its UTF-8 encoding.
pub open spec fn digest_of_text(s: Seq<char>) -> Seq<char> {
    digest_of(vstd::utf8::encode_utf8(s))
}

/// Relies on blake3::hash and blake3::Hash::to_hex: a 64-character
/// lowercase hexadecimal digest, a pure function of the input bytes.
#[verifier::external_body]
pub(crate) fn hash_password(password: &str) -> (r: String)
    ensures
        r@ == digest_of(password.spec_bytes()),
        r@.len() == 64,
{
    blake3::hash(password.as_bytes()).to_hex().as_str().to_owned()
}

} // verus!
