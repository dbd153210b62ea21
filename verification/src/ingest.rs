//! The ingestion path: one bounded chunk of raw bytes becomes a paste.
//!
//! The submission channel reads a single bounded buffer — anything past it
//! is silently truncated by the bounded read, a documented property of the
//! channel — decodes it leniently to text, stores a fresh paste, and
//! answers with the retrieval URL, the secret and the expiry. A slug
//! collision is retried with fresh identifiers a bounded number of times
//! before surfacing an internal error.

use vstd::prelude::*;
use vstd::utf8::encode_utf8;
use crate::error::AppError;
use crate::expiry::{spec_expiry, TS_MAX};
use crate::paste::{spec_response_text, Paste, PasteModel};
use crate::store::PasteStore;

verus! {

/// Size of the single read the submission channel performs; longer
/// submissions are truncated to this many bytes.
pub const INGEST_BUFFER_SIZE: usize = 4096;

/// How many fresh slugs a submission tries before giving up.
pub const SLUG_RETRY_LIMIT: usize = 3;

/// The text lenient UTF-8 decoding assigns to a byte string. Determined
/// by the bytes alone.
pub uninterp spec fn lossy_text_of(bytes: Seq<u8>) -> Seq<char>;

/// Relies on String::from_utf8_lossy: valid UTF-8 is kept as is and each
/// invalid byte is replaced by U+FFFD, which is three bytes long, so the
/// result's encoding is at most three times the input's length.
#[verifier::external_body]
fn lossy_utf8(bytes: &[u8]) -> (r: String)
    ensures
        r@ == lossy_text_of(bytes@),
        encode_utf8(r@).len() <= 3 * bytes@.len(),
{
    String::from_utf8_lossy(bytes).into_owned()
}

/// The model of the paste a submission of `bytes` at `now` produces,
/// given the slug and secret the generator drew.
pub open spec fn submitted_model(
    bytes: Seq<u8>,
    ip_address: Seq<char>,
    now: int,
    slug: Seq<char>,
    secret: Seq<char>,
) -> PasteModel {
    (PasteModel {
        slug: slug,
        content: lossy_text_of(bytes),
        created_at: now,
        expires_at: spec_expiry(encode_utf8(lossy_text_of(bytes)).len() as int, now),
        secret: secret,
        ip_address: ip_address,
        password: None,
    })
}

/// Handles one submission: decode the buffer, store a fresh paste, and
/// return the confirmation text. On success the store gains exactly one
/// paste, under a slug it did not hold before; a submission that only ran
/// into slug collisions fails as internal and leaves the store untouched.
pub fn handle_submission(
    store: &mut PasteStore,
    buf: &[u8],
    ip_address: String,
    now: i64,
    host: &str,
) -> (r: Result<String, AppError>)
    requires
        old(store).wf(),
        buf@.len() <= INGEST_BUFFER_SIZE,
        0 <= now <= TS_MAX,
    ensures
        final(store).wf(),
        r matches Ok(resp) ==> exists|slug: Seq<char>, secret: Seq<char>|
            {
                &&& !old(store)@.contains_key(slug)
                &&& final(store)@ == old(store)@.insert(
                    slug,
                    submitted_model(buf@, ip_address@, now as int, slug, secret),
                )
                &&& resp@ == spec_response_text(
                    host@,
                    slug,
                    secret,
                    spec_expiry(encode_utf8(lossy_text_of(buf@)).len() as int, now as int),
                )
            },
        r is Err ==> final(store)@ == old(store)@ && r == Err::<String, AppError>(
            AppError::Internal,
        ),
        old(store)@ == Map::<Seq<char>, PasteModel>::empty() ==> r is Ok,
{
    let content = lossy_utf8(buf);
    let mut tries: usize = 0;
    while tries < SLUG_RETRY_LIMIT
        invariant
            store.wf(),
            store@ == old(store)@,
            content@ == lossy_text_of(buf@),
            encode_utf8(content@).len() <= 3 * buf@.len(),
            buf@.len() <= INGEST_BUFFER_SIZE,
            0 <= now <= TS_MAX,
            tries > 0 ==> old(store)@ != Map::<Seq<char>, PasteModel>::empty(),
        decreases SLUG_RETRY_LIMIT - tries,
    {
        let paste = Paste::new(content.clone(), ip_address.clone(), now);
        match paste.save(store) {
            Ok(_) => {
                let resp = paste.get_response_str(host);
                proof {
                    assert(paste@ == submitted_model(
                        buf@,
                        ip_address@,
                        now as int,
                        paste@.slug,
                        paste@.secret,
                    ));
                }
                return Ok(resp);
            },
            Err(_) => {
                // A conflict names a slug the store already holds, so the
                // store cannot have been empty: on an empty store the
                // first attempt succeeds.
                proof {
                    assert(old(store)@.contains_key(paste@.slug));
                    assert(!Map::<Seq<char>, PasteModel>::empty().contains_key(paste@.slug));
                }
                tries = tries + 1;
            },
        }
    }
    Err(AppError::internal())
}

} // verus!
