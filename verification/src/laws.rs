//! The lifecycle laws of the store, stated over its map model and the
//! transition functions that the store operations are proved against.

use vstd::prelude::*;
use crate::error::AppError;
use crate::paste::PasteModel;
use crate::store::{lock_model, read_allowed, spec_delete, spec_get, spec_lock};

verus! {

/// Creating a paste and then reading it with no password returns the
/// content unchanged: a fresh paste carries no password gate.
pub proof fn lemma_create_then_read(m: Map<Seq<char>, PasteModel>, k: Seq<char>, p: PasteModel)
    requires
        !m.contains_key(k),
        p.password is None,
    ensures
        spec_get(m.insert(k, p), k, None) == Ok::<PasteModel, AppError>(p),
{
}

/// Before a paste is locked, a read succeeds whether or not a password is
/// supplied, and any supplied password is ignored.
pub proof fn lemma_read_ignores_password_before_lock(
    m: Map<Seq<char>, PasteModel>,
    k: Seq<char>,
    d: Seq<char>,
)
    requires
        m.contains_key(k),
        m[k].password is None,
    ensures
        spec_get(m, k, Some(d)) == Ok::<PasteModel, AppError>(m[k]),
        spec_get(m, k, None) == Ok::<PasteModel, AppError>(m[k]),
{
}

/// Locking with the correct secret succeeds and changes nothing but the
/// gate; afterwards a read with the locking digest succeeds and returns
/// the original content, while a read with a different digest, or with
/// none, fails as not found.
pub proof fn lemma_lock_then_read(m: Map<Seq<char>, PasteModel>, k: Seq<char>, d: Seq<char>)
    requires
        m.contains_key(k),
    ensures
        spec_lock(m, k, m[k].secret, d).1 is Ok,
        ({
            let m2 = spec_lock(m, k, m[k].secret, d).0;
            &&& m2[k].content == m[k].content
            &&& spec_get(m2, k, Some(d)) == Ok::<PasteModel, AppError>(lock_model(m[k], d))
            &&& spec_get(m2, k, None) == Err::<PasteModel, AppError>(AppError::NotFound)
            &&& forall|d2: Seq<char>|
                d2 != d ==> spec_get(m2, k, Some(d2)) == Err::<PasteModel, AppError>(
                    AppError::NotFound,
                )
        }),
{
}

/// Locking with an incorrect secret (or an absent slug) fails and leaves
/// the store, and so every paste's lock state, exactly as it was.
pub proof fn lemma_lock_wrong_secret(
    m: Map<Seq<char>, PasteModel>,
    k: Seq<char>,
    secret: Seq<char>,
    d: Seq<char>,
)
    requires
        !m.contains_key(k) || m[k].secret != secret,
    ensures
        spec_lock(m, k, secret, d).0 == m,
        spec_lock(m, k, secret, d).1 == Err::<(), AppError>(AppError::NotFound),
{
}

/// Deleting with the correct secret removes the paste; afterwards reads,
/// locks and deletes on the slug all fail.
pub proof fn lemma_delete_then_gone(
    m: Map<Seq<char>, PasteModel>,
    k: Seq<char>,
    secret2: Seq<char>,
    d: Option<Seq<char>>,
    d2: Seq<char>,
)
    requires
        m.contains_key(k),
    ensures
        spec_delete(m, k, m[k].secret).1 is Ok,
        ({
            let m2 = spec_delete(m, k, m[k].secret).0;
            &&& !m2.contains_key(k)
            &&& spec_get(m2, k, d) == Err::<PasteModel, AppError>(AppError::NotFound)
            &&& spec_lock(m2, k, secret2, d2) == (m2, Err::<(), AppError>(AppError::NotFound))
            &&& spec_delete(m2, k, secret2) == (
                m2,
                Err::<(), AppError>(AppError::Unauthorized),
            )
        }),
{
}

/// Deleting with an incorrect secret fails, and the paste remains exactly
/// as readable as before.
pub proof fn lemma_delete_wrong_secret(
    m: Map<Seq<char>, PasteModel>,
    k: Seq<char>,
    secret: Seq<char>,
    d: Option<Seq<char>>,
)
    requires
        m.contains_key(k),
        m[k].secret != secret,
    ensures
        spec_delete(m, k, secret).0 == m,
        spec_delete(m, k, secret).1 == Err::<(), AppError>(AppError::Unauthorized),
        read_allowed(m[k], d) ==> spec_get(m, k, d) == Ok::<PasteModel, AppError>(m[k]),
{
}

} // verus!
