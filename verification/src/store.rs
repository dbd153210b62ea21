//! The paste store and its authorization rules.
//!
//! The store is viewed as a map from slug to paste model. Every operation
//! couples its authorization predicate with its mutation: a lock or delete
//! touches the store only where both slug and secret match, and a read
//! yields the paste only where the password gate allows it. A failed read
//! reports the same not-found error whether the slug is absent or the
//! password wrong, so lock state is never leaked.

use vstd::prelude::*;
use crate::digest::{digest_of_text, hash_password};
use crate::error::AppError;
use crate::paste::{Paste, PasteModel};
use crate::strutil::str_eq;

verus! {

/// The store: a flat collection of pastes with pairwise distinct slugs.
pub struct PasteStore {
    pastes: Vec<Paste>,
}

/// No two pastes share a slug.
pub open spec fn slugs_unique(s: Seq<Paste>) -> bool {
    forall|i: int, j: int| 0 <= i < j < s.len() ==> s[i].slug@ != s[j].slug@
}

/// The map a sequence of pastes denotes, keyed by slug.
pub open spec fn map_of(s: Seq<Paste>) -> Map<Seq<char>, PasteModel>
    decreases s.len(),
{
    if s.len() == 0 {
        Map::empty()
    } else {
        map_of(s.drop_last()).insert(s.last().slug@, s.last()@)
    }
}

impl View for PasteStore {
    type V = Map<Seq<char>, PasteModel>;

    closed spec fn view(&self) -> Map<Seq<char>, PasteModel> {
        map_of(self.pastes@)
    }
}

proof fn lemma_map_of_contains(s: Seq<Paste>, k: Seq<char>)
    ensures
        map_of(s).contains_key(k) <==> exists|i: int| 0 <= i < s.len() && s[i].slug@ == k,
    decreases s.len(),
{
    if s.len() > 0 {
        lemma_map_of_contains(s.drop_last(), k);
        if map_of(s).contains_key(k) {
            if s.last().slug@ == k {
                assert(s[s.len() - 1].slug@ == k);
            } else {
                let i = choose|i: int| 0 <= i < s.drop_last().len() && s.drop_last()[i].slug@ == k;
                assert(s[i].slug@ == k);
            }
        }
        if exists|i: int| 0 <= i < s.len() && s[i].slug@ == k {
            let i = choose|i: int| 0 <= i < s.len() && s[i].slug@ == k;
            if i < s.len() - 1 {
                assert(s.drop_last()[i].slug@ == k);
            }
        }
    }
}

proof fn lemma_map_of_index(s: Seq<Paste>, i: int)
    requires
        slugs_unique(s),
        0 <= i < s.len(),
    ensures
        map_of(s).contains_key(s[i].slug@),
        map_of(s)[s[i].slug@] == s[i]@,
    decreases s.len(),
{
    if i < s.len() - 1 {
        lemma_map_of_index(s.drop_last(), i);
        assert(s.drop_last()[i] == s[i]);
    }
}

proof fn lemma_map_of_push(s: Seq<Paste>, p: Paste)
    ensures
        map_of(s.push(p)) == map_of(s).insert(p.slug@, p@),
{
    assert(s.push(p).drop_last() =~= s);
    assert(s.push(p).last() == p);
}

proof fn lemma_map_of_update(s: Seq<Paste>, i: int, p: Paste)
    requires
        slugs_unique(s),
        0 <= i < s.len(),
        p.slug@ == s[i].slug@,
    ensures
        slugs_unique(s.update(i, p)),
        map_of(s.update(i, p)) == map_of(s).insert(p.slug@, p@),
    decreases s.len(),
{
    let t = s.update(i, p);
    assert forall|x: int, y: int| 0 <= x < y < t.len() implies t[x].slug@ != t[y].slug@ by {
        assert(s[x].slug@ != s[y].slug@);
    }
    if i == s.len() - 1 {
        assert(t.drop_last() =~= s.drop_last());
        assert(t.last() == p);
        assert(map_of(s).insert(p.slug@, p@) =~= map_of(s.drop_last()).insert(p.slug@, p@));
    } else {
        lemma_map_of_update(s.drop_last(), i, p);
        assert(t.drop_last() =~= s.drop_last().update(i, p));
        assert(t.last() == s.last());
        assert(s.last().slug@ != p.slug@);
        assert(map_of(t) =~= map_of(s).insert(p.slug@, p@));
    }
}

proof fn lemma_map_of_remove(s: Seq<Paste>, i: int)
    requires
        slugs_unique(s),
        0 <= i < s.len(),
    ensures
        slugs_unique(s.remove(i)),
        map_of(s.remove(i)) == map_of(s).remove(s[i].slug@),
    decreases s.len(),
{
    let t = s.remove(i);
    assert forall|x: int, y: int| 0 <= x < y < t.len() implies t[x].slug@ != t[y].slug@ by {
        let sx = if x < i { x } else { x + 1 };
        let sy = if y < i { y } else { y + 1 };
        assert(t[x] == s[sx]);
        assert(t[y] == s[sy]);
        assert(s[sx].slug@ != s[sy].slug@);
    }
    let k = s[i].slug@;
    if i == s.len() - 1 {
        assert(t =~= s.drop_last());
        lemma_map_of_contains(s.drop_last(), k);
        assert forall|j: int| 0 <= j < s.drop_last().len() implies s.drop_last()[j].slug@ != k by {
            assert(s[j].slug@ != s[s.len() - 1].slug@);
        }
        assert(map_of(s.drop_last()) =~= map_of(s).remove(k));
    } else {
        lemma_map_of_remove(s.drop_last(), i);
        assert(t.drop_last() =~= s.drop_last().remove(i));
        assert(t.last() == s.last());
        assert(s.last().slug@ != k);
        assert(map_of(t) =~= map_of(s).remove(k));
    }
}

/// The digest, if any, that an optional cleartext password denotes.
pub open spec fn spec_opt_digest(password: Option<String>) -> Option<Seq<char>> {
    match password {
        None => None,
        Some(p) => Some(digest_of_text(p@)),
    }
}

/// The read gate: open pastes are readable by anyone; a locked paste only
/// by a caller whose password digest equals the stored one.
pub open spec fn read_allowed(p: PasteModel, digest: Option<Seq<char>>) -> bool {
    match p.password {
        None => true,
        Some(stored) => digest matches Some(d) && d == stored,
    }
}

/// A read yields the paste when the slug is present and the password
/// gate admits the caller; otherwise it fails as not found.
pub open spec fn spec_get(
    m: Map<Seq<char>, PasteModel>,
    slug: Seq<char>,
    digest: Option<Seq<char>>,
) -> Result<PasteModel, AppError> {
    if m.contains_key(slug) && read_allowed(m[slug], digest) {
        Ok(m[slug])
    } else {
        Err(AppError::NotFound)
    }
}

/// A paste after a successful lock: only the password digest changes.
pub open spec fn lock_model(p: PasteModel, digest: Seq<char>) -> PasteModel {
    PasteModel { password: Some(digest), ..p }
}

/// What a lock does: where slug and secret both match, the paste's digest
/// is set (overwriting any earlier one); otherwise the store is untouched.
pub open spec fn spec_lock(
    m: Map<Seq<char>, PasteModel>,
    slug: Seq<char>,
    secret: Seq<char>,
    digest: Seq<char>,
) -> (Map<Seq<char>, PasteModel>, Result<(), AppError>) {
    if m.contains_key(slug) && m[slug].secret == secret {
        (m.insert(slug, lock_model(m[slug], digest)), Ok(()))
    } else {
        (m, Err(AppError::NotFound))
    }
}

/// What a delete does: where slug and secret both match, the paste is
/// removed; otherwise the store is untouched.
pub open spec fn spec_delete(
    m: Map<Seq<char>, PasteModel>,
    slug: Seq<char>,
    secret: Seq<char>,
) -> (Map<Seq<char>, PasteModel>, Result<(), AppError>) {
    if m.contains_key(slug) && m[slug].secret == secret {
        (m.remove(slug), Ok(()))
    } else {
        (m, Err(AppError::Unauthorized))
    }
}

/// A read result with the paste abstracted to its model.
pub open spec fn get_result_view(r: Result<Paste, AppError>) -> Result<PasteModel, AppError> {
    match r {
        Ok(p) => Ok(p@),
        Err(e) => Err(e),
    }
}

impl PasteStore {
    pub closed spec fn wf(&self) -> bool {
        slugs_unique(self.pastes@)
    }

    /// An empty store.
    pub fn new() -> (r: PasteStore)
        ensures
            r.wf(),
            r@ == Map::<Seq<char>, PasteModel>::empty(),
    {
        PasteStore { pastes: Vec::new() }
    }

    fn find_index(&self, slug: &str) -> (r: Option<usize>)
        ensures
            match r {
                Some(i) => i < self.pastes@.len() && self.pastes@[i as int].slug@ == slug@,
                None => forall|i: int|
                    0 <= i < self.pastes@.len() ==> self.pastes@[i].slug@ != slug@,
            },
    {
        let n = self.pastes.len();
        let mut i: usize = 0;
        while i < n
            invariant
                i <= n,
                n == self.pastes@.len(),
                forall|j: int| 0 <= j < i ==> self.pastes@[j].slug@ != slug@,
            decreases n - i,
        {
            if str_eq(self.pastes[i].slug.as_str(), slug) {
                return Some(i);
            }
            i = i + 1;
        }
        None
    }

    /// Inserts a new paste. Fails with a conflict, leaving the store
    /// untouched, exactly when the slug is already taken.
    pub fn create(&mut self, paste: Paste) -> (r: Result<(), AppError>)
        requires
            old(self).wf(),
        ensures
            final(self).wf(),
            r is Ok <==> !old(self)@.contains_key(paste.slug@),
            r is Ok ==> final(self)@ == old(self)@.insert(paste.slug@, paste@),
            r is Err ==> final(self)@ == old(self)@ && r == Err::<(), AppError>(
                AppError::Conflict,
            ),
    {
        proof {
            lemma_map_of_contains(self.pastes@, paste.slug@);
        }
        match self.find_index(paste.slug.as_str()) {
            Some(_) => Err(AppError::Conflict),
            None => {
                proof {
                    lemma_map_of_push(self.pastes@, paste);
                    let t = self.pastes@.push(paste);
                    assert forall|x: int, y: int| 0 <= x < y < t.len() implies t[x].slug@
                        != t[y].slug@ by {
                        if y < t.len() - 1 {
                            assert(self.pastes@[x].slug@ != self.pastes@[y].slug@);
                        }
                    }
                }
                self.pastes.push(paste);
                Ok(())
            },
        }
    }
}

impl Paste {
    /// Persists this paste into the store; the paste keeps its identity,
    /// the store gains it under its slug.
    pub fn save(&self, store: &mut PasteStore) -> (r: Result<(), AppError>)
        requires
            old(store).wf(),
        ensures
            final(store).wf(),
            r is Ok <==> !old(store)@.contains_key(self.slug@),
            r is Ok ==> final(store)@ == old(store)@.insert(self.slug@, self@),
            r is Err ==> final(store)@ == old(store)@ && r == Err::<(), AppError>(
                AppError::Conflict,
            ),
    {
        store.create(self.clone())
    }

    /// Reads the paste named by `slug`, subject to the password gate.
    pub fn get(slug: String, password: Option<String>, store: &PasteStore) -> (r: Result<
        Paste,
        AppError,
    >)
        requires
            store.wf(),
        ensures
            get_result_view(r) == spec_get(store@, slug@, spec_opt_digest(password)),
    {
        let digest: Option<String> = match &password {
            Some(p) => Some(hash_password(p.as_str())),
            None => None,
        };
        proof {
            lemma_map_of_contains(store.pastes@, slug@);
        }
        match store.find_index(slug.as_str()) {
            None => Err(AppError::NotFound),
            Some(i) => {
                proof {
                    lemma_map_of_index(store.pastes@, i as int);
                }
                let p = &store.pastes[i];
                let allowed: bool = match (&p.password, &digest) {
                    (None, _) => true,
                    (Some(stored), Some(d)) => str_eq(stored.as_str(), d.as_str()),
                    (Some(_), None) => false,
                };
                if allowed {
                    Ok(p.clone())
                } else {
                    Err(AppError::NotFound)
                }
            },
        }
    }

    /// Locks the paste named by `slug` behind `password`, provided the
    /// capability secret matches.
    pub fn lock(slug: &str, secret: String, password: String, store: &mut PasteStore) -> (r:
        Result<(), AppError>)
        requires
            old(store).wf(),
        ensures
            final(store).wf(),
            ({
                let (m2, res) = spec_lock(
                    old(store)@,
                    slug@,
                    secret@,
                    digest_of_text(password@),
                );
                final(store)@ == m2 && r == res
            }),
    {
        let digest = hash_password(password.as_str());
        proof {
            lemma_map_of_contains(store.pastes@, slug@);
        }
        match store.find_index(slug) {
            None => Err(AppError::NotFound),
            Some(i) => {
                proof {
                    lemma_map_of_index(store.pastes@, i as int);
                }
                if str_eq(store.pastes[i].secret.as_str(), secret.as_str()) {
                    let locked = Paste {
                        password: Some(digest),
                        ..store.pastes[i].clone()
                    };
                    proof {
                        lemma_map_of_update(store.pastes@, i as int, locked);
                    }
                    store.pastes[i] = locked;
                    Ok(())
                } else {
                    Err(AppError::NotFound)
                }
            },
        }
    }

    /// Deletes the paste named by `slug`, provided the capability secret
    /// matches.
    pub fn delete(slug: &str, secret: String, store: &mut PasteStore) -> (r: Result<
        (),
        AppError,
    >)
        requires
            old(store).wf(),
        ensures
            final(store).wf(),
            ({
                let (m2, res) = spec_delete(old(store)@, slug@, secret@);
                final(store)@ == m2 && r == res
            }),
    {
        proof {
            lemma_map_of_contains(store.pastes@, slug@);
        }
        match store.find_index(slug) {
            None => Err(AppError::Unauthorized),
            Some(i) => {
                proof {
                    lemma_map_of_index(store.pastes@, i as int);
                }
                if str_eq(store.pastes[i].secret.as_str(), secret.as_str()) {
                    proof {
                        lemma_map_of_remove(store.pastes@, i as int);
                    }
                    let _removed = store.pastes.remove(i);
                    Ok(())
                } else {
                    Err(AppError::Unauthorized)
                }
            },
        }
    }
}

} // verus!
