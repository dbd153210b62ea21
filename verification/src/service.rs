//! The query/mutation service: read, lock and delete requests, each gated
//! by admission control ahead of any store access.

use vstd::prelude::*;
use syntect::highlighting::Theme;
use syntect::parsing::SyntaxSet;
use crate::bucket::{
    bucket_inv, spec_try_acquire, TokenBucket, RATE_LIMIT_PERMITS, RATE_LIMIT_WINDOW_SECS,
};
use crate::digest::digest_of_text;
use crate::error::AppError;
use crate::expiry::TS_MAX;
use crate::paste::{Paste, PasteModel};
use crate::render::{
    load_default_syntaxes, load_default_theme, opt_text_view, render_read, spec_highlight,
    spec_render, try_highlight, ContentType,
};
use crate::store::{spec_delete, spec_get, spec_lock, spec_opt_digest, PasteStore};
use crate::strutil::push_str;

verus! {

/// Everything the two listeners share: the store, the admission bucket,
/// and the highlighter's syntax and theme assets.
pub struct AppState {
    pub store: PasteStore,
    pub bucket: TokenBucket,
    pub ps: SyntaxSet,
    pub theme: Theme,
}

impl AppState {
    pub open spec fn wf(&self) -> bool {
        &&& self.store.wf()
        &&& bucket_inv(self.bucket@)
    }

    /// A fresh state: empty store, full admission bucket, the bundled
    /// syntax definitions and theme.
    pub fn new(now: i64) -> (r: AppState)
        requires
            0 <= now <= TS_MAX,
        ensures
            r.wf(),
            r.store@ == Map::<Seq<char>, PasteModel>::empty(),
            r.bucket@.permits == RATE_LIMIT_PERMITS,
            r.bucket@.capacity == RATE_LIMIT_PERMITS,
            r.bucket@.window_secs == RATE_LIMIT_WINDOW_SECS,
            r.bucket@.window_start == now,
    {
        AppState {
            store: PasteStore::new(),
            bucket: TokenBucket::new(RATE_LIMIT_PERMITS, RATE_LIMIT_WINDOW_SECS, now),
            ps: load_default_syntaxes(),
            theme: load_default_theme(),
        }
    }
}

/// The confirmation a successful lock returns.
pub open spec fn spec_lock_confirmation(slug: Seq<char>) -> Seq<char> {
    "paste("@ + slug + ") successfully locked"@
}

/// The confirmation a successful delete returns: the now-dead URL.
pub open spec fn spec_delete_confirmation(host: Seq<char>, slug: Seq<char>) -> Seq<char> {
    "Post successfully deleted http://"@ + host + ":8080/"@ + slug + "\n"@
}

/// Serves a read: admission control, then the password-gated lookup; the
/// body is the stored content, byte for byte.
pub fn get_paste(state: &mut AppState, slug: String, password: Option<String>, now: i64) -> (r:
    Result<String, AppError>)
    requires
        old(state).wf(),
        0 <= now <= TS_MAX,
    ensures
        final(state).wf(),
        final(state).store@ == old(state).store@,
        final(state).bucket@ == spec_try_acquire(old(state).bucket@, now as int).0,
        !spec_try_acquire(old(state).bucket@, now as int).1 ==> r == Err::<String, AppError>(
            AppError::Unavailable,
        ),
        spec_try_acquire(old(state).bucket@, now as int).1 ==> match spec_get(
            old(state).store@,
            slug@,
            spec_opt_digest(password),
        ) {
            Ok(pm) => r matches Ok(body) && body@ == pm.content,
            Err(e) => r == Err::<String, AppError>(e),
        },
{
    let admitted = state.bucket.try_acquire(now);
    if !admitted {
        return Err(AppError::Unavailable);
    }
    match Paste::get(slug, password, &state.store) {
        Ok(p) => Ok(p.content),
        Err(e) => Err(e),
    }
}

/// Serves a read with a language hint: as `get_paste`, then the rendering
/// decision on the highlighter's outcome. An unrecognized language yields
/// the verbatim content as plain text, never an error.
pub fn get_highlighted_paste(
    state: &mut AppState,
    slug: String,
    lang: &str,
    password: Option<String>,
    terminal: bool,
    now: i64,
) -> (r: Result<(String, ContentType), AppError>)
    requires
        old(state).wf(),
        0 <= now <= TS_MAX,
    ensures
        final(state).wf(),
        final(state).store@ == old(state).store@,
        final(state).bucket@ == spec_try_acquire(old(state).bucket@, now as int).0,
        !spec_try_acquire(old(state).bucket@, now as int).1 ==> r == Err::<
            (String, ContentType),
            AppError,
        >(AppError::Unavailable),
        spec_try_acquire(old(state).bucket@, now as int).1 ==> match spec_get(
            old(state).store@,
            slug@,
            spec_opt_digest(password),
        ) {
            Ok(pm) => r matches Ok(resp) && (resp.0@, resp.1) == spec_render(
                pm.content,
                spec_highlight(old(state).ps, old(state).theme, lang@, pm.content, terminal),
                terminal,
            ),
            Err(e) => r == Err::<(String, ContentType), AppError>(e),
        },
{
    let admitted = state.bucket.try_acquire(now);
    if !admitted {
        return Err(AppError::Unavailable);
    }
    match Paste::get(slug, password, &state.store) {
        Ok(p) => {
            let highlighted = try_highlight(
                &state.ps,
                &state.theme,
                lang,
                p.content.as_str(),
                terminal,
            );
            let ghost hview = opt_text_view(highlighted);
            let resp = render_read(p.content, highlighted, terminal);
            proof {
                assert((resp.0@, resp.1) == spec_render(p@.content, hview, terminal));
            }
            Ok(resp)
        },
        Err(e) => Err(e),
    }
}

/// Serves a lock: admission control, then both parameters are required,
/// then the secret-gated mutation. On success the confirmation names the
/// slug.
pub fn lock_paste(
    state: &mut AppState,
    slug: &str,
    secret: Option<String>,
    password: Option<String>,
    now: i64,
) -> (r: Result<String, AppError>)
    requires
        old(state).wf(),
        0 <= now <= TS_MAX,
    ensures
        final(state).wf(),
        final(state).bucket@ == spec_try_acquire(old(state).bucket@, now as int).0,
        !spec_try_acquire(old(state).bucket@, now as int).1 ==> r == Err::<String, AppError>(
            AppError::Unavailable,
        ) && final(state).store@ == old(state).store@,
        spec_try_acquire(old(state).bucket@, now as int).1 ==> match (password, secret) {
            (Some(pw), Some(sec)) => {
                let (m2, res) = spec_lock(
                    old(state).store@,
                    slug@,
                    sec@,
                    digest_of_text(pw@),
                );
                &&& final(state).store@ == m2
                &&& match res {
                    Ok(u) => r matches Ok(c) && c@ == spec_lock_confirmation(slug@),
                    Err(e) => r == Err::<String, AppError>(e),
                }
            },
            _ => r == Err::<String, AppError>(AppError::BadRequest) && final(state).store@
                == old(state).store@,
        },
{
    let admitted = state.bucket.try_acquire(now);
    if !admitted {
        return Err(AppError::Unavailable);
    }
    let pw = match password {
        Some(pw) => pw,
        None => {
            return Err(AppError::BadRequest);
        },
    };
    let sec = match secret {
        Some(sec) => sec,
        None => {
            return Err(AppError::BadRequest);
        },
    };
    match Paste::lock(slug, sec, pw, &mut state.store) {
        Ok(_) => {
            let mut out = String::new();
            push_str(&mut out, "paste(");
            push_str(&mut out, slug);
            push_str(&mut out, ") successfully locked");
            proof {
                assert(out@ =~= spec_lock_confirmation(slug@));
            }
            Ok(out)
        },
        Err(e) => Err(e),
    }
}

/// Serves a delete: admission control, then the secret is required, then
/// the secret-gated removal. On success the confirmation carries the
/// now-dead URL.
pub fn delete_paste(
    state: &mut AppState,
    slug: &str,
    secret: Option<String>,
    host: &str,
    now: i64,
) -> (r: Result<String, AppError>)
    requires
        old(state).wf(),
        0 <= now <= TS_MAX,
    ensures
        final(state).wf(),
        final(state).bucket@ == spec_try_acquire(old(state).bucket@, now as int).0,
        !spec_try_acquire(old(state).bucket@, now as int).1 ==> r == Err::<String, AppError>(
            AppError::Unavailable,
        ) && final(state).store@ == old(state).store@,
        spec_try_acquire(old(state).bucket@, now as int).1 ==> match secret {
            Some(sec) => {
                let (m2, res) = spec_delete(old(state).store@, slug@, sec@);
                &&& final(state).store@ == m2
                &&& match res {
                    Ok(u) => r matches Ok(c) && c@ == spec_delete_confirmation(host@, slug@),
                    Err(e) => r == Err::<String, AppError>(e),
                }
            },
            None => r == Err::<String, AppError>(AppError::BadRequest) && final(state).store@
                == old(state).store@,
        },
{
    let admitted = state.bucket.try_acquire(now);
    if !admitted {
        return Err(AppError::Unavailable);
    }
    let sec = match secret {
        Some(sec) => sec,
        None => {
            return Err(AppError::BadRequest);
        },
    };
    match Paste::delete(slug, sec, &mut state.store) {
        Ok(_) => {
            let mut out = String::new();
            push_str(&mut out, "Post successfully deleted http://");
            push_str(&mut out, host);
            push_str(&mut out, ":8080/");
            push_str(&mut out, slug);
            push_str(&mut out, "\n");
            proof {
                assert(out@ =~= spec_delete_confirmation(host@, slug@));
            }
            Ok(out)
        },
        Err(e) => Err(e),
    }
}

} // verus!
