//! The paste record: the one entity of the system.

use vstd::prelude::*;
use vstd::string::StringSliceAdditionalSpecFns;
use crate::expiry::{compute_expiry_date, spec_expiry, MAX_CONTENT_SIZE, TS_MAX};
use crate::idgen::{new_slug, new_secret, is_url_safe, SLUG_LEN, SECRET_LEN};
use crate::strutil::push_str;
use crate::timestamp::{format_timestamp, timestamp_text_of};

verus! {

/// A paste as the store keeps it. The slug names it publicly; the secret
/// is the sole capability for locking and deleting it; `password` is unset
/// until a lock succeeds and then holds the digest reads are gated by.
pub struct Paste {
    pub slug: String,
    pub content: String,
    pub created_at: i64,
    pub expires_at: i64,
    pub secret: String,
    pub ip_address: String,
    pub password: Option<String>,
}

/// The mathematical image of a paste: its strings as character sequences,
/// its instants as integers.
pub ghost struct PasteModel {
    pub slug: Seq<char>,
    pub content: Seq<char>,
    pub created_at: int,
    pub expires_at: int,
    pub secret: Seq<char>,
    pub ip_address: Seq<char>,
    pub password: Option<Seq<char>>,
}

impl View for Paste {
    type V = PasteModel;

    open spec fn view(&self) -> PasteModel {
        PasteModel {
            slug: self.slug@,
            content: self.content@,
            created_at: self.created_at as int,
            expires_at: self.expires_at as int,
            secret: self.secret@,
            ip_address: self.ip_address@,
            password: match self.password {
                Some(p) => Some(p@),
                None => None,
            },
        }
    }
}

impl Clone for Paste {
    fn clone(&self) -> (r: Self)
        ensures
            r@ == self@,
    {
        Paste {
            slug: self.slug.clone(),
            content: self.content.clone(),
            created_at: self.created_at,
            expires_at: self.expires_at,
            secret: self.secret.clone(),
            ip_address: self.ip_address.clone(),
            password: match &self.password {
                Some(p) => Some(p.clone()),
                None => None,
            },
        }
    }
}

/// The confirmation text returned to a submitter: the retrieval URL, the
/// capability secret, and the expiry instant.
pub open spec fn spec_response_text(
    host: Seq<char>,
    slug: Seq<char>,
    secret: Seq<char>,
    expires_at: int,
) -> Seq<char> {
    "\nUrl: http://"@ + host + ":8080/"@ + slug + "\nSecret: "@ + secret + "\nExpires at: "@
        + timestamp_text_of(expires_at) + "\n"@
}

impl Paste {
    /// A fresh paste: random slug and secret, expiry computed from the
    /// content size, no password gate yet.
    pub fn new(content: String, ip_address: String, now: i64) -> (r: Paste)
        requires
            vstd::utf8::encode_utf8(content@).len() <= MAX_CONTENT_SIZE,
            0 <= now <= TS_MAX,
        ensures
            r@.content == content@,
            r@.ip_address == ip_address@,
            r@.created_at == now,
            r@.expires_at == spec_expiry(vstd::utf8::encode_utf8(content@).len() as int, now as int),
            r@.password is None,
            r@.slug.len() == SLUG_LEN && is_url_safe(r@.slug),
            r@.secret.len() == SECRET_LEN && is_url_safe(r@.secret),
    {
        let slug = new_slug();
        let secret = new_secret();
        let expires_at = compute_expiry_date(content.as_str(), now);
        Paste {
            slug,
            content,
            created_at: now,
            expires_at,
            secret,
            ip_address,
            password: None,
        }
    }

    /// The confirmation text for this paste, served to its submitter once.
    pub fn get_response_str(&self, host: &str) -> (r: String)
        ensures
            r@ == spec_response_text(host@, self.slug@, self.secret@, self.expires_at as int),
    {
        let mut out = String::new();
        push_str(&mut out, "\nUrl: http://");
        push_str(&mut out, host);
        push_str(&mut out, ":8080/");
        push_str(&mut out, self.slug.as_str());
        push_str(&mut out, "\nSecret: ");
        push_str(&mut out, self.secret.as_str());
        push_str(&mut out, "\nExpires at: ");
        let ts = format_timestamp(self.expires_at);
        push_str(&mut out, ts.as_str());
        push_str(&mut out, "\n");
        proof {
            assert(out@ =~= spec_response_text(
                host@,
                self.slug@,
                self.secret@,
                self.expires_at as int,
            ));
        }
        out
    }
}

} // verus!
