use flybin::error::AppError;
use flybin::paste::Paste;
use flybin::store::PasteStore;

fn fresh_paste(content: &str) -> Paste {
    Paste::new(content.to_owned(), "127.0.0.1".to_owned(), 1000)
}

#[test]
fn create_then_read_round_trip() {
    let mut store = PasteStore::new();
    let p = fresh_paste("hello world");
    let slug = p.slug.clone();
    assert_eq!(p.save(&mut store), Ok(()));
    let got = Paste::get(slug, None, &store).unwrap();
    assert_eq!(got.content, "hello world");
    assert_eq!(got.created_at, 1000);
    assert_eq!(got.expires_at, 362 * 86400 + 1000);
    assert!(got.password.is_none());
}

#[test]
fn read_before_lock_ignores_password() {
    let mut store = PasteStore::new();
    let p = fresh_paste("open content");
    let slug = p.slug.clone();
    p.save(&mut store).unwrap();
    let got = Paste::get(slug, Some("whatever".to_owned()), &store).unwrap();
    assert_eq!(got.content, "open content");
}

#[test]
fn lock_then_read_with_password() {
    let mut store = PasteStore::new();
    let p = fresh_paste("guarded");
    let slug = p.slug.clone();
    let secret = p.secret.clone();
    p.save(&mut store).unwrap();

    assert_eq!(
        Paste::lock(&slug, secret, "pw".to_owned(), &mut store),
        Ok(())
    );
    // Correct password: readable.
    let got = Paste::get(slug.clone(), Some("pw".to_owned()), &store).unwrap();
    assert_eq!(got.content, "guarded");
    // The stored gate is the blake3 digest of the password, not the password.
    let expected_digest = blake3::hash("pw".as_bytes()).to_hex().as_str().to_owned();
    assert_eq!(got.password, Some(expected_digest));
    // Missing or wrong password: masked as not found.
    assert!(Paste::get(slug.clone(), None, &store).is_err());
    match Paste::get(slug, Some("wrong".to_owned()), &store) {
        Err(AppError::NotFound) => {}
        _ => panic!("wrong password must read as not found"),
    }
}

#[test]
fn lock_wrong_secret_leaves_paste_open() {
    let mut store = PasteStore::new();
    let p = fresh_paste("still open");
    let slug = p.slug.clone();
    p.save(&mut store).unwrap();

    assert_eq!(
        Paste::lock(&slug, "not-the-secret".to_owned(), "pw".to_owned(), &mut store),
        Err(AppError::NotFound)
    );
    // Still readable without any password: the lock state did not change.
    let got = Paste::get(slug, None, &store).unwrap();
    assert_eq!(got.content, "still open");
    assert!(got.password.is_none());
}

#[test]
fn relock_overwrites_previous_password() {
    let mut store = PasteStore::new();
    let p = fresh_paste("rotating");
    let slug = p.slug.clone();
    let secret = p.secret.clone();
    p.save(&mut store).unwrap();

    Paste::lock(&slug, secret.clone(), "first".to_owned(), &mut store).unwrap();
    Paste::lock(&slug, secret, "second".to_owned(), &mut store).unwrap();
    assert!(Paste::get(slug.clone(), Some("first".to_owned()), &store).is_err());
    assert!(Paste::get(slug, Some("second".to_owned()), &store).is_ok());
}

#[test]
fn delete_with_secret_removes_paste() {
    let mut store = PasteStore::new();
    let p = fresh_paste("doomed");
    let slug = p.slug.clone();
    let secret = p.secret.clone();
    p.save(&mut store).unwrap();

    assert_eq!(Paste::delete(&slug, secret.clone(), &mut store), Ok(()));
    // Everything on that slug now fails.
    match Paste::get(slug.clone(), None, &store) {
        Err(AppError::NotFound) => {}
        _ => panic!("read after delete must be not found"),
    }
    assert_eq!(
        Paste::lock(&slug, secret.clone(), "pw".to_owned(), &mut store),
        Err(AppError::NotFound)
    );
    assert_eq!(
        Paste::delete(&slug, secret, &mut store),
        Err(AppError::Unauthorized)
    );
}

#[test]
fn delete_wrong_secret_keeps_paste_readable() {
    let mut store = PasteStore::new();
    let p = fresh_paste("survivor");
    let slug = p.slug.clone();
    p.save(&mut store).unwrap();

    assert_eq!(
        Paste::delete(&slug, "bad-secret".to_owned(), &mut store),
        Err(AppError::Unauthorized)
    );
    let got = Paste::get(slug, None, &store).unwrap();
    assert_eq!(got.content, "survivor");
}

#[test]
fn create_conflicting_slug_is_rejected() {
    let mut store = PasteStore::new();
    let p = fresh_paste("first");
    let slug = p.slug.clone();
    p.save(&mut store).unwrap();

    let mut q = fresh_paste("second");
    q.slug = slug.clone();
    assert_eq!(q.save(&mut store), Err(AppError::Conflict));
    // The original is untouched.
    let got = Paste::get(slug, None, &store).unwrap();
    assert_eq!(got.content, "first");
}

#[test]
fn generated_identifiers_have_expected_shape() {
    let p = fresh_paste("shape");
    assert_eq!(p.slug.chars().count(), 6);
    assert_eq!(p.secret.chars().count(), 16);
    let ok = |c: char| c == '_' || c == '-' || c.is_ascii_alphanumeric();
    assert!(p.slug.chars().all(ok));
    assert!(p.secret.chars().all(ok));
    // Two pastes draw distinct identifiers (collision odds are negligible).
    let q = fresh_paste("shape");
    assert_ne!(p.slug, q.slug);
    assert_ne!(p.secret, q.secret);
}

#[test]
fn response_text_is_exact() {
    let p = Paste::new("hello world".to_owned(), "10.0.0.1".to_owned(), 0);
    let resp = p.get_response_str("example.com");
    let expected = format!(
        "\nUrl: http://example.com:8080/{}\nSecret: {}\nExpires at: 1970-12-29 00:00:00\n",
        p.slug, p.secret
    );
    assert_eq!(resp, expected);
}
