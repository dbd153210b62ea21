use flybin::error::AppError;
use flybin::ingest::handle_submission;
use flybin::render::ContentType;
use flybin::service::{delete_paste, get_highlighted_paste, get_paste, lock_paste, AppState};

fn state_with_paste(content: &str, now: i64) -> (AppState, String, String) {
    let mut state = AppState::new(now);
    let p = flybin::paste::Paste::new(content.to_owned(), "127.0.0.1".to_owned(), now);
    let slug = p.slug.clone();
    let secret = p.secret.clone();
    p.save(&mut state.store).unwrap();
    (state, slug, secret)
}

#[test]
fn admission_budget_is_five_per_window() {
    let (mut state, slug, _secret) = state_with_paste("rationed", 0);
    // The first five requests in the window are admitted...
    for _ in 0..5 {
        assert!(get_paste(&mut state, slug.clone(), None, 0).is_ok());
    }
    // ...the sixth is rejected,
    assert_eq!(
        get_paste(&mut state, slug.clone(), None, 0),
        Err(AppError::Unavailable)
    );
    // whatever operation it is,
    assert_eq!(
        delete_paste(&mut state, &slug, Some("x".to_owned()), "h", 0),
        Err(AppError::Unavailable)
    );
    // and once the window has elapsed the budget is fresh.
    assert!(get_paste(&mut state, slug, None, 30).is_ok());
}

#[test]
fn lock_requires_both_parameters() {
    let (mut state, slug, secret) = state_with_paste("gated", 0);
    assert_eq!(
        lock_paste(&mut state, &slug, Some(secret.clone()), None, 0),
        Err(AppError::BadRequest)
    );
    assert_eq!(
        lock_paste(&mut state, &slug, None, Some("pw".to_owned()), 0),
        Err(AppError::BadRequest)
    );
    // A bad request consumed no lock: the paste is still open.
    assert!(get_paste(&mut state, slug.clone(), None, 0).is_ok());
    let confirmation =
        lock_paste(&mut state, &slug, Some(secret), Some("pw".to_owned()), 0).unwrap();
    assert_eq!(confirmation, format!("paste({}) successfully locked", slug));
}

#[test]
fn delete_requires_secret() {
    let (mut state, slug, secret) = state_with_paste("kept", 0);
    assert_eq!(
        delete_paste(&mut state, &slug, None, "example.com", 0),
        Err(AppError::BadRequest)
    );
    let confirmation =
        delete_paste(&mut state, &slug, Some(secret), "example.com", 0).unwrap();
    assert_eq!(
        confirmation,
        format!("Post successfully deleted http://example.com:8080/{}\n", slug)
    );
    assert_eq!(
        get_paste(&mut state, slug, None, 0),
        Err(AppError::NotFound)
    );
}

#[test]
fn full_lifecycle_over_the_service() {
    let mut state = AppState::new(0);
    let resp = handle_submission(
        &mut state.store,
        b"hello world",
        "10.0.0.1".to_owned(),
        0,
        "example.com",
    )
    .unwrap();
    // The confirmation carries the URL, the secret and the expiry.
    let slug = resp
        .split("8080/")
        .nth(1)
        .unwrap()
        .split('\n')
        .next()
        .unwrap()
        .to_owned();
    let secret = resp
        .split("Secret: ")
        .nth(1)
        .unwrap()
        .split('\n')
        .next()
        .unwrap()
        .to_owned();
    assert!(resp.contains("Expires at: 1970-12-29 00:00:00"));

    assert_eq!(
        get_paste(&mut state, slug.clone(), None, 0).unwrap(),
        "hello world"
    );
    lock_paste(&mut state, &slug, Some(secret.clone()), Some("pw".to_owned()), 0).unwrap();
    assert_eq!(
        get_paste(&mut state, slug.clone(), None, 0),
        Err(AppError::NotFound)
    );
    assert_eq!(
        get_paste(&mut state, slug.clone(), Some("pw".to_owned()), 0).unwrap(),
        "hello world"
    );
    delete_paste(&mut state, &slug, Some(secret), "example.com", 0).unwrap();
    // The admission budget for this window is spent; a later window
    // shows the paste is gone.
    assert_eq!(
        get_paste(&mut state, slug.clone(), Some("pw".to_owned()), 1),
        Err(AppError::Unavailable)
    );
    assert_eq!(
        get_paste(&mut state, slug, Some("pw".to_owned()), 31),
        Err(AppError::NotFound)
    );
}

#[test]
fn unrecognized_language_falls_back_to_verbatim() {
    let (mut state, slug, _secret) = state_with_paste("fn main() {}\n", 0);
    let (body, ct) =
        get_highlighted_paste(&mut state, slug, "zzznotalang", None, true, 0).unwrap();
    assert_eq!(body, "fn main() {}\n");
    assert_eq!(ct, ContentType::TextPlain);
}

#[test]
fn recognized_language_is_highlighted() {
    let (mut state, slug, _secret) = state_with_paste("fn main() {}\n", 0);
    let (body, ct) =
        get_highlighted_paste(&mut state, slug.clone(), "rs", None, true, 0).unwrap();
    assert_eq!(ct, ContentType::TextPlain);
    assert!(body.contains('\u{1b}'), "terminal form carries escape codes");
    assert_ne!(body, "fn main() {}\n");

    let (html, ct) = get_highlighted_paste(&mut state, slug, "rs", None, false, 0).unwrap();
    assert_eq!(ct, ContentType::TextHtml);
    assert!(html.contains("<pre"), "html form is a fragment");
}

#[test]
fn error_codes_match_the_taxonomy() {
    assert_eq!(AppError::BadRequest.status_code(), 400);
    assert_eq!(AppError::Unauthorized.status_code(), 401);
    assert_eq!(AppError::NotFound.status_code(), 404);
    assert_eq!(AppError::Conflict.status_code(), 409);
    assert_eq!(AppError::Internal.status_code(), 500);
    assert_eq!(AppError::Unavailable.status_code(), 503);
    assert_eq!(AppError::internal().status_code(), 500);
    assert_eq!(AppError::NotFound.message(), "Paste not found \n");
}
