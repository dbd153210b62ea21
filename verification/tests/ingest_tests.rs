use flybin::ingest::handle_submission;
use flybin::paste::Paste;
use flybin::store::PasteStore;

fn slug_of(resp: &str) -> String {
    resp.split("8080/")
        .nth(1)
        .unwrap()
        .split('\n')
        .next()
        .unwrap()
        .to_owned()
}

#[test]
fn submission_round_trips_bytes() {
    let mut store = PasteStore::new();
    let resp = handle_submission(
        &mut store,
        b"some pasted text",
        "192.0.2.7".to_owned(),
        1234,
        "paste.example",
    )
    .unwrap();
    assert!(resp.starts_with("\nUrl: http://paste.example:8080/"));
    let slug = slug_of(&resp);
    assert_eq!(slug.chars().count(), 6);
    let got = Paste::get(slug, None, &store).unwrap();
    assert_eq!(got.content, "some pasted text");
    assert_eq!(got.created_at, 1234);
    assert_eq!(got.ip_address, "192.0.2.7");
}

#[test]
fn invalid_bytes_decode_leniently() {
    let mut store = PasteStore::new();
    let resp = handle_submission(
        &mut store,
        &[0xff, b'h', b'i'],
        "192.0.2.7".to_owned(),
        0,
        "h",
    )
    .unwrap();
    let got = Paste::get(slug_of(&resp), None, &store).unwrap();
    assert_eq!(got.content, "\u{fffd}hi");
}

#[test]
fn empty_submission_is_accepted() {
    let mut store = PasteStore::new();
    let resp = handle_submission(&mut store, b"", "192.0.2.7".to_owned(), 0, "h").unwrap();
    // Empty content lives the full 365 days.
    assert!(resp.contains("Expires at: 1971-01-01 00:00:00"));
    let got = Paste::get(slug_of(&resp), None, &store).unwrap();
    assert_eq!(got.content, "");
    assert_eq!(got.expires_at, 365 * 86400);
}
