use ansync::clipboard::{
    clipboard_fingerprint, content_arrived, encode_blob, pasted, pick_best_mime, sent_to, to_copy,
    types_offered, watched, ClipboardContent, ClipboardError, ClipboardSync, PasteFailure, ReadStep,
    WatchEvent, WatcherError,
};

fn set(items: &[&str]) -> Vec<String> {
    items.iter().map(|s| s.to_string()).collect()
}

fn text(s: &str) -> ClipboardContent {
    ClipboardContent::Text(s.to_string())
}

#[test]
fn images_outrank_html() {
    let mimes = set(&["text/html", "image/png", "text/plain"]);
    assert_eq!(pick_best_mime(&mimes), Some("image/png".to_string()));
}

#[test]
fn jpeg_when_no_png() {
    let mimes = set(&["text/html", "image/jpeg", "text/plain"]);
    assert_eq!(pick_best_mime(&mimes), Some("image/jpeg".to_string()));
}

#[test]
fn plain_text_beats_html() {
    let mimes = set(&["text/html", "text/plain"]);
    assert_eq!(pick_best_mime(&mimes), Some("text/plain".to_string()));
}

#[test]
fn empty_offer_returns_none() {
    assert_eq!(pick_best_mime(&set(&[])), None);
}

#[test]
fn other_images_and_texts_come_before_the_rest() {
    assert_eq!(
        pick_best_mime(&set(&["text/plain", "image/svg+xml"])),
        Some("image/svg+xml".to_string())
    );
    assert_eq!(
        pick_best_mime(&set(&["application/pdf", "text/uri-list"])),
        Some("text/uri-list".to_string())
    );
    assert_eq!(
        pick_best_mime(&set(&["application/pdf", "application/zip"])),
        Some("application/pdf".to_string())
    );
    assert_eq!(
        pick_best_mime(&set(&["STRING", "UTF8_STRING"])),
        Some("UTF8_STRING".to_string())
    );
}

#[test]
fn text_is_read_leniently_and_html_kept() {
    let c = pasted("text/plain".to_string(), vec![104, 105, 0xff]);
    assert!(matches!(c, ClipboardContent::Text(s) if s == "hi\u{fffd}"));
    let c = pasted("text/html".to_string(), vec![60]);
    assert!(matches!(c, ClipboardContent::Blob { mime, data } if mime == "text/html" && data == vec![60]));
    let c = pasted("UTF8_STRING".to_string(), vec![60]);
    assert!(matches!(c, ClipboardContent::Blob { .. }));
}

#[test]
fn reading_goes_from_types_to_content() {
    assert!(matches!(types_offered(Ok(set(&["text/plain"]))), ReadStep::Ask(m) if m == "text/plain"));
    for step in [
        types_offered(Ok(set(&[]))),
        types_offered(Err(PasteFailure::Empty)),
        types_offered(Err(PasteFailure::NoMimeType)),
    ] {
        assert!(matches!(step, ReadStep::Done(Ok(ClipboardContent::Text(s))) if s.is_empty()));
    }
    assert!(matches!(
        types_offered(Err(PasteFailure::Other)),
        ReadStep::Done(Err(ClipboardError::BackendUnavailable))
    ));
    let c = content_arrived(Ok(("text/plain".to_string(), b"hi".to_vec())));
    assert!(matches!(c, Ok(ClipboardContent::Text(s)) if s == "hi"));
    let c = content_arrived(Err(PasteFailure::Empty));
    assert!(matches!(c, Ok(ClipboardContent::Text(s)) if s.is_empty()));
    assert!(matches!(
        content_arrived(Err(PasteFailure::Other)),
        Err(ClipboardError::BackendUnavailable)
    ));
}

#[test]
fn what_is_put_on_the_clipboard() {
    assert_eq!(to_copy(text("hé")), (vec![104, 0xc3, 0xa9], None));
    let blob = ClipboardContent::Blob { mime: "image/png".to_string(), data: vec![1, 2] };
    assert_eq!(to_copy(blob), (vec![1, 2], Some("image/png".to_string())));
}

#[test]
fn watcher_gives_offers_up_with_each_change() {
    let mut held: Vec<u32> = Vec::new();
    assert_eq!(watched(&mut held, WatchEvent::Offer(1)), (false, vec![]));
    assert_eq!(watched(&mut held, WatchEvent::Offer(2)), (false, vec![]));
    assert_eq!(watched(&mut held, WatchEvent::Other), (false, vec![]));
    assert_eq!(watched(&mut held, WatchEvent::Selection), (true, vec![1, 2]));
    assert_eq!(watched(&mut held, WatchEvent::PrimarySelection), (true, vec![]));
    assert_eq!(watched(&mut held, WatchEvent::Finished), (false, vec![]));
    assert!(held.is_empty());
}

#[test]
fn fingerprints_are_these_digests() {
    assert_eq!(
        clipboard_fingerprint(&text("hi")),
        "f948cf12ca92557dcafd8b90062cb767bc1b68f785a9cbef7b814c4a79b4e22e"
    );
    let blob = ClipboardContent::Blob { mime: "image/png".to_string(), data: vec![1, 2] };
    assert_eq!(
        clipboard_fingerprint(&blob),
        "af6c99abff3713f1487ef844af0a8a0b4879a834d4ea56ad2557111525de867e"
    );
}

#[test]
fn what_was_written_is_not_pushed_back() {
    let mut sync = ClipboardSync::default();
    assert!(sync.inbound(true, &text("hi")));
    assert!(!sync.changed(&text("hi")));
    assert!(sync.changed(&text("other")));
    assert!(!sync.inbound(false, &text("hi")));
}

#[test]
fn what_was_pushed_is_not_written_back() {
    let mut sync = ClipboardSync::default();
    sync.pushed(&text("hi"));
    assert!(!sync.inbound(true, &text("hi")));
    assert!(sync.matches(&clipboard_fingerprint(&text("hi"))));
    sync.set("x".to_string());
    assert!(sync.matches("x"));
}

#[test]
fn only_the_latest_fingerprint_matches() {
    let mut sync = ClipboardSync::default();
    assert!(!sync.matches("") && !sync.matches("a"));
    for fp in ["a", "b", "a", "c"] {
        let holder = &mut sync;
        holder.set(fp.to_string());
        assert!(sync.matches(fp));
    }
    assert!(!sync.matches("a") && !sync.matches("b") && sync.matches("c"));
    assert!(sync.matches("c"));
}

#[test]
fn changes_go_only_where_they_may() {
    assert!(sent_to(Ok(true)));
    assert!(!sent_to(Ok(false)));
    assert!(!sent_to(Err("no store".to_string())));
}

#[test]
fn blobs_for_android_begin_with_their_type() {
    assert_eq!(
        encode_blob(&"a/b".to_string(), &vec![7, 8]),
        vec![3, 0, 0, 0, 97, 47, 98, 7, 8]
    );
}

#[test]
fn clipboard_errors_in_words() {
    assert_eq!(ClipboardError::BackendUnavailable.message(), "backend unavailable");
    assert_eq!(ClipboardError::Io("x".to_string()).message(), "io: x");
    assert_eq!(WatcherError::NoSeat.message(), "compositor has no wl_seat global");
    assert_eq!(WatcherError::Thread("x".to_string()).message(), "worker thread panicked: x");
    assert_eq!(
        WatcherError::Connect("x".to_string()).message(),
        "WAYLAND_DISPLAY not set or compositor unreachable: x"
    );
    assert!(WatcherError::ProtocolUnsupported.message().contains("zwlr_data_control_manager_v1"));
}
