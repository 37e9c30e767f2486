use fast_down_c::url_info::UrlInfo;

fn info(raw: &[u8]) -> UrlInfo {
    UrlInfo::new(
        100,
        raw,
        true,
        false,
        b"https://example.com/a.zip",
        Some(b"\"abc\""),
        None,
        Some(b"application/zip"),
    )
}

#[test]
fn new_copies_fields() {
    let i = info(b"a.zip");
    assert_eq!(i.size(), 100);
    assert_eq!(i.raw_name().content(), b"a.zip");
    assert!(i.supports_range());
    assert!(!i.fast_download());
    assert_eq!(i.final_url().content(), b"https://example.com/a.zip");
    assert_eq!(i.etag().map(|e| e.content().to_vec()), Some(b"\"abc\"".to_vec()));
    assert!(i.last_modified().is_none());
    assert_eq!(
        i.content_type().map(|e| e.content().to_vec()),
        Some(b"application/zip".to_vec())
    );
}

#[test]
fn new_turns_nul_texts_into_empty() {
    let i = info(b"a\0b");
    assert_eq!(i.raw_name().content(), b"");
}

#[test]
fn filename_replaces_forbidden_characters() {
    let mut i = info(b"my file*.txt");
    assert_eq!(i.filename().content(), b"my file_.txt");
    let mut j = info(b"test/\\:*?\"<>|.png");
    assert_eq!(j.filename().content(), b"test_________.png");
}

#[test]
fn filename_is_cached_until_raw_name_changes() {
    let mut i = info(b"a?b");
    assert_eq!(i.filename().content(), b"a_b");
    assert_eq!(i.filename().content(), b"a_b");
    i.update_raw_name(fast_down_c::ctext::CText::from_bytes_or_empty(b"c:d"));
    assert_eq!(i.raw_name().content(), b"c:d");
    assert_eq!(i.filename().content(), b"c_d");
}

#[test]
fn filename_decodes_raw_name_lossily() {
    let mut i = info(b"a\xffb.txt");
    assert_eq!(i.filename().content(), "a\u{fffd}b.txt".as_bytes());
}

#[test]
fn filename_is_at_most_255_bytes() {
    let long = format!("{}.mp4", "x".repeat(300));
    let mut i = info(long.as_bytes());
    let name = i.filename().content().to_vec();
    assert!(name.len() <= 255);
    assert!(name.ends_with(b".mp4"));
}

#[test]
fn filename_never_holds_a_separator_or_nul() {
    let mut i = info(b"../../etc/passwd\x01");
    let name = i.filename().content().to_vec();
    assert!(!name.contains(&b'/'));
    assert!(!name.contains(&0u8));
    assert!(!name.contains(&1u8));
}

#[test]
fn setters_change_one_field() {
    let mut i = info(b"a.zip");
    i.set_size(7);
    i.set_supports_range(false);
    i.set_fast_download(true);
    i.set_final_url(fast_down_c::ctext::CText::from_bytes_or_empty(b"https://x.y/"));
    assert_eq!(i.size(), 7);
    assert!(!i.supports_range());
    assert!(i.fast_download());
    assert_eq!(i.final_url().content(), b"https://x.y/");
    i.set_last_modified(Some(b"Mon, 01 Jan 2024 00:00:00 GMT"));
    assert_eq!(
        i.last_modified().map(|e| e.content().to_vec()),
        Some(b"Mon, 01 Jan 2024 00:00:00 GMT".to_vec())
    );
    i.set_last_modified(None);
    assert!(i.last_modified().is_none());
    i.set_content_type(None);
    assert!(i.content_type().is_none());
    i.set_content_type(Some(b"text/plain"));
    assert_eq!(i.content_type().map(|e| e.content().to_vec()), Some(b"text/plain".to_vec()));
}

#[test]
fn etag_refuses_invalid_utf8() {
    let mut i = info(b"a.zip");
    i.set_etag(Some(b"\xff\xfe"));
    assert_eq!(i.etag().map(|e| e.content().to_vec()), Some(b"\"abc\"".to_vec()));
    i.set_etag(Some(b"W/\"x\""));
    assert_eq!(i.etag().map(|e| e.content().to_vec()), Some(b"W/\"x\"".to_vec()));
    i.set_etag(None);
    assert!(i.etag().is_none());
}

#[test]
fn to_ffi_needs_a_parsable_url() {
    let i = info(b"a.zip");
    let f = i.to_ffi().expect("the URL parses");
    assert_eq!(f.size, 100);
    assert_eq!(f.raw_name, "a.zip");
    assert_eq!(f.final_url.as_str(), "https://example.com/a.zip");
    assert_eq!(f.file_id.etag.as_deref(), Some("\"abc\""));
    assert_eq!(f.content_type.as_deref(), Some("application/zip"));
    assert_eq!(f.file_id.last_modified, None);
    assert!(f.supports_range);
    assert!(!f.fast_download);
    let mut j = info(b"a.zip");
    j.set_final_url(fast_down_c::ctext::CText::from_bytes_or_empty(b"not a url"));
    assert!(j.to_ffi().is_none());
}

#[test]
fn default_info_is_empty() {
    let i = UrlInfo::default();
    assert_eq!(i.size(), 0);
    assert_eq!(i.raw_name().content(), b"");
    assert_eq!(i.final_url().content(), b"");
    assert!(i.etag().is_none());
}

#[test]
fn to_ffi_round_trips_downloader_info() {
    let original = fast_down_ffi::UrlInfo {
        size: 42,
        raw_name: "файл.bin".to_string(),
        supports_range: false,
        fast_download: true,
        final_url: url::Url::parse("https://example.com/f%C3%A9.bin").unwrap(),
        file_id: fast_down_ffi::FileId::new(Some("W/\"1\""), Some("Tue, 02 Jan 2024 00:00:00 GMT")),
        content_type: None,
    };
    let i = UrlInfo::new(
        original.size,
        original.raw_name.as_bytes(),
        original.supports_range,
        original.fast_download,
        original.final_url.as_str().as_bytes(),
        original.file_id.etag.as_deref().map(str::as_bytes),
        original.file_id.last_modified.as_deref().map(str::as_bytes),
        original.content_type.as_deref().map(str::as_bytes),
    );
    assert_eq!(i.to_ffi(), Some(original));
}

#[test]
fn to_ffi_decodes_invalid_utf8_lossily() {
    let i = UrlInfo::new(1, b"a\xffb", false, false, b"https://example.com/", None, None, None);
    let f = i.to_ffi().expect("the URL parses");
    assert_eq!(f.raw_name, "a\u{fffd}b");
}
