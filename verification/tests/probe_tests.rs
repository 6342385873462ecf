use vdm::probe::{
    cd_filename, extension_from_mime, parse_magnet, percent_decode, percent_decode_checked,
    sanitize_name, url_basename,
};

#[test]
fn cd_parsing_and_sanitize() {
    assert_eq!(
        cd_filename("attachment; filename=\"setup v2.exe\"; size=10"),
        Some("setup v2.exe".into())
    );
    assert_eq!(
        cd_filename("attachment; filename*=UTF-8''na%C3%AFve%20file.zip"),
        Some("na\u{ef}ve file.zip".into())
    );
    let s = sanitize_name("CON");
    assert_eq!(s, "download");
    let s = sanitize_name("bad:name?.zip");
    assert!(!s.contains(':') && !s.contains('?'));
    assert_eq!(sanitize_name("  trailing...  "), "trailing");
}

#[test]
fn url_basename_decodes() {
    assert_eq!(url_basename("https://x.io/a/b/My%20File.zip?token=1"), Some("My File.zip".into()));
    assert_eq!(url_basename("https://x.io/"), Some(String::new()));
    assert_eq!(
        url_basename("https://codeload.github.com/FlowiseAI/Flowise/zip/refs/heads/main"),
        Some("Flowise-main.zip".into())
    );
    assert_eq!(
        url_basename("https://github.com/FlowiseAI/Flowise/archive/refs/heads/main.zip"),
        Some("Flowise-main.zip".into())
    );
    assert_eq!(
        url_basename("https://github.com/FlowiseAI/Flowise/archive/main.zip"),
        Some("Flowise-main.zip".into())
    );
}

#[test]
fn percent_decoding_plus_and_escapes() {
    assert_eq!(percent_decode("a%20b+c"), "a b c");
    assert_eq!(percent_decode("100%"), "100%");
    assert_eq!(percent_decode_checked("%C3%A9"), Some("\u{e9}".to_string()));
}

#[test]
fn magnet_fields() {
    let m = parse_magnet("magnet:?xt=urn:btih:ABC123&dn=My+Movie.mkv&xl=42&tr=udp%3A%2F%2Ft.example%3A1").unwrap();
    assert_eq!(m.info_hash, "ABC123");
    assert_eq!(m.display_name.as_deref(), Some("My Movie.mkv"));
    assert_eq!(m.total_size, Some(42));
    assert_eq!(m.trackers, vec!["udp://t.example:1".to_string()]);
    assert!(parse_magnet("https://example.com").is_none());
}

#[test]
fn mime_extensions() {
    assert_eq!(extension_from_mime("application/pdf; charset=binary"), Some(".pdf"));
    assert_eq!(extension_from_mime("Video/MP4"), Some(".mp4"));
    assert_eq!(extension_from_mime("application/gzip"), Some(".tar.gz"));
    assert_eq!(extension_from_mime("text/x-unknown"), None);
}

#[test]
fn sanitize_keeps_names_short_and_clean() {
    let long = "a".repeat(300);
    assert_eq!(sanitize_name(&long).chars().count(), 200);
    assert_eq!(sanitize_name("a/b\\c|d"), "a_b_c_d");
    assert_eq!(sanitize_name(""), "download");
}
