use vdm::server::{
    body_text, is_complete, origin_allowed, reply, request_route, scan_head, DownloadPayload, Route,
    ServerEvent,
};

#[test]
fn test_origin_allowed_filtering() {
    assert!(origin_allowed(""));
    assert!(origin_allowed("chrome-extension://abcdefghijklmnop"));
    assert!(origin_allowed("moz-extension://1234-5678-90ab"));
    assert!(origin_allowed("safari-extension://some-id"));
    assert!(origin_allowed("http://localhost:8080"));
    assert!(origin_allowed("http://127.0.0.1:9191"));

    assert!(!origin_allowed("http://evil.com"));
    assert!(!origin_allowed("https://phishing.site"));
    assert!(!origin_allowed("http://localhost.evil.com"));
    assert!(!origin_allowed("http://127.0.0.1.attacker.com"));
}

fn bytes(s: &str) -> Vec<u8> {
    s.as_bytes().to_vec()
}

#[test]
fn request_heads_are_read_once_complete() {
    let partial = bytes("POST /add-download HTTP/1.1\r\nContent-Length: 5\r\n");
    assert!(scan_head(&partial).is_none());
    let buf = bytes("POST /add-download HTTP/1.1\r\nHost: x\r\ncontent-length: 5\r\nOrigin:  chrome-extension://abc \r\n\r\nhel");
    let head = scan_head(&buf).unwrap();
    assert_eq!(head.content_length, 5);
    assert_eq!(head.origin, "chrome-extension://abc");
    assert_eq!(&buf[..head.header_end], &bytes("POST /add-download HTTP/1.1\r\nHost: x\r\ncontent-length: 5\r\nOrigin:  chrome-extension://abc \r\n\r\n")[..]);
    let head = Some(head);
    assert!(!is_complete(&buf, &head));
    let mut full = buf.clone();
    full.extend_from_slice(b"lo");
    assert!(is_complete(&full, &head));
    assert_eq!(body_text(&full, &head), "hello");
    let bad_len = bytes("GET / HTTP/1.1\r\nContent-Length: many\r\n\r\n");
    assert_eq!(scan_head(&bad_len).unwrap().content_length, 0);
}

#[test]
fn requests_reach_their_routes() {
    let route = |req: &str| {
        let b = bytes(req);
        let h = scan_head(&b);
        request_route(&b, &h)
    };
    assert_eq!(route("OPTIONS /add-download HTTP/1.1\r\n\r\n"), Some(Route::Preflight));
    assert_eq!(route("GET /show HTTP/1.1\r\nOrigin: http://127.0.0.1\r\n\r\n"), Some(Route::Show));
    assert_eq!(route("POST /open HTTP/1.1\r\nOrigin: http://evil.com\r\n\r\n"), Some(Route::ShowForbidden));
    assert_eq!(route("GET /health HTTP/1.1\r\n\r\n"), Some(Route::Health));
    assert_eq!(route("GET /status HTTP/1.1\r\n\r\n"), Some(Route::Health));
    assert_eq!(route("POST /health HTTP/1.1\r\n\r\n"), Some(Route::NotFound));
    assert_eq!(route("POST /add-download HTTP/1.1\r\nOrigin: http://evil-attacker.com\r\n\r\n"), Some(Route::AddForbidden));
    assert_eq!(route("POST /add-download HTTP/1.1\r\n\r\n"), Some(Route::AddDownload));
    assert_eq!(route("GET /nothing HTTP/1.1\r\n\r\n"), Some(Route::NotFound));
    assert_eq!(route(""), None);
}

fn payload(url: &str) -> DownloadPayload {
    DownloadPayload {
        url: url.into(),
        filename: "testfile.iso".into(),
        referrer: "https://example.com/download".into(),
        cookies: "sess=123".into(),
        user_agent: String::new(),
        file_size: Some(1048576),
    }
}

#[test]
fn replies_are_exact() {
    let (health, ev) = reply(Route::Health, None);
    assert!(ev.is_none());
    assert!(health.starts_with("HTTP/1.1 200 OK\r\n"));
    assert!(health.contains("\"status\":\"ok\""));
    assert!(health.contains("\"version\":\"0.5.0\""));
    let body = "{\"app\":\"VDM\",\"status\":\"ok\",\"version\":\"0.5.0\"}";
    assert!(health.ends_with(&format!("Content-Length: {}\r\n\r\n{}", body.len(), body)));

    let (show, ev) = reply(Route::Show, None);
    assert!(show.contains("HTTP/1.1 200 OK") && show.contains("Window shown"));
    assert!(matches!(ev, Some(ServerEvent::ShowWindow)));

    let (ok, ev) = reply(Route::AddDownload, Some(payload("https://example.com/testfile.iso")));
    assert!(ok.contains("HTTP/1.1 200 OK") && ok.contains("\"success\":true"));
    match ev {
        Some(ServerEvent::AddDownload(p)) => {
            assert_eq!(p.url, "https://example.com/testfile.iso");
            assert_eq!(p.file_size, Some(1048576));
        }
        _ => panic!("expected a download"),
    }
    let (bad, ev) = reply(Route::AddDownload, Some(payload("   ")));
    assert!(bad.starts_with("HTTP/1.1 400 Bad Request") && bad.contains("Invalid payload"));
    assert!(ev.is_none());
    let (bad, _) = reply(Route::AddDownload, None);
    assert!(bad.starts_with("HTTP/1.1 400 Bad Request"));
    let (forbidden, _) = reply(Route::AddForbidden, None);
    assert!(forbidden.starts_with("HTTP/1.1 403 Forbidden") && forbidden.contains("forbidden origin"));
    assert_eq!(
        reply(Route::ShowForbidden, None).0,
        "HTTP/1.1 403 Forbidden\r\nAccess-Control-Allow-Origin: null\r\nContent-Length: 0\r\n\r\n"
    );
    assert_eq!(
        reply(Route::NotFound, None).0,
        "HTTP/1.1 404 Not Found\r\nAccess-Control-Allow-Origin: *\r\nContent-Length: 0\r\n\r\n"
    );
    assert!(reply(Route::Preflight, None).0.starts_with("HTTP/1.1 204 No Content\r\n"));
}
