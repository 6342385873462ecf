use vdm::torrent::{
    default_public_trackers, stats_snapshot, torrent_file_type, torrent_listing, SwarmCounts,
    TorrentPhase, TorrentSettings,
};

#[test]
fn default_settings() {
    let s = TorrentSettings::default();
    assert_eq!((s.max_download_bps, s.max_upload_bps, s.max_peers), (0, 0, 100));
    assert!(s.enable_dht && s.enable_pex && s.enable_auto_trackers);
}

#[test]
fn trackers_are_added_once() {
    let s = TorrentSettings::default();
    let m = "magnet:?xt=urn:btih:ABC";
    let e = s.enhance_magnet_url(m);
    assert_eq!(e.matches("&tr=").count(), default_public_trackers().len());
    assert!(e.starts_with(m));
    assert!(e.contains("&tr=udp%3A%2F%2Ftracker.opentrackr.org%3A1337%2Fannounce"));
    assert_eq!(s.enhance_magnet_url(&e), e);
    let with_plain = format!("{m}&tr=udp://explodie.org:6969/announce");
    let e2 = s.enhance_magnet_url(&with_plain);
    assert_eq!(e2.matches("&tr=").count(), default_public_trackers().len());
    assert_eq!(s.enhance_magnet_url("https://x/y.torrent"), "https://x/y.torrent");
    let off = TorrentSettings { enable_auto_trackers: false, ..TorrentSettings::default() };
    assert_eq!(off.enhance_magnet_url(m), m);
}

#[test]
fn file_labels() {
    assert_eq!(torrent_file_type("Movie.MKV"), "video");
    assert_eq!(torrent_file_type("a.b.flac"), "audio");
    assert_eq!(torrent_file_type("x.iso"), "archive");
    assert_eq!(torrent_file_type("setup.dmg"), "installer");
    assert_eq!(torrent_file_type("pic.webp"), "image");
    assert_eq!(torrent_file_type("README"), "file");
    assert_eq!(torrent_file_type("mkv"), "video");
}

#[test]
fn listings() {
    let link = "magnet:?xt=urn:btih:ABC&dn=Pack&xl=99";
    let (name, total, files) = torrent_listing(link, Some(vec![("a.mp4".into(), 10), ("b.txt".into(), 5)]));
    assert_eq!((name.as_str(), total, files.len()), ("Pack", 15, 2));
    assert_eq!((files[1].id, files[1].name.as_str(), files[1].size_bytes, files[1].file_type.as_str()), (1, "b.txt", 5, "file"));
    let (name, total, files) = torrent_listing(link, None);
    assert_eq!((name.as_str(), total), ("Pack", 99));
    assert_eq!(files.len(), 1);
    let (name, total, _) = torrent_listing("magnet:?xt=urn:btih:ABC", Some(vec![]));
    assert_eq!((name.as_str(), total), ("Torrent Download", 0));
    let (name, _, _) = torrent_listing("magnet:?xt=urn:btih:ABC", Some(vec![("x.iso".into(), 1)]));
    assert_eq!(name, "Torrent Package");
}

#[test]
fn stats() {
    let s = stats_snapshot(TorrentPhase::Live, 10, 2, 0, Some(SwarmCounts { live_peers: 3, seen_peers: 7, fetched_bytes: 11 }), false, None);
    assert_eq!((s.downloaded_bytes, s.total_bytes, s.live_peers, s.live_seeds, s.fetched_bytes), (10, None, 3, 7, 11));
    assert_eq!(s.state_kind, "live");
    let p = stats_snapshot(TorrentPhase::Paused, 1, 0, 50, None, true, Some("e".into()));
    assert_eq!((p.total_bytes, p.live_peers, p.state_kind.as_str(), p.is_finished), (Some(50), 0, "paused", true));
}
