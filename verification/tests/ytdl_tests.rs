use vdm::ytdl::{
    clean_stream_url, default_youtube_headers, extraction_error, extractor_args, is_youtube, merge_headers,
    mux_args, mux_codecs, stream_request, stream_urls, first_listed_path, codecs_for_extension,
};

fn pairs(v: &[(&str, &str)]) -> Vec<(String, String)> {
    v.iter().map(|(k, x)| (k.to_string(), x.to_string())).collect()
}

#[test]
fn video_links_are_recognised() {
    assert!(is_youtube("https://www.YouTube.com/watch?v=abc"));
    assert!(is_youtube("https://youtu.be/abc"));
    assert!(is_youtube("https://rr1.googlevideo.com/videoplayback?x=1"));
    assert!(!is_youtube("https://example.com/watch"));
}

#[test]
fn extractor_requests() {
    assert_eq!(clean_stream_url("https://youtube.com/watch?v=a&itag=22&x=1"), "https://youtube.com/watch?v=a");
    assert_eq!(
        clean_stream_url("https://r.googlevideo.com/videoplayback?a=1&itag=22"),
        "https://r.googlevideo.com/videoplayback?a=1&itag=22"
    );
    assert_eq!(
        extractor_args("https://youtu.be/a&itag=1", None, false),
        vec!["-g", "--no-warnings", "-f", "bestvideo+bestaudio/best", "https://youtu.be/a"]
    );
    assert_eq!(extractor_args("u", Some("22+bestaudio/best"), false)[3], "22+bestaudio/best");
    assert_eq!(extractor_args("u", Some("22"), true)[3], "bestaudio/best");
    assert_eq!(
        stream_request("https://youtube.com/watch?v=a&itag=137&t=1", "Song.MP3"),
        (true, Some("137+bestaudio/best".to_string()))
    );
    assert_eq!(stream_request("https://youtube.com/watch?v=a", "clip.mp4"), (false, None));
}

#[test]
fn extractor_output() {
    assert_eq!(
        stream_urls("WARNING x\n https://v.example/1 \r\nhttps://a.example/2\n"),
        Ok(("https://v.example/1".to_string(), Some("https://a.example/2".to_string())))
    );
    assert_eq!(stream_urls("http://only\n"), Ok(("http://only".to_string(), None)));
    assert_eq!(stream_urls("nothing\n"), Err("No playable stream URLs found".to_string()));
    assert_eq!(extraction_error("  boom \n"), "URL extraction error: boom");
}

#[test]
fn stream_headers() {
    let h = default_youtube_headers();
    assert_eq!(h.len(), 8);
    assert_eq!(h[1], ("Referer".to_string(), "https://www.youtube.com/".to_string()));
    let merged = merge_headers(h, &pairs(&[("Referer", "https://mine/"), ("Cookie", "a=b")]));
    assert_eq!(merged.len(), 9);
    assert_eq!(merged[1].1, "https://mine/");
    assert_eq!(merged[8], ("Cookie".to_string(), "a=b".to_string()));
}

#[test]
fn muxing() {
    assert_eq!(mux_codecs("out.WebM"), vec!["copy", "libopus", "opus", "libvorbis"]);
    assert_eq!(mux_codecs("out.mp4"), vec!["copy", "aac", "libmp3lame"]);
    let a = mux_args("v.mp4", "a.m4a", "o.mp4", "aac");
    assert_eq!(a.len(), 14);
    assert_eq!(a[12], "aac");
    assert_eq!(a[13], "o.mp4");
}

#[test]
fn lookup_output_first_path() {
    assert_eq!(first_listed_path(""), None);
    assert_eq!(
        first_listed_path("C:\\Tools\\yt-dlp.exe\r\nC:\\Other\\yt-dlp.exe\r\n"),
        Some("C:\\Tools\\yt-dlp.exe".to_string())
    );
    assert_eq!(first_listed_path("  /usr/bin/ffmpeg  "), Some("/usr/bin/ffmpeg".to_string()));
    assert_eq!(first_listed_path("\nsecond"), Some(String::new()));
}

#[test]
fn merged_headers_act_as_a_map() {
    let base = pairs(&[("Accept", "*/*"), ("Referer", "https://www.youtube.com/")]);
    let extra = pairs(&[("Referer", "first"), ("Cookie", "c=1"), ("Referer", "last"), ("Cookie", "c=2")]);
    let merged = merge_headers(base, &extra);
    assert_eq!(merged, pairs(&[("Accept", "*/*"), ("Referer", "last"), ("Cookie", "c=2")]));
    let mut keys: Vec<&str> = merged.iter().map(|(k, _)| k.as_str()).collect();
    keys.sort();
    keys.dedup();
    assert_eq!(keys.len(), merged.len());
}

#[test]
fn codecs_follow_the_output_extension() {
    assert_eq!(codecs_for_extension(Some("WebM")), vec!["copy", "libopus", "opus", "libvorbis"]);
    assert_eq!(codecs_for_extension(Some("mkv")), vec!["copy", "aac", "libmp3lame"]);
    assert_eq!(codecs_for_extension(None), vec!["copy", "aac", "libmp3lame"]);
    assert_eq!(mux_codecs("/tmp/out/video.webm"), vec!["copy", "libopus", "opus", "libvorbis"]);
    assert_eq!(mux_codecs("/tmp/out.webm/video"), vec!["copy", "aac", "libmp3lame"]);
}
