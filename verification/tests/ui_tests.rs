use vdm::downloader::TaskSnapshot;
use vdm::ui::{
    compute_next_duplicate_name, detect_category, detect_category_name, detect_file_type, extract_url,
    fmt_eta, format_timestamp, get_category_folder, progress_status_text, renew_context, save_path,
    toggle_action, window_offset, ToggleAction, next_duplicate_name, list_item,
};
use vdm::icon::{bgra_to_rgba, icon_lookup_name};
use vdm::text::replace_text;

fn snap(dir: &str, filename: &str) -> TaskSnapshot {
    TaskSnapshot {
        id: "i".into(),
        url: "https://x/y".into(),
        filename: filename.into(),
        dir: dir.into(),
        status: "paused".into(),
        total: None,
        downloaded: 0,
        speed_bps: 0,
        eta_secs: None,
        created_at: 0,
        referrer: String::new(),
        error_msg: None,
        segments: vec![],
    }
}

#[test]
fn time_left_texts() {
    assert_eq!(fmt_eta(None), "\u{2014}");
    assert_eq!(fmt_eta(Some(59)), "59s");
    assert_eq!(fmt_eta(Some(60)), "60s");
    assert_eq!(fmt_eta(Some(61)), "1m 1s");
    assert_eq!(fmt_eta(Some(3600)), "60m 0s");
    assert_eq!(fmt_eta(Some(3725)), "1h 2m");
}

#[test]
fn creation_dates() {
    assert_eq!(format_timestamp(0), "\u{2014}");
    assert_eq!(format_timestamp(-5), "\u{2014}");
    assert_eq!(format_timestamp(1), "Jan 01, 00:00");
    assert_eq!(format_timestamp(1709647620000), "Mar 05, 14:07");
    assert_eq!(format_timestamp(951800820000), "Feb 29, 05:07");
    assert_eq!(format_timestamp(31536000000), "Jan 01, 00:00");
}

#[test]
fn file_types_and_categories() {
    assert_eq!(detect_file_type("a.ZIP"), "archive");
    assert_eq!(detect_file_type("setup.msi"), "installer");
    assert_eq!(detect_file_type("clip.webm"), "video");
    assert_eq!(detect_file_type("song.opus"), "audio");
    assert_eq!(detect_file_type("paper.pdf"), "document");
    assert_eq!(detect_file_type("logo.svg"), "image");
    assert_eq!(detect_file_type("main.rs"), "code");
    assert_eq!(detect_file_type("noext"), "document");
    assert_eq!(detect_file_type(".bashrc"), "document");
    assert_eq!(detect_category("logo.svg"), "document");
    assert_eq!(detect_category("x.7z"), "compressed");
    assert_eq!(detect_category_name("x.7z"), "Compressed");
    assert_eq!(detect_category_name("x.apk"), "Programs");
    assert_eq!(detect_category_name("x.flac"), "Music");
    assert_eq!(detect_category_name("x.png"), "Documents");
}

#[test]
fn category_folders() {
    assert_eq!(get_category_folder("video", Some("C:\\Users\\me")), "C:\\Users\\me\\Downloads\\Video");
    assert_eq!(get_category_folder("Programs", None), "C:\\Users\\Default\\Downloads\\Programs");
    assert_eq!(get_category_folder("image", Some("H")), "H\\Downloads\\Pictures");
    assert_eq!(get_category_folder("other", Some("H")), "H\\Downloads\\Documents");
}

#[test]
fn links_in_pasted_text() {
    assert_eq!(extract_url(""), None);
    assert_eq!(extract_url("hello\n  <https://a.b/c.zip>  \nmore"), Some("https://a.b/c.zip".into()));
    assert_eq!(extract_url("(www.example.com)"), Some("https://www.example.com".into()));
    assert_eq!(extract_url("x\r\n[magnet:?xt=urn:btih:AB]\r\n"), Some("magnet:?xt=urn:btih:AB".into()));
    assert_eq!(extract_url("nothing here"), None);
}

#[test]
fn duplicate_names() {
    let tasks = vec![snap("D:\\dl", "File (1).zip")];
    let disk = vec!["file (2).zip".to_string()];
    assert_eq!(compute_next_duplicate_name("d:\\DL", "file.zip", &tasks, &disk), "file (3).zip");
    assert_eq!(compute_next_duplicate_name("other", "file.zip", &tasks, &disk), "file (1).zip");
    assert_eq!(compute_next_duplicate_name("d", "README", &vec![], &vec![]), "README (1)");
}

#[test]
fn progress_window_choices() {
    assert_eq!(toggle_action("downloading"), ToggleAction::Pause);
    assert_eq!(toggle_action("connecting"), ToggleAction::Pause);
    assert_eq!(toggle_action("paused"), ToggleAction::Resume);
    assert_eq!(progress_status_text("downloading"), "Receiving data...");
    assert_eq!(progress_status_text("paused"), "paused");
    assert_eq!(window_offset(0), 0);
    assert_eq!(window_offset(3), 105);
    assert_eq!(window_offset(8), 0);
    assert_eq!(save_path("C:\\dl", "a.zip"), "C:\\dl\\a.zip");
    let mut s = snap("d", "f");
    assert_eq!(renew_context(&s), ("https://x/y".to_string(), "Download failed".to_string()));
    s.referrer = "https://page".into();
    s.error_msg = Some("http 403".into());
    assert_eq!(renew_context(&s), ("https://page".to_string(), "http 403".to_string()));
}

#[test]
fn duplicates_numbered_from_stem_and_extension() {
    let stem: Vec<char> = "movie".chars().collect();
    let ext: Vec<char> = "mkv".chars().collect();
    let disk = vec!["movie (1).mkv".to_string()];
    assert_eq!(next_duplicate_name("d", &stem, &ext, &vec![], &disk), "movie (2).mkv");
    assert_eq!(next_duplicate_name("d", &stem, &Vec::new(), &vec![], &disk), "movie (1)");
    // a name with a folder in it is split the way the platform reads paths
    let r = compute_next_duplicate_name("d", "x/archive.tar.gz", &vec![], &vec![]);
    assert_eq!(r, "archive.tar (1).gz");
}

#[test]
fn list_rows_show_the_task_texts() {
    let mut s = snap("D:\\dl", "movie.MKV");
    s.error_msg = Some("http 404".into());
    let item = list_item(&s, true);
    assert_eq!(item.filename, "movie.MKV");
    assert_eq!(item.file_type, "video");
    assert_eq!(item.category, "video");
    assert_eq!(item.eta, fmt_eta(s.eta_secs));
    assert_eq!(item.date_text, format_timestamp(s.created_at));
    assert_eq!(item.error_msg, "http 404");
    assert!(item.selected);
    s.error_msg = None;
    assert_eq!(list_item(&s, false).error_msg, "");
}

#[test]
fn icon_names_and_pixels() {
    assert_eq!(icon_lookup_name("setup.v2.exe"), "dummy.exe");
    assert_eq!(icon_lookup_name("README"), "dummy.README");
    assert_eq!(icon_lookup_name("archive."), "dummy.");
    // blue, green, red, alpha -> red, green, blue, alpha
    assert_eq!(bgra_to_rgba(&vec![1, 2, 3, 4, 0, 0, 0, 0]), vec![3, 2, 1, 4, 0, 0, 0, 0]);
    // no alpha at all: black turns transparent, other colours opaque
    assert_eq!(bgra_to_rgba(&vec![1, 2, 3, 0, 0, 0, 0, 0]), vec![3, 2, 1, 255, 0, 0, 0, 0]);
}

#[test]
fn replacing_text() {
    let v = |s: &str| s.chars().collect::<Vec<char>>();
    assert_eq!(replace_text(&v("a%X%b%X%"), &v("%X%"), &v("1")), v("a1b1"));
    assert_eq!(replace_text(&v("abc"), &v(""), &v("-")), v("-a-b-c-"));
    assert_eq!(replace_text(&v(""), &v(""), &v("-")), v("-"));
}
