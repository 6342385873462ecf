use vdm::browser::{BrowserDetector, BrowserExes};
use vdm::startup::{
    autostart_command, enabled_marker, startup_enabled_from,
    RegValue, StartupError,
};

#[test]
fn paths_are_expanded() {
    let p = BrowserDetector::expand_env(
        "%ProgramFiles(x86)%\\Microsoft\\Edge\\msedge.exe",
        Some("C:\\PF"),
        Some("C:\\PF86"),
        None,
    );
    assert_eq!(p, "C:\\PF86\\Microsoft\\Edge\\msedge.exe");
    let q = BrowserDetector::expand_env("%LocalAppData%\\x;%LocalAppData%", None, None, Some("L"));
    assert_eq!(q, "L\\x;L");
    assert_eq!(BrowserDetector::expand_env("%ProgramFiles%\\a", None, None, None), "%ProgramFiles%\\a");
}

#[test]
fn browsers_are_listed() {
    let running = vec!["CHROME.EXE".to_string(), "opera.exe".to_string()];
    let list = BrowserDetector::get_browsers(
        BrowserExes { chrome: Some("C:\\c.exe".into()), edge: None, brave: None, firefox: None, opera: None },
        &running,
    );
    assert_eq!(list.len(), 5);
    assert_eq!(list[0].id, "chrome");
    assert!(list[0].installed && list[0].running);
    assert_eq!(list[0].exe_path.as_deref(), Some("C:\\c.exe"));
    assert!(!list[1].installed && !list[1].running);
    assert_eq!(list[3].extension_page, "about:addons");
    assert!(list[4].running);
    assert_eq!(list[4].download_url, "https://www.opera.com/download");
    let c = BrowserDetector::candidates();
    assert_eq!(c.iter().map(|v| v.len()).collect::<Vec<_>>(), vec![3, 4, 3, 3, 2]);
    let found = BrowserDetector::find_browser_exe(&vec!["a".into(), "b".into(), "c".into()], &vec![false, true, true]);
    assert_eq!(found.as_deref(), Some("b"));
    assert_eq!(BrowserDetector::find_browser_exe(&vec!["a".into()], &vec![false]), None);
    let d = BrowserDetector::get_extension_dir(Some("/data"));
    assert_eq!(d, "/data/VDM/extension");
}

#[test]
fn start_at_sign_in() {
    // what registering writes reads back as "on"
    assert!(startup_enabled_from(Some(1), &Some(RegValue { kind: 3, data: enabled_marker() })));
    assert!(startup_enabled_from(Some(1), &None));
    assert!(startup_enabled_from(Some(2), &Some(RegValue { kind: 3, data: vec![2, 0] })));
    assert!(!startup_enabled_from(Some(1), &Some(RegValue { kind: 3, data: vec![3, 0] })));
    assert!(startup_enabled_from(Some(1), &Some(RegValue { kind: 3, data: vec![] })));
    assert!(!startup_enabled_from(Some(4), &None));
    assert!(!startup_enabled_from(None, &None));
    assert_eq!(autostart_command("C:\\vdm.exe"), "\"C:\\vdm.exe\" --autostart");
    assert_eq!(enabled_marker(), vec![2, 0, 0, 0, 0, 0, 0, 0, 0, 0, 0, 0]);
    assert_eq!(
        StartupError::WriteRunValue(5).message(),
        "Failed to write Windows Run registry value: error code 5"
    );
}
