//! Supported browsers: where each is looked for, what is shown for it, and
//! where the companion extension is unpacked.
use vstd::prelude::*;
use crate::text::{
    chars_of, string_of, owned, append, append_str, lower, eq_ignore_case, opt_view, replace_all,
    replace_text, path_join, joins_plainly,
};

verus! {

/// One supported browser, as the settings page lists it.
#[derive(Debug, Clone)]
pub struct BrowserInfo {
    pub id: String,
    pub name: String,
    pub installed: bool,
    pub running: bool,
    pub exe_path: Option<String>,
    pub extension_page: String,
    pub download_url: String,
}

/// Finds the supported browsers.
pub struct BrowserDetector;

/// A candidate path with the three folder variables filled in, each that is set.
pub open spec fn expanded(path: Seq<char>, pf: Option<Seq<char>>, pfx86: Option<Seq<char>>, local: Option<Seq<char>>) -> Seq<char> {
    let a = match pf {
        Some(v) => replace_all(path, "%ProgramFiles%"@, v),
        None => path,
    };
    let b = match pfx86 {
        Some(v) => replace_all(a, "%ProgramFiles(x86)%"@, v),
        None => a,
    };
    match local {
        Some(v) => replace_all(b, "%LocalAppData%"@, v),
        None => b,
    }
}

pub open spec fn opt_chars(o: Option<&str>) -> Option<Seq<char>> {
    match o {
        Some(s) => Some(s@),
        None => None,
    }
}

fn replace_var(s: Vec<char>, var: &str, value: Option<&str>) -> (r: Vec<char>)
    ensures
        r@ == match value {
            Some(v) => if var@.len() > 0 {
                replace_all(s@, var@, v@)
            } else {
                s@
            },
            None => s@,
        },
{
    match value {
        Some(v) => {
            let pat = chars_of(var);
            if pat.len() > 0 {
                let rep = chars_of(v);
                replace_text(&s, &pat, &rep)
            } else {
                s
            }
        },
        None => s,
    }
}

impl BrowserDetector {
    /// Fill in `%ProgramFiles%`, `%ProgramFiles(x86)%` and `%LocalAppData%`
    /// from the given folders (each only when set).
    pub fn expand_env(
        path_with_env: &str,
        program_files: Option<&str>,
        program_files_x86: Option<&str>,
        local_app_data: Option<&str>,
    ) -> (r: String)
        ensures
            r@ == expanded(
                path_with_env@,
                opt_chars(program_files),
                opt_chars(program_files_x86),
                opt_chars(local_app_data),
            ),
    {
        proof {
            reveal_strlit("%ProgramFiles%");
            reveal_strlit("%ProgramFiles(x86)%");
            reveal_strlit("%LocalAppData%");
        }
        let v = chars_of(path_with_env);
        let a = replace_var(v, "%ProgramFiles%", program_files);
        let b = replace_var(a, "%ProgramFiles(x86)%", program_files_x86);
        let c = replace_var(b, "%LocalAppData%", local_app_data);
        string_of(&c)
    }
}


/// Where each supported browser may be installed, as path patterns.
pub open spec fn candidate_paths() -> Seq<Seq<Seq<char>>> {
    seq![
        seq![
            "%ProgramFiles%\\Google\\Chrome\\Application\\chrome.exe"@,
            "%ProgramFiles(x86)%\\Google\\Chrome\\Application\\chrome.exe"@,
            "%LocalAppData%\\Google\\Chrome\\Application\\chrome.exe"@,
        ],
        seq![
            "%ProgramFiles(x86)%\\Microsoft\\Edge\\Application\\msedge.exe"@,
            "%ProgramFiles%\\Microsoft\\Edge\\Application\\msedge.exe"@,
            "%LocalAppData%\\Microsoft\\Edge\\Application\\msedge.exe"@,
            "%ProgramFiles(x86)%\\Microsoft\\EdgeCore\\msedge.exe"@,
        ],
        seq![
            "%ProgramFiles%\\BraveSoftware\\Brave-Browser\\Application\\brave.exe"@,
            "%ProgramFiles(x86)%\\BraveSoftware\\Brave-Browser\\Application\\brave.exe"@,
            "%LocalAppData%\\BraveSoftware\\Brave-Browser\\Application\\brave.exe"@,
        ],
        seq![
            "%ProgramFiles%\\Mozilla Firefox\\firefox.exe"@,
            "%ProgramFiles(x86)%\\Mozilla Firefox\\firefox.exe"@,
            "%LocalAppData%\\Mozilla Firefox\\firefox.exe"@,
        ],
        seq!["%LocalAppData%\\Programs\\Opera\\launcher.exe"@, "%ProgramFiles%\\Opera\\launcher.exe"@],
    ]
}

/// The installed executable of each supported browser, if found.
pub struct BrowserExes {
    pub chrome: Option<String>,
    pub edge: Option<String>,
    pub brave: Option<String>,
    pub firefox: Option<String>,
    pub opera: Option<String>,
}

/// A running process has this executable name (in any ASCII case).
pub open spec fn process_running(names: Seq<Seq<char>>, exe: Seq<char>) -> bool {
    exists|i: int| 0 <= i < names.len() && lower(#[trigger] names[i]) == lower(exe)
}

/// A listed browser shows these fields.
pub open spec fn entry_is(
    b: BrowserInfo,
    id: Seq<char>,
    name: Seq<char>,
    page: Seq<char>,
    url: Seq<char>,
    exe: Option<Seq<char>>,
    running: bool,
) -> bool {
    &&& b.id@ == id
    &&& b.name@ == name
    &&& b.installed == exe is Some
    &&& b.running == running
    &&& opt_view(b.exe_path) == exe
    &&& b.extension_page@ == page
    &&& b.download_url@ == url
}

fn any_running(names: &Vec<String>, exe: &str) -> (r: bool)
    ensures
        r == process_running(names.deep_view(), exe@),
{
    let ev = chars_of(exe);
    for i in 0..names.len()
        invariant
            ev@ == exe@,
            forall|j: int| 0 <= j < i ==> lower(#[trigger] names.deep_view()[j]) != lower(exe@),
    {
        let nv = chars_of(names[i].as_str());
        assert(names.deep_view()[i as int] == names[i as int]@);
        if eq_ignore_case(&nv, &ev) {
            return true;
        }
    }
    false
}

fn entry(
    id: &str,
    name: &str,
    page: &str,
    url: &str,
    exe: Option<String>,
    running: bool,
) -> (r: BrowserInfo)
    ensures
        entry_is(r, id@, name@, page@, url@, opt_view(exe), running),
{
    BrowserInfo {
        id: owned(id),
        name: owned(name),
        installed: exe.is_some(),
        running,
        exe_path: exe,
        extension_page: owned(page),
        download_url: owned(url),
    }
}

impl BrowserDetector {
    /// The path patterns each supported browser is looked for at, in the
    /// order of `get_browsers`.
    pub fn candidates() -> (r: Vec<Vec<String>>)
        ensures
            r.deep_view() == candidate_paths(),
    {
        let mut r: Vec<Vec<String>> = Vec::new();
        let mut c0: Vec<String> = Vec::new();
        c0.push(owned("%ProgramFiles%\\Google\\Chrome\\Application\\chrome.exe"));
        c0.push(owned("%ProgramFiles(x86)%\\Google\\Chrome\\Application\\chrome.exe"));
        c0.push(owned("%LocalAppData%\\Google\\Chrome\\Application\\chrome.exe"));
        assert(c0.deep_view() =~= seq!["%ProgramFiles%\\Google\\Chrome\\Application\\chrome.exe"@, "%ProgramFiles(x86)%\\Google\\Chrome\\Application\\chrome.exe"@, "%LocalAppData%\\Google\\Chrome\\Application\\chrome.exe"@]);
        let ghost before0 = r.deep_view();
        r.push(c0);
        assert(r.deep_view() =~= before0.push(seq!["%ProgramFiles%\\Google\\Chrome\\Application\\chrome.exe"@, "%ProgramFiles(x86)%\\Google\\Chrome\\Application\\chrome.exe"@, "%LocalAppData%\\Google\\Chrome\\Application\\chrome.exe"@]));
        let mut c1: Vec<String> = Vec::new();
        c1.push(owned("%ProgramFiles(x86)%\\Microsoft\\Edge\\Application\\msedge.exe"));
        c1.push(owned("%ProgramFiles%\\Microsoft\\Edge\\Application\\msedge.exe"));
        c1.push(owned("%LocalAppData%\\Microsoft\\Edge\\Application\\msedge.exe"));
        c1.push(owned("%ProgramFiles(x86)%\\Microsoft\\EdgeCore\\msedge.exe"));
        assert(c1.deep_view() =~= seq!["%ProgramFiles(x86)%\\Microsoft\\Edge\\Application\\msedge.exe"@, "%ProgramFiles%\\Microsoft\\Edge\\Application\\msedge.exe"@, "%LocalAppData%\\Microsoft\\Edge\\Application\\msedge.exe"@, "%ProgramFiles(x86)%\\Microsoft\\EdgeCore\\msedge.exe"@]);
        let ghost before1 = r.deep_view();
        r.push(c1);
        assert(r.deep_view() =~= before1.push(seq!["%ProgramFiles(x86)%\\Microsoft\\Edge\\Application\\msedge.exe"@, "%ProgramFiles%\\Microsoft\\Edge\\Application\\msedge.exe"@, "%LocalAppData%\\Microsoft\\Edge\\Application\\msedge.exe"@, "%ProgramFiles(x86)%\\Microsoft\\EdgeCore\\msedge.exe"@]));
        let mut c2: Vec<String> = Vec::new();
        c2.push(owned("%ProgramFiles%\\BraveSoftware\\Brave-Browser\\Application\\brave.exe"));
        c2.push(owned("%ProgramFiles(x86)%\\BraveSoftware\\Brave-Browser\\Application\\brave.exe"));
        c2.push(owned("%LocalAppData%\\BraveSoftware\\Brave-Browser\\Application\\brave.exe"));
        assert(c2.deep_view() =~= seq!["%ProgramFiles%\\BraveSoftware\\Brave-Browser\\Application\\brave.exe"@, "%ProgramFiles(x86)%\\BraveSoftware\\Brave-Browser\\Application\\brave.exe"@, "%LocalAppData%\\BraveSoftware\\Brave-Browser\\Application\\brave.exe"@]);
        let ghost before2 = r.deep_view();
        r.push(c2);
        assert(r.deep_view() =~= before2.push(seq!["%ProgramFiles%\\BraveSoftware\\Brave-Browser\\Application\\brave.exe"@, "%ProgramFiles(x86)%\\BraveSoftware\\Brave-Browser\\Application\\brave.exe"@, "%LocalAppData%\\BraveSoftware\\Brave-Browser\\Application\\brave.exe"@]));
        let mut c3: Vec<String> = Vec::new();
        c3.push(owned("%ProgramFiles%\\Mozilla Firefox\\firefox.exe"));
        c3.push(owned("%ProgramFiles(x86)%\\Mozilla Firefox\\firefox.exe"));
        c3.push(owned("%LocalAppData%\\Mozilla Firefox\\firefox.exe"));
        assert(c3.deep_view() =~= seq!["%ProgramFiles%\\Mozilla Firefox\\firefox.exe"@, "%ProgramFiles(x86)%\\Mozilla Firefox\\firefox.exe"@, "%LocalAppData%\\Mozilla Firefox\\firefox.exe"@]);
        let ghost before3 = r.deep_view();
        r.push(c3);
        assert(r.deep_view() =~= before3.push(seq!["%ProgramFiles%\\Mozilla Firefox\\firefox.exe"@, "%ProgramFiles(x86)%\\Mozilla Firefox\\firefox.exe"@, "%LocalAppData%\\Mozilla Firefox\\firefox.exe"@]));
        let mut c4: Vec<String> = Vec::new();
        c4.push(owned("%LocalAppData%\\Programs\\Opera\\launcher.exe"));
        c4.push(owned("%ProgramFiles%\\Opera\\launcher.exe"));
        assert(c4.deep_view() =~= seq!["%LocalAppData%\\Programs\\Opera\\launcher.exe"@, "%ProgramFiles%\\Opera\\launcher.exe"@]);
        let ghost before4 = r.deep_view();
        r.push(c4);
        assert(r.deep_view() =~= before4.push(seq!["%LocalAppData%\\Programs\\Opera\\launcher.exe"@, "%ProgramFiles%\\Opera\\launcher.exe"@]));
        assert(r.deep_view() =~= candidate_paths());
        r
    }

    /// The first candidate that exists on disk (`exists` says, per expanded
    /// candidate, whether it does).
    pub fn find_browser_exe(expanded: &Vec<String>, exists: &Vec<bool>) -> (r: Option<String>)
        ensures
            match r {
                Some(p) => exists|i: int|
                    0 <= i < expanded@.len() && i < exists@.len() && exists@[i] && p@ == expanded@[i]@
                        && forall|j: int| 0 <= j < i ==> !exists@[j],
                None => forall|i: int| 0 <= i < expanded@.len() && i < exists@.len() ==> !exists@[i],
            },
    {
        for i in 0..expanded.len()
            invariant
                forall|j: int| 0 <= j < i && j < exists@.len() ==> !exists@[j],
        {
            if i < exists.len() && exists[i] {
                return Some(expanded[i].clone());
            }
        }
        None
    }

    /// The supported browsers in order (Chrome, Edge, Brave, Firefox,
    /// Opera): each installed when its executable was found, running when a
    /// process with its executable name runs.
    pub fn get_browsers(found: BrowserExes, running_names: &Vec<String>) -> (r: Vec<BrowserInfo>)
        ensures
            r@.len() == 5,
            entry_is(
                r@[0],
                "chrome"@,
                "Google Chrome"@,
                "chrome://extensions/"@,
                "https://www.google.com/chrome/"@,
                opt_view(found.chrome),
                process_running(running_names.deep_view(), "chrome.exe"@),
            ),
            entry_is(
                r@[1],
                "edge"@,
                "Microsoft Edge"@,
                "edge://extensions/"@,
                "https://www.microsoft.com/edge"@,
                opt_view(found.edge),
                process_running(running_names.deep_view(), "msedge.exe"@),
            ),
            entry_is(
                r@[2],
                "brave"@,
                "Brave Browser"@,
                "brave://extensions/"@,
                "https://brave.com/download/"@,
                opt_view(found.brave),
                process_running(running_names.deep_view(), "brave.exe"@),
            ),
            entry_is(
                r@[3],
                "firefox"@,
                "Mozilla Firefox"@,
                "about:addons"@,
                "https://www.mozilla.org/firefox/"@,
                opt_view(found.firefox),
                process_running(running_names.deep_view(), "firefox.exe"@),
            ),
            entry_is(
                r@[4],
                "opera"@,
                "Opera"@,
                "opera://extensions"@,
                "https://www.opera.com/download"@,
                opt_view(found.opera),
                process_running(running_names.deep_view(), "opera.exe"@),
            ),
    {
        let mut list: Vec<BrowserInfo> = Vec::new();
        let chrome_running = any_running(running_names, "chrome.exe");
        list.push(
            entry(
                "chrome",
                "Google Chrome",
                "chrome://extensions/",
                "https://www.google.com/chrome/",
                found.chrome,
                chrome_running,
            ),
        );
        let edge_running = any_running(running_names, "msedge.exe");
        list.push(
            entry(
                "edge",
                "Microsoft Edge",
                "edge://extensions/",
                "https://www.microsoft.com/edge",
                found.edge,
                edge_running,
            ),
        );
        let brave_running = any_running(running_names, "brave.exe");
        list.push(
            entry(
                "brave",
                "Brave Browser",
                "brave://extensions/",
                "https://brave.com/download/",
                found.brave,
                brave_running,
            ),
        );
        let firefox_running = any_running(running_names, "firefox.exe");
        list.push(
            entry(
                "firefox",
                "Mozilla Firefox",
                "about:addons",
                "https://www.mozilla.org/firefox/",
                found.firefox,
                firefox_running,
            ),
        );
        let opera_running = any_running(running_names, "opera.exe");
        list.push(
            entry(
                "opera",
                "Opera",
                "opera://extensions",
                "https://www.opera.com/download",
                found.opera,
                opera_running,
            ),
        );
        list
    }

    /// The folder the companion extension is unpacked into: `VDM/extension`
    /// under the user's data folder (or under `.` when there is none).
    /// Each join puts the platform's separator (`\` on Windows, `/`
    /// elsewhere) between the parts; of a base that `Path::join` does not
    /// extend plainly (see `joins_plainly`) nothing is stated.
    pub fn get_extension_dir(data_dir: Option<&str>) -> (r: String)
        ensures
            ({
                let base = match data_dir {
                    Some(d) => d@,
                    None => "."@,
                };
                let n = base.len() as int;
                joins_plainly(base) ==> {
                    &&& r@.len() == n + 14
                    &&& r@.take(n) == base
                    &&& r@[n] == '/' || r@[n] == '\\'
                    &&& r@.subrange(n + 1, n + 4) == "VDM"@
                    &&& r@[n + 4] == '/' || r@[n + 4] == '\\'
                    &&& r@.skip(n + 5) == "extension"@
                }
            }),
    {
        let base = match data_dir {
            Some(d) => owned(d),
            None => owned("."),
        };
        assert(base@ == match data_dir {
            Some(d) => d@,
            None => "."@,
        });
        proof {
            reveal_strlit("VDM");
            reveal_strlit("extension");
            reveal_strlit(".");
        }
        let a = path_join(base.as_str(), "VDM");
        let r = path_join(a.as_str(), "extension");
        proof {
            if joins_plainly(base@) {
                let s1 = a@[base@.len() as int];
                assert(a@ == base@ + seq![s1] + "VDM"@);
                assert(joins_plainly(a@)) by {
                    assert(a@.last() == 'M');
                    if base@.len() == 1 {
                        assert(a@[0] == base@[0]);
                        assert(a@[1] == s1);
                    } else {
                        assert(a@[0] == base@[0]);
                        assert(a@[1] == base@[1]);
                    }
                }
                let s2 = r@[a@.len() as int];
                assert(s1 == '/' || s1 == '\\');
                assert(s2 == '/' || s2 == '\\');
                let n = base@.len() as int;
                assert(r@ == base@ + seq![s1] + "VDM"@ + seq![s2] + "extension"@);
                assert(r@.take(n) =~= base@);
                assert(r@.subrange(n + 1, n + 4) =~= "VDM"@);
                assert(r@.skip(n + 5) =~= "extension"@);
            }
        }
        r
    }
}

} // verus!
