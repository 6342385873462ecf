//! Torrent helpers around the BitTorrent engine: settings, public tracker
//! injection into magnet links, file-type labels, and how a listing or a
//! stats report is turned into what the interface shows.
use vstd::prelude::*;
use vstd::utf8::encode_utf8;
use crate::text::{
    chars_of, string_of, owned, contains, has_sub, has_prefix, starts_with, append, append_str,
    after_last, after_last_vec, to_lowercase, unicode_lower, eq_lit, opt_view,
};
use crate::catalog::{
    torrent_video_ext, is_torrent_video_ext, torrent_audio_ext, is_torrent_audio_ext,
    torrent_archive_ext, is_torrent_archive_ext, torrent_installer_ext, is_torrent_installer_ext,
    torrent_image_ext, is_torrent_image_ext,
};
use crate::probe::{MagnetInfo, MagnetView, try_parse_magnet, magnet_of, magnet_decodable};

verus! {

/// High-speed public trackers added to magnet links, in order.
pub open spec fn public_trackers() -> Seq<Seq<char>> {
    seq![
        "udp://tracker.opentrackr.org:1337/announce"@,
        "udp://open.stealth.si:80/announce"@,
        "udp://tracker.torrent.eu.org:451/announce"@,
        "udp://tracker.openbittorrent.com:6969/announce"@,
        "udp://tracker.openbittorrent.com:80/announce"@,
        "udp://explodie.org:6969/announce"@,
        "udp://p4p.arenabg.com:1337/announce"@,
        "udp://tracker.tiny-vps.com:6969/announce"@,
        "udp://tracker.dler.org:6969/announce"@,
        "udp://tracker.coppersurfer.tk:6969/announce"@,
        "udp://tracker.leechers-paradise.org:6969/announce"@,
        "udp://9.rarbg.to:2920/announce"@,
        "udp://9.rarbg.me:2970/announce"@,
        "udp://tracker.internetwarriors.net:1337/announce"@,
        "udp://tracker.cyberia.is:6969/announce"@,
        "udp://tracker.moeking.me:6969/announce"@,
        "udp://exodus.desync.com:6969/announce"@,
        "udp://open.demonii.com:1337/announce"@,
        "udp://tracker.pomf.se:80/announce"@,
        "udp://tracker.theoks.net:6969/announce"@,
        "udp://tracker.armifi.org:6969/announce"@,
        "http://tracker.openbittorrent.com:80/announce"@,
        "https://opentracker.i2p.rocks:443/announce"@,
    ]
}

/// The public trackers, in order.
pub fn default_public_trackers() -> (r: Vec<&'static str>)
    ensures
        r@.map_values(|t: &str| t@) == public_trackers(),
{
    let r: Vec<&'static str> = vec![
        "udp://tracker.opentrackr.org:1337/announce",
        "udp://open.stealth.si:80/announce",
        "udp://tracker.torrent.eu.org:451/announce",
        "udp://tracker.openbittorrent.com:6969/announce",
        "udp://tracker.openbittorrent.com:80/announce",
        "udp://explodie.org:6969/announce",
        "udp://p4p.arenabg.com:1337/announce",
        "udp://tracker.tiny-vps.com:6969/announce",
        "udp://tracker.dler.org:6969/announce",
        "udp://tracker.coppersurfer.tk:6969/announce",
        "udp://tracker.leechers-paradise.org:6969/announce",
        "udp://9.rarbg.to:2920/announce",
        "udp://9.rarbg.me:2970/announce",
        "udp://tracker.internetwarriors.net:1337/announce",
        "udp://tracker.cyberia.is:6969/announce",
        "udp://tracker.moeking.me:6969/announce",
        "udp://exodus.desync.com:6969/announce",
        "udp://open.demonii.com:1337/announce",
        "udp://tracker.pomf.se:80/announce",
        "udp://tracker.theoks.net:6969/announce",
        "udp://tracker.armifi.org:6969/announce",
        "http://tracker.openbittorrent.com:80/announce",
        "https://opentracker.i2p.rocks:443/announce",
    ];
    assert(r@.map_values(|t: &str| t@) =~= public_trackers());
    r
}

/// Engine settings.
#[derive(Clone, Debug)]
pub struct TorrentSettings {
    /// download limit in bytes per second (`0`: unlimited)
    pub max_download_bps: u64,
    /// upload limit in bytes per second (`0`: unlimited)
    pub max_upload_bps: u64,
    pub max_peers: usize,
    pub enable_dht: bool,
    pub enable_pex: bool,
    pub enable_auto_trackers: bool,
}

impl Default for TorrentSettings {
    /// No limits, 100 peers, DHT, PEX and tracker injection on.
    fn default() -> (r: TorrentSettings)
        ensures
            r.max_download_bps == 0,
            r.max_upload_bps == 0,
            r.max_peers == 100,
            r.enable_dht,
            r.enable_pex,
            r.enable_auto_trackers,
    {
        TorrentSettings {
            max_download_bps: 0,
            max_upload_bps: 0,
            max_peers: 100,
            enable_dht: true,
            enable_pex: true,
            enable_auto_trackers: true,
        }
    }
}

pub open spec fn upper_hex(n: nat) -> char {
    if n < 10 {
        ((n + 48) as u32) as char
    } else {
        ((n + 55) as u32) as char
    }
}

/// A byte left as it is by URL-encoding: ASCII letters, digits, `-._~`.
pub open spec fn unreserved(b: u8) -> bool {
    (48 <= b <= 57) || (65 <= b <= 90) || (97 <= b <= 122) || b == 45 || b == 46 || b == 95 || b
        == 126
}

/// URL-encoding of bytes: unreserved bytes stay, every other byte becomes
/// `%` and two upper-case hex digits.
pub open spec fn url_encoded(b: Seq<u8>) -> Seq<char>
    decreases b.len(),
{
    if b.len() == 0 {
        Seq::empty()
    } else {
        let x = b.last();
        url_encoded(b.drop_last()) + if unreserved(x) {
            seq![(x as u32) as char]
        } else {
            seq!['%', upper_hex((x / 16) as nat), upper_hex((x % 16) as nat)]
        }
    }
}

/// `urlencoding::encode`: the UTF-8 bytes of the text, URL-encoded.
#[verifier::external_body]
fn url_encode(s: &str) -> (r: String)
    ensures
        r@ == url_encoded(encode_utf8(s@)),
{
    urlencoding::encode(s).into_owned()
}

/// The `&tr=` parameter a tracker is added as.
pub open spec fn tracker_param(tr: Seq<char>) -> Seq<char> {
    "&tr="@ + url_encoded(encode_utf8(tr))
}

/// Add each tracker not yet named (encoded or plain) in the link, in order.
pub open spec fn with_trackers(link: Seq<char>, trs: Seq<Seq<char>>) -> Seq<char>
    decreases trs.len(),
{
    if trs.len() == 0 {
        link
    } else {
        let acc = with_trackers(link, trs.drop_last());
        let p = tracker_param(trs.last());
        if !contains(acc, p) && !contains(acc, trs.last()) {
            acc + p
        } else {
            acc
        }
    }
}

/// The link a torrent is added with: a magnet link gets the public trackers
/// it lacks when tracker injection is on; anything else is kept.
pub open spec fn enhanced_link(enable: bool, link: Seq<char>) -> Seq<char> {
    if !enable || !starts_with(link, "magnet:?"@) {
        link
    } else {
        with_trackers(link, public_trackers())
    }
}

impl TorrentSettings {
    /// Append the public trackers a magnet link lacks (see `enhanced_link`).
    pub fn enhance_magnet_url(&self, magnet: &str) -> (r: String)
        ensures
            r@ == enhanced_link(self.enable_auto_trackers, magnet@),
    {
        let mv = chars_of(magnet);
        let pfx = chars_of("magnet:?");
        if !self.enable_auto_trackers || !has_prefix(&mv, &pfx) {
            return owned(magnet);
        }
        let trs = default_public_trackers();
        let ghost ts = public_trackers();
        let mut acc = mv;
        for i in 0..trs.len()
            invariant
                trs@.map_values(|t: &str| t@) == ts,
                acc@ == with_trackers(magnet@, ts.take(i as int)),
        {
            proof {
                assert(ts.take(i + 1).drop_last() =~= ts.take(i as int));
                assert(ts.take(i + 1).last() == ts[i as int]);
                assert(trs[i as int]@ == ts[i as int]);
            }
            let tr = trs[i];
            let enc = url_encode(tr);
            let mut p = chars_of("&tr=");
            append_str(&mut p, enc.as_str());
            let tv = chars_of(tr);
            if !has_sub(&acc, &p) && !has_sub(&acc, &tv) {
                append(&mut acc, &p);
            }
        }
        proof {
            assert(ts.take(ts.len() as int) =~= ts);
        }
        string_of(&acc)
    }
}

/// One file of a torrent listing.
#[derive(Clone, Debug)]
pub struct TorrentFileMetadata {
    pub id: usize,
    pub name: String,
    pub size_bytes: u64,
    pub file_type: String,
}

/// The label a torrent file gets from the lower-cased text after its last dot.
pub open spec fn torrent_kind(ext: Seq<char>) -> Seq<char> {
    if torrent_video_ext(ext) {
        "video"@
    } else if torrent_audio_ext(ext) {
        "audio"@
    } else if torrent_archive_ext(ext) {
        "archive"@
    } else if torrent_installer_ext(ext) {
        "installer"@
    } else if torrent_image_ext(ext) {
        "image"@
    } else {
        "file"@
    }
}

/// The label of a torrent file name (what follows its last dot, lower-cased).
pub open spec fn torrent_file_kind(name: Seq<char>) -> Seq<char> {
    torrent_kind(unicode_lower(after_last(name, "."@)))
}

pub fn torrent_file_type(name: &str) -> (r: String)
    ensures
        r@ == torrent_file_kind(name@),
{
    let v = chars_of(name);
    let dot = chars_of(".");
    let tail = after_last_vec(&v, &dot);
    let ts = string_of(&tail);
    let l = to_lowercase(ts.as_str());
    let e = chars_of(l.as_str());
    let k = if is_torrent_video_ext(&e) {
        "video"
    } else if is_torrent_audio_ext(&e) {
        "audio"
    } else if is_torrent_archive_ext(&e) {
        "archive"
    } else if is_torrent_installer_ext(&e) {
        "installer"
    } else if is_torrent_image_ext(&e) {
        "image"
    } else {
        "file"
    };
    owned(k)
}


pub open spec fn sizes_sum(files: Seq<(Seq<char>, u64)>) -> nat
    decreases files.len(),
{
    if files.len() == 0 {
        0
    } else {
        sizes_sum(files.drop_last()) + files.last().1 as nat
    }
}

/// What a magnet link says of its torrent, when the link can be read.
pub open spec fn link_magnet(link: Seq<char>) -> Option<MagnetView> {
    if magnet_decodable(link) {
        magnet_of(link)
    } else {
        None
    }
}

pub open spec fn magnet_name(m: Option<MagnetView>) -> Option<Seq<char>> {
    match m {
        Some(v) => v.name,
        None => None,
    }
}

pub open spec fn metadata_view(f: TorrentFileMetadata) -> (usize, Seq<char>, u64, Seq<char>) {
    (f.id, f.name@, f.size_bytes, f.file_type@)
}

/// The listing shown before a torrent is added. With the engine's file list
/// (non-empty): the link's name (or `Torrent Package`), the total size, and
/// each file numbered in order with its label. Without it: one entry named
/// after the link (or `Torrent Download`) with the size the link gives (or 0).
pub fn torrent_listing(link: &str, listing: Option<Vec<(String, u64)>>) -> (r: (String, u64, Vec<TorrentFileMetadata>))
    requires
        match listing {
            Some(l) => sizes_sum(l.deep_view()) <= u64::MAX,
            None => true,
        },
    ensures
        ({
            let m = link_magnet(link@);
            match listing {
                Some(l) if l@.len() > 0 => {
                    &&& r.0@ == match magnet_name(m) {
                        Some(n) => n,
                        None => "Torrent Package"@,
                    }
                    &&& r.1 == sizes_sum(l.deep_view())
                    &&& r.2@.len() == l@.len()
                    &&& forall|i: int|
                        0 <= i < l@.len() ==> #[trigger] metadata_view(r.2@[i]) == (
                            i as usize,
                            l.deep_view()[i].0,
                            l.deep_view()[i].1,
                            torrent_file_kind(l.deep_view()[i].0),
                        )
                },
                _ => {
                    let name = match magnet_name(m) {
                        Some(n) => n,
                        None => "Torrent Download"@,
                    };
                    let size = match m {
                        Some(v) => match v.size {
                            Some(z) => z,
                            None => 0,
                        },
                        None => 0,
                    };
                    &&& r.0@ == name
                    &&& r.1 == size
                    &&& r.2@.len() == 1
                    &&& metadata_view(r.2@[0]) == (0usize, name, size, torrent_file_kind(name))
                },
            }
        }),
{
    let m: Option<MagnetInfo> = match try_parse_magnet(link) {
        Some(x) => x,
        None => None,
    };
    let display: Option<String> = match &m {
        Some(info) => match &info.display_name {
            Some(n) => Some(n.clone()),
            None => None,
        },
        None => None,
    };
    match listing {
        Some(l) => {
            if l.len() > 0 {
                let ghost lv = l.deep_view();
                let mut files: Vec<TorrentFileMetadata> = Vec::new();
                let mut total: u64 = 0;
                for i in 0..l.len()
                    invariant
                        lv == l.deep_view(),
                        sizes_sum(lv) <= u64::MAX,
                        total == sizes_sum(lv.take(i as int)),
                        files@.len() == i,
                        forall|j: int|
                            0 <= j < i ==> #[trigger] metadata_view(files@[j]) == (
                                j as usize,
                                lv[j].0,
                                lv[j].1,
                                torrent_file_kind(lv[j].0),
                            ),
                {
                    proof {
                        assert(lv.take(i + 1).drop_last() =~= lv.take(i as int));
                        assert(lv.take(i + 1).last() == lv[i as int]);
                        lemma_sizes_prefix(lv, i + 1);
                    }
                    let name = l[i].0.clone();
                    let size = l[i].1;
                    assert(name@ == lv[i as int].0 && size == lv[i as int].1);
                    total = total + size;
                    let kind = torrent_file_type(name.as_str());
                    files.push(TorrentFileMetadata { id: i, name, size_bytes: size, file_type: kind });
                }
                proof {
                    assert(lv.take(lv.len() as int) =~= lv);
                }
                let name = match display {
                    Some(n) => n,
                    None => owned("Torrent Package"),
                };
                return (name, total, files);
            }
        },
        None => {},
    }
    let name = match display {
        Some(n) => n,
        None => owned("Torrent Download"),
    };
    let size: u64 = match &m {
        Some(info) => match info.total_size {
            Some(z) => z,
            None => 0,
        },
        None => 0,
    };
    let kind = torrent_file_type(name.as_str());
    let mut files: Vec<TorrentFileMetadata> = Vec::new();
    files.push(TorrentFileMetadata { id: 0, name: name.clone(), size_bytes: size, file_type: kind });
    (name, size, files)
}

proof fn lemma_sizes_prefix(files: Seq<(Seq<char>, u64)>, k: int)
    requires
        0 <= k <= files.len(),
    ensures
        sizes_sum(files.take(k)) <= sizes_sum(files),
    decreases files.len(),
{
    if k < files.len() {
        assert(files.drop_last().take(k) =~= files.take(k));
        lemma_sizes_prefix(files.drop_last(), k);
    } else {
        assert(files.take(k) =~= files);
    }
}

/// The engine's phase for a torrent.
#[derive(Clone, Copy, Debug, PartialEq, Eq, Structural)]
pub enum TorrentPhase {
    Initializing,
    Live,
    Paused,
    Error,
}

pub open spec fn phase_name(p: TorrentPhase) -> Seq<char> {
    match p {
        TorrentPhase::Initializing => "initializing"@,
        TorrentPhase::Live => "live"@,
        TorrentPhase::Paused => "paused"@,
        TorrentPhase::Error => "error"@,
    }
}

/// Swarm numbers of a live torrent.
#[derive(Clone, Copy, Debug, PartialEq, Eq, Structural)]
pub struct SwarmCounts {
    pub live_peers: usize,
    pub seen_peers: usize,
    pub fetched_bytes: u64,
}

/// A torrent's progress as the interface shows it.
#[derive(Clone, Debug, Default)]
pub struct TorrentStatsSnapshot {
    pub downloaded_bytes: u64,
    pub uploaded_bytes: u64,
    pub total_bytes: Option<u64>,
    pub fetched_bytes: u64,
    pub download_speed_bps: u64,
    pub upload_speed_bps: u64,
    pub live_peers: usize,
    pub live_seeds: usize,
    pub state_kind: String,
    pub is_finished: bool,
    pub error: Option<String>,
}

/// The snapshot of an engine report: a total only when positive, swarm
/// numbers only while live (seen peers count as seeds), speeds not tracked.
pub fn stats_snapshot(
    phase: TorrentPhase,
    progress_bytes: u64,
    uploaded_bytes: u64,
    total_bytes: u64,
    swarm: Option<SwarmCounts>,
    finished: bool,
    error: Option<String>,
) -> (r: TorrentStatsSnapshot)
    ensures
        r.downloaded_bytes == progress_bytes,
        r.uploaded_bytes == uploaded_bytes,
        r.total_bytes == if total_bytes > 0 {
            Some(total_bytes)
        } else {
            None
        },
        r.fetched_bytes == match swarm {
            Some(c) => c.fetched_bytes,
            None => 0,
        },
        r.download_speed_bps == 0,
        r.upload_speed_bps == 0,
        r.live_peers == match swarm {
            Some(c) => c.live_peers,
            None => 0,
        },
        r.live_seeds == match swarm {
            Some(c) => c.seen_peers,
            None => 0,
        },
        r.state_kind@ == phase_name(phase),
        r.is_finished == finished,
        opt_view(r.error) == opt_view(error),
{
    let kind = match phase {
        TorrentPhase::Initializing => "initializing",
        TorrentPhase::Live => "live",
        TorrentPhase::Paused => "paused",
        TorrentPhase::Error => "error",
    };
    let (peers, seeds, fetched) = match swarm {
        Some(c) => (c.live_peers, c.seen_peers, c.fetched_bytes),
        None => (0, 0, 0),
    };
    TorrentStatsSnapshot {
        downloaded_bytes: progress_bytes,
        uploaded_bytes,
        total_bytes: if total_bytes > 0 {
            Some(total_bytes)
        } else {
            None
        },
        fetched_bytes: fetched,
        download_speed_bps: 0,
        upload_speed_bps: 0,
        live_peers: peers,
        live_seeds: seeds,
        state_kind: owned(kind),
        is_finished: finished,
        error,
    }
}


proof fn lemma_contains_extend(a: Seq<char>, b: Seq<char>, x: Seq<char>)
    requires
        contains(a, x),
    ensures
        contains(a + b, x),
{
    let i = choose|i: int| crate::text::occurs_at(a, x, i);
    assert((a + b).subrange(i, i + x.len()) =~= a.subrange(i, i + x.len()));
    assert(crate::text::occurs_at(a + b, x, i));
}

proof fn lemma_contains_tail(a: Seq<char>, x: Seq<char>)
    ensures
        contains(a + x, x),
{
    assert((a + x).subrange(a.len() as int, (a.len() + x.len()) as int) =~= x);
    assert(crate::text::occurs_at(a + x, x, a.len() as int));
}

/// Adding trackers only appends to the link.
proof fn lemma_trackers_extend(link: Seq<char>, trs: Seq<Seq<char>>)
    ensures
        with_trackers(link, trs).len() >= link.len(),
        with_trackers(link, trs).take(link.len() as int) == link,
    decreases trs.len(),
{
    if trs.len() > 0 {
        lemma_trackers_extend(link, trs.drop_last());
        let acc = with_trackers(link, trs.drop_last());
        let p = tracker_param(trs.last());
        assert((acc + p).take(link.len() as int) =~= acc.take(link.len() as int));
    }
}

/// After adding, every tracker of the list is named in the link.
proof fn lemma_trackers_named(link: Seq<char>, trs: Seq<Seq<char>>)
    ensures
        forall|j: int|
            0 <= j < trs.len() ==> contains(with_trackers(link, trs), tracker_param(#[trigger] trs[j]))
                || contains(with_trackers(link, trs), trs[j]),
    decreases trs.len(),
{
    if trs.len() > 0 {
        let prev = trs.drop_last();
        lemma_trackers_named(link, prev);
        let acc = with_trackers(link, prev);
        let last = trs[trs.len() - 1];
        assert(last == trs.last());
        let p = tracker_param(last);
        let cond = !contains(acc, p) && !contains(acc, last);
        let r = with_trackers(link, trs);
        assert(r == if cond {
            acc + p
        } else {
            acc
        });
        assert forall|j: int| 0 <= j < trs.len() implies contains(r, tracker_param(#[trigger] trs[j]))
            || contains(r, trs[j]) by {
            if j < trs.len() - 1 {
                assert(trs[j] == prev[j]);
                assert(contains(acc, tracker_param(prev[j])) || contains(acc, prev[j]));
                if cond {
                    if contains(acc, tracker_param(trs[j])) {
                        lemma_contains_extend(acc, p, tracker_param(trs[j]));
                    } else {
                        lemma_contains_extend(acc, p, trs[j]);
                    }
                }
            } else {
                if cond {
                    lemma_contains_tail(acc, p);
                }
            }
        }
    }
}

/// A link that already names every tracker gains nothing.
proof fn lemma_trackers_settled(r: Seq<char>, trs: Seq<Seq<char>>)
    requires
        forall|j: int| 0 <= j < trs.len() ==> contains(r, tracker_param(#[trigger] trs[j])) || contains(r, trs[j]),
    ensures
        with_trackers(r, trs) == r,
    decreases trs.len(),
{
    if trs.len() > 0 {
        let prev = trs.drop_last();
        assert forall|j: int| 0 <= j < prev.len() implies contains(r, tracker_param(#[trigger] prev[j]))
            || contains(r, prev[j]) by {
            assert(prev[j] == trs[j]);
        }
        lemma_trackers_settled(r, prev);
        assert(contains(r, tracker_param(trs[trs.len() - 1])) || contains(r, trs[trs.len() - 1]));
    }
}

/// Tracker injection is idempotent: enhancing an enhanced link changes nothing.
pub proof fn lemma_enhance_idempotent(enable: bool, link: Seq<char>)
    ensures
        enhanced_link(enable, enhanced_link(enable, link)) == enhanced_link(enable, link),
{
    if enable && starts_with(link, "magnet:?"@) {
        let r = with_trackers(link, public_trackers());
        lemma_trackers_extend(link, public_trackers());
        assert(r.subrange(0, "magnet:?"@.len() as int) =~= link.subrange(0, "magnet:?"@.len() as int)) by {
            assert(r.take(link.len() as int) == link);
            assert forall|i: int| 0 <= i < "magnet:?"@.len() implies r[i] == link[i] by {
                assert(r.take(link.len() as int)[i] == r[i]);
            }
        }
        assert(starts_with(r, "magnet:?"@));
        lemma_trackers_named(link, public_trackers());
        lemma_trackers_settled(r, public_trackers());
    }
}

/// Enhancing a magnet link (with tracker injection on) keeps the link as
/// its prefix, leaves every public tracker named in it (plain or as an
/// encoded `&tr=` parameter), and a second enhancement changes nothing.
/// Anything else comes back as it was.
pub proof fn lemma_enhanced_link_keeps_and_names(enable: bool, link: Seq<char>)
    ensures
        ({
            let r = enhanced_link(enable, link);
            &&& r.len() >= link.len()
            &&& r.take(link.len() as int) == link
            &&& enable && starts_with(link, "magnet:?"@) ==> forall|j: int|
                0 <= j < public_trackers().len() ==> contains(r, tracker_param(#[trigger] public_trackers()[j]))
                    || contains(r, public_trackers()[j])
            &&& !(enable && starts_with(link, "magnet:?"@)) ==> r == link
            &&& enhanced_link(enable, r) == r
        }),
{
    lemma_enhance_idempotent(enable, link);
    if enable && starts_with(link, "magnet:?"@) {
        lemma_trackers_extend(link, public_trackers());
        lemma_trackers_named(link, public_trackers());
    } else {
        assert(link.take(link.len() as int) =~= link);
    }
}

} // verus!
