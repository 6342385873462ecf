//! Video-site links: recognising them, what the stream extractor is asked,
//! which of its output lines are stream URLs, the headers a stream is
//! fetched with, and how audio and video are muxed.
use vstd::prelude::*;
use crate::text::{
    Strip, chars_of, string_of, owned, contains, has_sub, find, find_idx, first_occurrence,
    lemma_find_idx, split_once_seq, split_once_char, split_seq, split_char, trim, strip, starts_with,
    has_prefix, ends_with, has_suffix, append, append_str, to_lowercase, unicode_lower, slice,
    eq_ignore_case, lower, ext_rule, plain_name, path_extension, opt_view, vec_eq, trim_ws,
};

verus! {

/// A link to a video page or stream the extractor handles.
pub open spec fn youtube_link(url: Seq<char>) -> bool {
    let l = unicode_lower(url);
    ||| contains(l, "youtube.com/watch"@)
    ||| contains(l, "youtu.be/"@)
    ||| contains(l, "youtube.com/shorts/"@)
    ||| contains(l, "youtube.com/embed/"@)
    ||| contains(l, "googlevideo.com/videoplayback"@)
}

fn holds(v: &Vec<char>, p: &str) -> (r: bool)
    ensures
        r == contains(v@, p@),
{
    let pv = chars_of(p);
    has_sub(v, &pv)
}

/// Whether a link goes to the stream extractor (see `youtube_link`).
pub fn is_youtube(url: &str) -> (r: bool)
    ensures
        r == youtube_link(url@),
{
    let l = to_lowercase(url);
    let v = chars_of(l.as_str());
    holds(&v, "youtube.com/watch") || holds(&v, "youtu.be/") || holds(&v, "youtube.com/shorts/")
        || holds(&v, "youtube.com/embed/") || holds(&v, "googlevideo.com/videoplayback")
}

/// The headers a video stream is fetched with, in order.
pub open spec fn youtube_headers() -> Seq<(Seq<char>, Seq<char>)> {
    seq![
        ("User-Agent"@, "Mozilla/5.0 (Windows NT 10.0; Win64; x64) AppleWebKit/537.36 (KHTML, like Gecko) Chrome/126.0.0.0 Safari/537.36"@),
        ("Referer"@, "https://www.youtube.com/"@),
        ("Origin"@, "https://www.youtube.com"@),
        ("Sec-Fetch-Dest"@, "video"@),
        ("Sec-Fetch-Mode"@, "cors"@),
        ("Sec-Fetch-Site"@, "cross-site"@),
        ("Accept"@, "*/*"@),
        ("Accept-Language"@, "en-US,en;q=0.9"@),
    ]
}

fn pair(k: &str, v: &str) -> (r: (String, String))
    ensures
        r.0@ == k@,
        r.1@ == v@,
{
    (owned(k), owned(v))
}

/// The headers a video stream is fetched with (see `youtube_headers`).
pub fn default_youtube_headers() -> (r: Vec<(String, String)>)
    ensures
        r.deep_view() == youtube_headers(),
{
    let mut h: Vec<(String, String)> = Vec::new();
    h.push(pair("User-Agent", "Mozilla/5.0 (Windows NT 10.0; Win64; x64) AppleWebKit/537.36 (KHTML, like Gecko) Chrome/126.0.0.0 Safari/537.36"));
    h.push(pair("Referer", "https://www.youtube.com/"));
    h.push(pair("Origin", "https://www.youtube.com"));
    h.push(pair("Sec-Fetch-Dest", "video"));
    h.push(pair("Sec-Fetch-Mode", "cors"));
    h.push(pair("Sec-Fetch-Site", "cross-site"));
    h.push(pair("Accept", "*/*"));
    h.push(pair("Accept-Language", "en-US,en;q=0.9"));
    assert(h.deep_view() =~= youtube_headers());
    h
}


/// The link the extractor is given: a watch link's trailing `&itag=`
/// filter is dropped (a raw stream link keeps its query as it is).
pub open spec fn clean_link(url: Seq<char>) -> Seq<char> {
    if contains(url, "googlevideo.com"@) {
        url
    } else if contains(url, "&itag="@) {
        url.take(find_idx(url, "&itag="@))
    } else {
        url
    }
}

pub fn clean_stream_url(url: &str) -> (r: String)
    ensures
        r@ == clean_link(url@),
{
    let v = chars_of(url);
    if holds(&v, "googlevideo.com") {
        return owned(url);
    }
    let pat = chars_of("&itag=");
    match find(&v, &pat) {
        Some(i) => {
            proof {
                lemma_find_idx(v@, pat@, i as int);
            }
            string_of(&slice(&v, 0, i))
        },
        None => owned(url),
    }
}

/// The format the extractor is asked for: best audio for an audio file, the
/// format a link names, else best video with best audio.
pub open spec fn format_choice(format: Option<Seq<char>>, is_audio: bool) -> Seq<char> {
    if is_audio {
        "bestaudio/best"@
    } else {
        match format {
            Some(f) => f,
            None => "bestvideo+bestaudio/best"@,
        }
    }
}

/// The extractor's arguments: print stream URLs, no warnings, the format, the link.
pub open spec fn extractor_args_spec(url: Seq<char>, format: Option<Seq<char>>, is_audio: bool) -> Seq<Seq<char>> {
    seq!["-g"@, "--no-warnings"@, "-f"@, format_choice(format, is_audio), clean_link(url)]
}

pub fn extractor_args(url: &str, format: Option<&str>, is_audio: bool) -> (r: Vec<String>)
    ensures
        r.deep_view() == extractor_args_spec(url@, match format {
            Some(f) => Some(f@),
            None => None,
        }, is_audio),
{
    let mut a: Vec<String> = Vec::new();
    a.push(owned("-g"));
    a.push(owned("--no-warnings"));
    a.push(owned("-f"));
    if is_audio {
        a.push(owned("bestaudio/best"));
    } else {
        match format {
            Some(f) => a.push(owned(f)),
            None => a.push(owned("bestvideo+bestaudio/best")),
        }
    }
    a.push(clean_stream_url(url));
    assert(a.deep_view() =~= extractor_args_spec(url@, match format {
        Some(f) => Some(f@),
        None => None,
    }, is_audio));
    a
}

/// The trimmed lines that are HTTP(S) URLs, in order.
pub open spec fn http_lines(lines: Seq<Seq<char>>) -> Seq<Seq<char>>
    decreases lines.len(),
{
    if lines.len() == 0 {
        Seq::empty()
    } else {
        let t = trim(lines.last());
        if starts_with(t, "http://"@) || starts_with(t, "https://"@) {
            http_lines(lines.drop_last()).push(t)
        } else {
            http_lines(lines.drop_last())
        }
    }
}

/// The stream URLs the extractor printed: the first (video, or the only
/// stream) and the second (audio), if any; an error when there is none.
pub fn stream_urls(output: &str) -> (r: Result<(String, Option<String>), String>)
    ensures
        ({
            let urls = http_lines(split_seq(output@, '\n'));
            &&& urls.len() == 0 ==> r is Err && r->Err_0@ == "No playable stream URLs found"@
            &&& urls.len() >= 1 ==> r is Ok && r->Ok_0.0@ == urls[0] && opt_view(r->Ok_0.1) == if urls.len() >= 2 {
                Some(urls[1])
            } else {
                None
            }
        }),
{
    let v = chars_of(output);
    let lines = split_char(&v, '\n');
    let ghost ls = lines.deep_view();
    let mut urls: Vec<Vec<char>> = Vec::new();
    let http = chars_of("http://");
    let https = chars_of("https://");
    for i in 0..lines.len()
        invariant
            ls == lines.deep_view(),
            http@ == "http://"@,
            https@ == "https://"@,
            urls.deep_view() == http_lines(ls.take(i as int)),
    {
        proof {
            assert(ls.take(i + 1).drop_last() =~= ls.take(i as int));
            assert(ls.take(i + 1).last() == ls[i as int]);
            assert(lines[i as int]@ == ls[i as int]);
        }
        let t = strip(&lines[i], &Strip::Ws);
        if has_prefix(&t, &http) || has_prefix(&t, &https) {
            let ghost before = urls.deep_view();
            let ghost tv = t@;
            assert(t.deep_view() =~= t@);
            urls.push(t);
            proof {
                assert(urls.deep_view() =~= before.push(tv));
            }
        }
    }
    proof {
        assert(ls.take(ls.len() as int) =~= ls);
    }
    if urls.len() == 0 {
        return Err(owned("No playable stream URLs found"));
    }
    assert(urls[0]@ == urls.deep_view()[0]);
    let first = string_of(&urls[0]);
    if urls.len() >= 2 {
        assert(urls[1]@ == urls.deep_view()[1]);
        Ok((first, Some(string_of(&urls[1]))))
    } else {
        Ok((first, None))
    }
}

/// The message an extractor failure is reported with.
pub fn extraction_error(stderr: &str) -> (r: String)
    ensures
        r@ == "URL extraction error: "@ + trim(stderr@),
{
    let v = chars_of(stderr);
    let t = strip(&v, &Strip::Ws);
    let mut out = chars_of("URL extraction error: ");
    append(&mut out, &t);
    string_of(&out)
}

/// The format a watch link pins with `itag=`: the value up to the next
/// `&` (or the next `itag=`), followed by `+bestaudio/best`.
pub open spec fn itag_format(url: Seq<char>) -> Option<Seq<char>> {
    if contains(url, "itag="@) {
        let after = url.skip(find_idx(url, "itag="@) + 5);
        let seg = if contains(after, "itag="@) {
            after.take(find_idx(after, "itag="@))
        } else {
            after
        };
        Some(split_once_seq(seg, '&').0 + "+bestaudio/best"@)
    } else {
        None
    }
}

/// An audio-only file is wanted: the name ends in `.mp3` or `.m4a`, in any case.
pub open spec fn audio_name(filename: Seq<char>) -> bool {
    let l = unicode_lower(filename);
    ends_with(l, ".mp3"@) || ends_with(l, ".m4a"@)
}

/// What the extractor is asked for a stored download: whether only audio
/// is wanted, and the format its link pins.
pub fn stream_request(url: &str, filename: &str) -> (r: (bool, Option<String>))
    ensures
        r.0 == audio_name(filename@),
        opt_view(r.1) == itag_format(url@),
{
    let l = to_lowercase(filename);
    let lv = chars_of(l.as_str());
    let mp3 = chars_of(".mp3");
    let m4a = chars_of(".m4a");
    let is_audio = has_suffix(&lv, &mp3) || has_suffix(&lv, &m4a);
    let v = chars_of(url);
    let pat = chars_of("itag=");
    let fmt = match find(&v, &pat) {
        Some(i) => {
            proof {
                lemma_find_idx(v@, pat@, i as int);
                reveal_strlit("itag=");
            }
            assert(pat@.len() == 5);
            let vl = v.len();
            assert(i + 5 <= vl);
            let after = slice(&v, i + 5, vl);
            assert(after@ =~= v@.skip(i + 5));
            let seg = match find(&after, &pat) {
                Some(j) => {
                    proof {
                        lemma_find_idx(after@, pat@, j as int);
                    }
                    slice(&after, 0, j)
                },
                None => after,
            };
            let (it, _) = split_once_char(&seg, '&');
            let mut f = it;
            append_str(&mut f, "+bestaudio/best");
            Some(string_of(&f))
        },
        None => None,
    };
    (is_audio, fmt)
}

/// `k` is where key `key` first occurs in a header list.
pub open spec fn key_first(h: Seq<(Seq<char>, Seq<char>)>, key: Seq<char>, k: int) -> bool {
    0 <= k < h.len() && h[k].0 == key && forall|j: int| 0 <= j < k ==> (#[trigger] h[j]).0 != key
}

/// Setting a header: the value of an existing key is replaced in place, a
/// new key is added at the end.
pub open spec fn header_set(h: Seq<(Seq<char>, Seq<char>)>, kv: (Seq<char>, Seq<char>)) -> Seq<(Seq<char>, Seq<char>)> {
    if exists|k: int| key_first(h, kv.0, k) {
        h.update(choose|k: int| key_first(h, kv.0, k), kv)
    } else {
        h.push(kv)
    }
}

/// Headers `extra` set over `base`, one after the other.
pub open spec fn headers_merged(base: Seq<(Seq<char>, Seq<char>)>, extra: Seq<(Seq<char>, Seq<char>)>) -> Seq<(Seq<char>, Seq<char>)>
    decreases extra.len(),
{
    if extra.len() == 0 {
        base
    } else {
        header_set(headers_merged(base, extra.drop_last()), extra.last())
    }
}

proof fn lemma_key_first_unique(h: Seq<(Seq<char>, Seq<char>)>, key: Seq<char>, k: int)
    requires
        key_first(h, key, k),
    ensures
        (choose|j: int| key_first(h, key, j)) == k,
{
    let j = choose|j: int| key_first(h, key, j);
    assert(key_first(h, key, j));
    if j < k {
        assert(h[j].0 != key);
    } else if k < j {
        assert(h[k].0 != key);
    }
}

/// The value a header list gives a key: that of its first entry with the key.
pub open spec fn header_lookup(h: Seq<(Seq<char>, Seq<char>)>, key: Seq<char>) -> Option<Seq<char>> {
    if exists|k: int| key_first(h, key, k) {
        Some(h[choose|k: int| key_first(h, key, k)].1)
    } else {
        None
    }
}

/// The value the last pair of `extra` with key `key` carries, if any.
pub open spec fn last_value(extra: Seq<(Seq<char>, Seq<char>)>, key: Seq<char>) -> Option<Seq<char>>
    decreases extra.len(),
{
    if extra.len() == 0 {
        None
    } else if extra.last().0 == key {
        Some(extra.last().1)
    } else {
        last_value(extra.drop_last(), key)
    }
}

/// No key occurs twice in a header list.
pub open spec fn keys_unique(h: Seq<(Seq<char>, Seq<char>)>) -> bool {
    forall|a: int, b: int| 0 <= a < b < h.len() ==> (#[trigger] h[a]).0 != (#[trigger] h[b]).0
}

proof fn lemma_header_set_lookup(h: Seq<(Seq<char>, Seq<char>)>, kv: (Seq<char>, Seq<char>), key: Seq<char>)
    ensures
        header_lookup(header_set(h, kv), key) == if kv.0 == key {
            Some(kv.1)
        } else {
            header_lookup(h, key)
        },
        keys_unique(h) ==> keys_unique(header_set(h, kv)),
{
    let h2 = header_set(h, kv);
    if exists|k: int| key_first(h, kv.0, k) {
        let p = choose|k: int| key_first(h, kv.0, k);
        assert(h2 == h.update(p, kv));
        assert forall|j: int| 0 <= j < h.len() implies (#[trigger] h2[j]).0 == h[j].0 by {}
        if kv.0 == key {
            assert(key_first(h2, key, p));
            lemma_key_first_unique(h2, key, p);
        } else {
            if exists|k: int| key_first(h, key, k) {
                let q = choose|k: int| key_first(h, key, k);
                assert(key_first(h2, key, q));
                lemma_key_first_unique(h2, key, q);
                assert(q != p);
            } else {
                assert forall|k: int| !key_first(h2, key, k) by {
                    if key_first(h2, key, k) {
                        assert(k < h.len());
                        assert forall|j: int| 0 <= j < k implies (#[trigger] h[j]).0 != key by {
                            assert(h2[j] == h[j] || h2[j].0 == h[j].0);
                        }
                        assert(key_first(h, key, k));
                    }
                }
            }
        }
    } else {
        assert(h2 == h.push(kv));
        if kv.0 == key {
            assert forall|j: int| 0 <= j < h.len() implies (#[trigger] h[j]).0 != key by {
                if h[j].0 == key {
                    lemma_first_key_exists(h, key, j);
                }
            }
            assert(key_first(h2, key, h.len() as int));
            lemma_key_first_unique(h2, key, h.len() as int);
        } else {
            if exists|k: int| key_first(h, key, k) {
                let q = choose|k: int| key_first(h, key, k);
                assert(key_first(h2, key, q));
                lemma_key_first_unique(h2, key, q);
            } else {
                assert forall|k: int| !key_first(h2, key, k) by {
                    if key_first(h2, key, k) {
                        assert(k < h.len());
                        assert forall|j: int| 0 <= j < k implies (#[trigger] h[j]).0 != key by {
                            assert(h2[j] == h[j] || h2[j].0 == h[j].0);
                        }
                        assert(key_first(h, key, k));
                    }
                }
            }
        }
        if keys_unique(h) {
            assert forall|a: int, b: int| 0 <= a < b < h2.len() implies (#[trigger] h2[a]).0
                != (#[trigger] h2[b]).0 by {
                if b == h.len() && h[a].0 == kv.0 {
                    lemma_first_key_exists(h, kv.0, a);
                }
            }
        }
    }
}

proof fn lemma_first_key_exists(h: Seq<(Seq<char>, Seq<char>)>, key: Seq<char>, i: int)
    requires
        0 <= i < h.len(),
        h[i].0 == key,
    ensures
        exists|k: int| key_first(h, key, k),
    decreases i,
{
    if forall|j: int| 0 <= j < i ==> (#[trigger] h[j]).0 != key {
        assert(key_first(h, key, i));
    } else {
        let j = choose|j: int| 0 <= j < i && (#[trigger] h[j]).0 == key;
        lemma_first_key_exists(h, key, j);
    }
}

/// Merged headers behave as a map: a key gets the value the download's own
/// headers set last, else the value it had before; and no key occurs twice
/// when none did before.
pub proof fn lemma_merged_headers_lookup(
    base: Seq<(Seq<char>, Seq<char>)>,
    extra: Seq<(Seq<char>, Seq<char>)>,
    key: Seq<char>,
)
    ensures
        header_lookup(headers_merged(base, extra), key) == match last_value(extra, key) {
            Some(v) => Some(v),
            None => header_lookup(base, key),
        },
        keys_unique(base) ==> keys_unique(headers_merged(base, extra)),
    decreases extra.len(),
{
    if extra.len() > 0 {
        lemma_merged_headers_lookup(base, extra.drop_last(), key);
        lemma_header_set_lookup(headers_merged(base, extra.drop_last()), extra.last(), key);
    }
}

/// The stream's headers: `extra` (the download's own) set over `base`.
pub fn merge_headers(base: Vec<(String, String)>, extra: &Vec<(String, String)>) -> (r: Vec<(String, String)>)
    ensures
        r.deep_view() == headers_merged(base.deep_view(), extra.deep_view()),
{
    let mut h = base;
    let ghost b0 = h.deep_view();
    let ghost ev = extra.deep_view();
    for i in 0..extra.len()
        invariant
            ev == extra.deep_view(),
            h.deep_view() == headers_merged(b0, ev.take(i as int)),
    {
        proof {
            assert(ev.take(i + 1).drop_last() =~= ev.take(i as int));
            assert(ev.take(i + 1).last() == ev[i as int]);
        }
        let (k, v) = (extra[i].0.clone(), extra[i].1.clone());
        assert(k@ == ev[i as int].0 && v@ == ev[i as int].1);
        let kv = chars_of(k.as_str());
        let ghost hv = h.deep_view();
        let mut found: Option<usize> = None;
        for j in 0..h.len()
            invariant
                hv == h.deep_view(),
                kv@ == k@,
                found is None ==> forall|m: int| 0 <= m < j ==> (#[trigger] hv[m]).0 != k@,
                match found {
                    Some(m) => key_first(hv, k@, m as int),
                    None => true,
                },
        {
            if found.is_none() {
                let hk = chars_of(h[j].0.as_str());
                if vec_eq(&hk, &kv) {
                    assert(hv[j as int].0 == h[j as int].0@);
                    found = Some(j);
                } else {
                    assert(hv[j as int].0 == h[j as int].0@);
                }
            }
        }
        match found {
            Some(m) => {
                proof {
                    lemma_key_first_unique(hv, k@, m as int);
                }
                h.set(m, (k, v));
                proof {
                    assert(h.deep_view() =~= hv.update(m as int, ev[i as int]));
                }
            },
            None => {
                h.push((k, v));
                proof {
                    assert(!exists|q: int| key_first(hv, k@, q));
                    assert(h.deep_view() =~= hv.push(ev[i as int]));
                }
            },
        }
    }
    proof {
        assert(ev.take(ev.len() as int) =~= ev);
    }
    h
}

/// The audio codecs tried when muxing, in order: WebM takes Opus or Vorbis,
/// other containers AAC or MP3; stream copy is tried first.
pub open spec fn mux_codec_list(webm: bool) -> Seq<Seq<char>> {
    if webm {
        seq!["copy"@, "libopus"@, "opus"@, "libvorbis"@]
    } else {
        seq!["copy"@, "aac"@, "libmp3lame"@]
    }
}

/// An extension names WebM: it is `webm` in any ASCII case.
pub open spec fn webm_ext(ext: Option<Seq<char>>) -> bool {
    match ext {
        Some(e) => lower(e) == lower("webm"@),
        None => false,
    }
}

/// The codecs tried for an output with the given extension (see
/// `mux_codec_list`).
pub fn codecs_for_extension(ext: Option<&str>) -> (r: Vec<String>)
    ensures
        r.deep_view() == mux_codec_list(webm_ext(match ext {
            Some(e) => Some(e@),
            None => None,
        })),
{
    let webm = match ext {
        Some(e) => {
            let ev = chars_of(e);
            let w = chars_of("webm");
            eq_ignore_case(&ev, &w)
        },
        None => false,
    };
    let mut r: Vec<String> = Vec::new();
    r.push(owned("copy"));
    if webm {
        r.push(owned("libopus"));
        r.push(owned("opus"));
        r.push(owned("libvorbis"));
    } else {
        r.push(owned("aac"));
        r.push(owned("libmp3lame"));
    }
    assert(r.deep_view() =~= mux_codec_list(webm));
    r
}

/// The codecs tried when muxing into `output`, by its extension as
/// `Path::extension` reads it (for a plain name, `ext_rule`). Of an output
/// path that is not a plain name the platform's path rules pick the
/// extension, and only that one of the two lists comes back is stated.
pub fn mux_codecs(output: &str) -> (r: Vec<String>)
    ensures
        plain_name(output@) ==> r.deep_view() == mux_codec_list(webm_ext(ext_rule(output@))),
        r.deep_view() == mux_codec_list(true) || r.deep_view() == mux_codec_list(false),
{
    match path_extension(output) {
        Some(e) => codecs_for_extension(Some(e.as_str())),
        None => codecs_for_extension(None),
    }
}

/// The muxer's arguments: overwrite, both inputs, the first video and the
/// first audio stream, video copied, audio in the given codec, the output.
pub open spec fn mux_args_spec(video: Seq<char>, audio: Seq<char>, output: Seq<char>, codec: Seq<char>) -> Seq<Seq<char>> {
    seq![
        "-y"@, "-i"@, video, "-i"@, audio, "-map"@, "0:v:0"@, "-map"@, "1:a:0"@, "-c:v"@, "copy"@,
        "-c:a"@, codec, output,
    ]
}

pub fn mux_args(video: &str, audio: &str, output: &str, codec: &str) -> (r: Vec<String>)
    ensures
        r.deep_view() == mux_args_spec(video@, audio@, output@, codec@),
{
    let mut a: Vec<String> = Vec::new();
    a.push(owned("-y"));
    a.push(owned("-i"));
    a.push(owned(video));
    a.push(owned("-i"));
    a.push(owned(audio));
    a.push(owned("-map"));
    a.push(owned("0:v:0"));
    a.push(owned("-map"));
    a.push(owned("1:a:0"));
    a.push(owned("-c:v"));
    a.push(owned("copy"));
    a.push(owned("-c:a"));
    a.push(owned(codec));
    a.push(owned(output));
    assert(a.deep_view() =~= mux_args_spec(video@, audio@, output@, codec@));
    a
}

/// The path a program lookup (`where`) printed first: the first line of its
/// output, trimmed; `None` when it printed nothing at all.
pub fn first_listed_path(output: &str) -> (r: Option<String>)
    ensures
        output@.len() == 0 ==> r is None,
        output@.len() > 0 ==> (r matches Some(p) && p@ == trim(split_once_seq(output@, '\n').0)),
{
    let v = chars_of(output);
    if v.len() == 0 {
        return None;
    }
    let (line, _) = split_once_char(&v, '\n');
    let t = trim_ws(&line);
    Some(string_of(&t))
}

} // verus!
