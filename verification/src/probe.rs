//! Pre-flight inspection: percent-decoding, magnet links, Content-Disposition
//! file names, MIME extensions, safe file names, names inferred from URLs,
//! and the probe result read off a response.
use vstd::prelude::*;
use vstd::utf8::{encode_utf8, is_continuation_byte, valid_utf8, decode_utf8, is_ascii_chars};
use crate::text::{
    Strip, chars_of, string_of, lower, lower_vec, upper, upper_vec, trim, trim_by, trim_ws, strip,
    split_seq, split_char, split_once_seq, split_once_char, starts_with, ends_with, contains,
    first_occurrence, find, find_idx, lemma_find_idx, has_prefix, has_suffix, has_sub, has_char,
    slice, append, append_str, vec_eq, eq_lit, after_last, after_last_vec, parse_u64, parse_u64_spec,
    is_ws, trim_start_by, trim_end_by, strip_hit, occurs_at, strip_suffix_all, strip_suffix_all_vec,
    replace_char, replace_char_vec, concat, opt_view, plain_name,
};

verus! {

// ------------------------------------------------------------------
// percent-decoding
// ------------------------------------------------------------------

pub open spec fn hex_digit(b: u8) -> bool {
    (48 <= b <= 57) || (65 <= b <= 70) || (97 <= b <= 102)
}

pub open spec fn hex_val(b: u8) -> int {
    if b <= 57 {
        b - 48
    } else if b <= 70 {
        b - 55
    } else {
        b - 87
    }
}

/// `u8::from_str_radix(xy, 16)` on the two bytes after a `%` (a leading `+` is a sign).
pub open spec fn hex_pair(a: u8, b: u8) -> Option<u8> {
    if a == 43 {
        if hex_digit(b) {
            Some(hex_val(b) as u8)
        } else {
            None
        }
    } else if hex_digit(a) && hex_digit(b) {
        Some((hex_val(a) * 16 + hex_val(b)) as u8)
    } else {
        None
    }
}

pub open spec fn prepend(p: Seq<u8>, o: Option<Seq<u8>>) -> Option<Seq<u8>> {
    match o {
        Some(r) => Some(p + r),
        None => None,
    }
}

/// The bytes that percent-decoding a UTF-8 byte string yields: `%XY` becomes
/// the byte `0xXY`, `+` a space, anything else stays. `None` where the two
/// bytes after a `%` end inside a multi-byte character (slicing there panics).
pub open spec fn pd_bytes(b: Seq<u8>) -> Option<Seq<u8>>
    decreases b.len(),
{
    if b.len() == 0 {
        Some(Seq::empty())
    } else if b[0] == 37 && 2 < b.len() {
        if 3 < b.len() && is_continuation_byte(b[3]) {
            None
        } else {
            match hex_pair(b[1], b[2]) {
                Some(n) => prepend(seq![n], pd_bytes(b.skip(3))),
                None => prepend(seq![37u8], pd_bytes(b.skip(1))),
            }
        }
    } else if b[0] == 43 {
        prepend(seq![32u8], pd_bytes(b.skip(1)))
    } else {
        prepend(seq![b[0]], pd_bytes(b.skip(1)))
    }
}

/// Percent-decoding this text does not hit a split character.
pub open spec fn decodable(s: Seq<char>) -> bool {
    pd_bytes(encode_utf8(s)) is Some
}

/// What `String::from_utf8_lossy` makes of a byte string: invalid sequences
/// become U+FFFD.
pub uninterp spec fn utf8_lossy(b: Seq<u8>) -> Seq<char>;

/// The text percent-decoding yields (decoded bytes read as lossy UTF-8).
pub open spec fn percent_decoded(s: Seq<char>) -> Seq<char> {
    utf8_lossy(pd_bytes(encode_utf8(s))->0)
}

/// `String::from_utf8_lossy(..).into_owned()`: the text named by
/// `utf8_lossy`; valid UTF-8 comes back as the characters it encodes.
#[verifier::external_body]
pub(crate) fn lossy_string(b: &Vec<u8>) -> (s: String)
    ensures
        s@ == utf8_lossy(b@),
        valid_utf8(b@) ==> s@ == decode_utf8(b@),
{
    String::from_utf8_lossy(b).into_owned()
}

fn hex_value(b: u8) -> (r: Option<u8>)
    ensures
        match r {
            Some(v) => hex_digit(b) && v == hex_val(b),
            None => !hex_digit(b),
        },
{
    if 48 <= b && b <= 57 {
        Some(b - 48)
    } else if 65 <= b && b <= 70 {
        Some(b - 55)
    } else if 97 <= b && b <= 102 {
        Some(b - 87)
    } else {
        None
    }
}

fn hex_pair_exec(a: u8, b: u8) -> (r: Option<u8>)
    ensures
        r == hex_pair(a, b),
{
    if a == 43 {
        return hex_value(b);
    }
    match (hex_value(a), hex_value(b)) {
        (Some(x), Some(y)) => Some(x * 16 + y),
        _ => None,
    }
}

proof fn lemma_prepend_assoc(a: Seq<u8>, b: Seq<u8>, o: Option<Seq<u8>>)
    ensures
        prepend(a, prepend(b, o)) == prepend(a + b, o),
{
    match o {
        Some(r) => {
            assert(a + (b + r) =~= (a + b) + r);
        },
        None => {},
    }
}

/// Percent-decoding of raw bytes; `None` exactly where `pd_bytes` is `None`.
fn pd_bytes_exec(b: &[u8]) -> (r: Option<Vec<u8>>)
    ensures
        match r {
            Some(v) => pd_bytes(b@) == Some(v@),
            None => pd_bytes(b@) is None,
        },
{
    let mut out: Vec<u8> = Vec::new();
    let mut i: usize = 0;
    assert(b@.skip(0) =~= b@);
    assert(out@ + Seq::<u8>::empty() =~= out@);
    proof {
        assert(prepend(out@, pd_bytes(b@.skip(0))) == pd_bytes(b@)) by {
            match pd_bytes(b@) {
                Some(r) => {
                    assert(Seq::<u8>::empty() + r =~= r);
                },
                None => {},
            }
        }
    }
    while i < b.len()
        invariant
            i <= b.len(),
            pd_bytes(b@) == prepend(out@, pd_bytes(b@.skip(i as int))),
        decreases b.len() - i,
    {
        let ghost t = b@.skip(i as int);
        assert(t[0] == b@[i as int]);
        if b[i] == 37 && 2 < b.len() - i {
            if 3 < b.len() - i && (b[i + 3] >= 0x80 && b[i + 3] <= 0xbf) {
                assert(t[3] == b@[i + 3]);
                return None;
            }
            if 3 < b.len() - i {
                assert(t[3] == b@[i + 3]);
            }
            assert(t[1] == b@[i + 1]);
            assert(t[2] == b@[i + 2]);
            match hex_pair_exec(b[i + 1], b[i + 2]) {
                Some(n) => {
                    assert(t.skip(3) =~= b@.skip(i + 3));
                    proof {
                        lemma_prepend_assoc(out@, seq![n], pd_bytes(b@.skip(i + 3)));
                    }
                    out.push(n);
                    i = i + 3;
                },
                None => {
                    assert(t.skip(1) =~= b@.skip(i + 1));
                    proof {
                        lemma_prepend_assoc(out@, seq![37u8], pd_bytes(b@.skip(i + 1)));
                    }
                    out.push(37);
                    i = i + 1;
                },
            }
        } else if b[i] == 43 {
            assert(t.skip(1) =~= b@.skip(i + 1));
            proof {
                lemma_prepend_assoc(out@, seq![32u8], pd_bytes(b@.skip(i + 1)));
            }
            out.push(32);
            i = i + 1;
        } else {
            assert(t.skip(1) =~= b@.skip(i + 1));
            proof {
                lemma_prepend_assoc(out@, seq![b@[i as int]], pd_bytes(b@.skip(i + 1)));
            }
            out.push(b[i]);
            i = i + 1;
        }
    }
    assert(b@.skip(i as int) =~= Seq::<u8>::empty());
    assert(out@ + Seq::<u8>::empty() =~= out@);
    Some(out)
}

/// Percent-decoding of a text; `None` where slicing would split a character.
pub fn percent_decode_checked(s: &str) -> (r: Option<String>)
    ensures
        match r {
            Some(t) => decodable(s@) && t@ == percent_decoded(s@),
            None => !decodable(s@),
        },
{
    let b = s.as_bytes();
    match pd_bytes_exec(b) {
        Some(v) => Some(lossy_string(&v)),
        None => None,
    }
}

/// Decode `%XX` escapes and `+` (as a space), reading the bytes as lossy UTF-8.
pub fn percent_decode(s: &str) -> (r: String)
    requires
        decodable(s@),
    ensures
        r@ == percent_decoded(s@),
{
    match percent_decode_checked(s) {
        Some(t) => t,
        None => String::new(),
    }
}

fn decode_chars(v: &Vec<char>) -> (r: Option<Vec<char>>)
    ensures
        match r {
            Some(t) => decodable(v@) && t@ == percent_decoded(v@),
            None => !decodable(v@),
        },
{
    let s = string_of(v);
    match percent_decode_checked(s.as_str()) {
        Some(t) => Some(chars_of(t.as_str())),
        None => None,
    }
}

/// ASCII text always decodes.
pub proof fn lemma_ascii_decodable(s: Seq<char>)
    requires
        is_ascii_chars(s),
    ensures
        decodable(s),
{
    vstd::utf8::is_ascii_chars_encode_utf8(s);
    let b = encode_utf8(s);
    assert forall|i: int| 0 <= i < b.len() implies b[i] < 0x80 by {
        assert(s[i] as u8 == b[i]);
        let c = s[i];
        assert('\0' <= c <= '\u{7f}');
    }
    lemma_low_bytes_decode(b);
}

proof fn lemma_low_bytes_decode(b: Seq<u8>)
    requires
        forall|i: int| 0 <= i < b.len() ==> b[i] < 0x80,
    ensures
        pd_bytes(b) is Some,
    decreases b.len(),
{
    if b.len() > 0 {
        assert forall|i: int| 0 <= i < b.skip(1).len() implies b.skip(1)[i] < 0x80 by {
            assert(b.skip(1)[i] == b[i + 1]);
        }
        lemma_low_bytes_decode(b.skip(1));
        if b.len() > 3 {
            assert forall|i: int| 0 <= i < b.skip(3).len() implies b.skip(3)[i] < 0x80 by {
                assert(b.skip(3)[i] == b[i + 3]);
            }
            lemma_low_bytes_decode(b.skip(3));
        } else if b.len() == 3 {
            assert(b.skip(3) =~= Seq::<u8>::empty());
        }
    }
}

// ------------------------------------------------------------------
// magnet links
// ------------------------------------------------------------------

/// What a magnet link tells about a torrent.
#[derive(Clone, Debug)]
pub struct MagnetInfo {
    pub info_hash: String,
    pub display_name: Option<String>,
    pub total_size: Option<u64>,
    pub trackers: Vec<String>,
}

/// The fields of a magnet link as plain text.
pub struct MagnetView {
    pub hash: Seq<char>,
    pub name: Option<Seq<char>>,
    pub size: Option<u64>,
    pub trackers: Seq<Seq<char>>,
}

impl View for MagnetInfo {
    type V = MagnetView;

    open spec fn view(&self) -> MagnetView {
        MagnetView {
            hash: self.info_hash@,
            name: opt_view(self.display_name),
            size: self.total_size,
            trackers: self.trackers.deep_view(),
        }
    }
}

pub open spec fn empty_magnet() -> MagnetView {
    MagnetView { hash: Seq::empty(), name: None, size: None, trackers: Seq::empty() }
}

/// The key of a `key=value` pair: trimmed, lower-cased.
pub open spec fn pair_key(p: Seq<char>) -> Seq<char> {
    lower(trim(split_once_seq(p, '=').0))
}

/// The value of a `key=value` pair, trimmed; empty when there is no `=`.
pub open spec fn pair_val(p: Seq<char>) -> Seq<char> {
    match split_once_seq(p, '=').1 {
        Some(v) => trim(v),
        None => Seq::empty(),
    }
}

/// The info hash an `xt` value carries: what follows `urn:btih:` or
/// `urn:btmh:` (matched case-insensitively), or the whole value.
pub open spec fn xt_hash(d: Seq<char>) -> Seq<char> {
    let dl = lower(d);
    if contains(dl, "urn:btih:"@) {
        d.skip(find_idx(dl, "urn:btih:"@) + "urn:btih:"@.len())
    } else if contains(dl, "urn:btmh:"@) {
        d.skip(find_idx(dl, "urn:btmh:"@) + "urn:btmh:"@.len())
    } else {
        d
    }
}

/// One `key=value` pair of a magnet query applied to what is known so far.
pub open spec fn magnet_step(m: MagnetView, p: Seq<char>) -> MagnetView {
    let key = pair_key(p);
    let d = percent_decoded(pair_val(p));
    if key == "xt"@ {
        MagnetView { hash: xt_hash(d), ..m }
    } else if key == "dn"@ {
        if d.len() > 0 {
            MagnetView { name: Some(d), ..m }
        } else {
            m
        }
    } else if key == "xl"@ {
        match parse_u64_spec(d) {
            Some(n) => MagnetView { size: Some(n), ..m },
            None => m,
        }
    } else if key == "tr"@ {
        if d.len() > 0 {
            MagnetView { trackers: m.trackers.push(d), ..m }
        } else {
            m
        }
    } else {
        m
    }
}

/// The tracker a `key=value` pair of a magnet query names: its decoded
/// value when the key is `tr` and the value is not empty.
pub open spec fn tracker_of(p: Seq<char>) -> Option<Seq<char>> {
    if pair_key(p) == "tr"@ && percent_decoded(pair_val(p)).len() > 0 {
        Some(percent_decoded(pair_val(p)))
    } else {
        None
    }
}

proof fn lemma_fold_trackers(pairs: Seq<Seq<char>>)
    ensures
        magnet_fold(pairs).trackers == pairs.filter_map(|p: Seq<char>| tracker_of(p)),
    decreases pairs.len(),
{
    if pairs.len() > 0 {
        lemma_fold_trackers(pairs.drop_last());
        let prev = magnet_fold(pairs.drop_last());
        let p = pairs.last();
        assert(magnet_fold(pairs) == magnet_step(prev, p));
        reveal_strlit("tr");
        reveal_strlit("xt");
        reveal_strlit("dn");
        reveal_strlit("xl");
        let rest = pairs.drop_last().filter_map(|p: Seq<char>| tracker_of(p));
        assert(prev.trackers == rest);
        if pair_key(p) == "tr"@ && percent_decoded(pair_val(p)).len() > 0 {
            assert(tracker_of(p) == Some(percent_decoded(pair_val(p))));
            assert("tr"@ != "xt"@) by { assert("tr"@[0] != "xt"@[0]); }
            assert("tr"@ != "dn"@) by { assert("tr"@[0] != "dn"@[0]); }
            assert("tr"@ != "xl"@) by { assert("tr"@[0] != "xl"@[0]); }
            assert(magnet_step(prev, p).trackers == prev.trackers.push(percent_decoded(pair_val(p))));
            assert(pairs.filter_map(|p: Seq<char>| tracker_of(p)) == rest + seq![percent_decoded(pair_val(p))]);
            assert(magnet_fold(pairs).trackers =~= rest + seq![percent_decoded(pair_val(p))]);
        } else {
            assert(tracker_of(p) is None);
            assert(pairs.filter_map(|p: Seq<char>| tracker_of(p)) == rest);
            assert(magnet_fold(pairs).trackers == rest);
        }
    }
}

/// The display name a pair gives: its decoded value when the key is `dn`
/// and the value is not empty.
pub open spec fn name_of_pair(p: Seq<char>) -> Option<Seq<char>> {
    if pair_key(p) == "dn"@ && percent_decoded(pair_val(p)).len() > 0 {
        Some(percent_decoded(pair_val(p)))
    } else {
        None
    }
}

/// The size a pair gives: its decoded value read as a number when the key
/// is `xl`.
pub open spec fn size_of_pair(p: Seq<char>) -> Option<u64> {
    if pair_key(p) == "xl"@ {
        parse_u64_spec(percent_decoded(pair_val(p)))
    } else {
        None
    }
}

/// The info hash a pair gives: the hash of its decoded value when the key
/// is `xt`.
pub open spec fn hash_of_pair(p: Seq<char>) -> Option<Seq<char>> {
    if pair_key(p) == "xt"@ {
        Some(xt_hash(percent_decoded(pair_val(p))))
    } else {
        None
    }
}

/// The last element of a sequence, if any.
pub open spec fn last_of<T>(s: Seq<T>) -> Option<T> {
    if s.len() == 0 {
        None
    } else {
        Some(s.last())
    }
}

proof fn lemma_fold_fields(pairs: Seq<Seq<char>>)
    ensures
        magnet_fold(pairs).name == last_of(pairs.filter_map(|p: Seq<char>| name_of_pair(p))),
        magnet_fold(pairs).size == last_of(pairs.filter_map(|p: Seq<char>| size_of_pair(p))),
        magnet_fold(pairs).hash == match last_of(pairs.filter_map(|p: Seq<char>| hash_of_pair(p))) {
            Some(h) => h,
            None => Seq::<char>::empty(),
        },
    decreases pairs.len(),
{
    reveal_strlit("tr");
    reveal_strlit("xt");
    reveal_strlit("dn");
    reveal_strlit("xl");
    assert("xt"@ != "dn"@) by { assert("xt"@[0] != "dn"@[0]); }
    assert("xt"@ != "xl"@) by { assert("xt"@[1] != "xl"@[1]); }
    assert("dn"@ != "xl"@) by { assert("dn"@[0] != "xl"@[0]); }
    if pairs.len() > 0 {
        lemma_fold_fields(pairs.drop_last());
        let prev = magnet_fold(pairs.drop_last());
        let p = pairs.last();
        assert(magnet_fold(pairs) == magnet_step(prev, p));
        let names = pairs.drop_last().filter_map(|p: Seq<char>| name_of_pair(p));
        let sizes = pairs.drop_last().filter_map(|p: Seq<char>| size_of_pair(p));
        let hashes = pairs.drop_last().filter_map(|p: Seq<char>| hash_of_pair(p));
        assert(pairs.filter_map(|p: Seq<char>| name_of_pair(p)) == match name_of_pair(p) {
            Some(x) => names + seq![x],
            None => names,
        });
        assert(pairs.filter_map(|p: Seq<char>| size_of_pair(p)) == match size_of_pair(p) {
            Some(x) => sizes + seq![x],
            None => sizes,
        });
        assert(pairs.filter_map(|p: Seq<char>| hash_of_pair(p)) == match hash_of_pair(p) {
            Some(x) => hashes + seq![x],
            None => hashes,
        });
        match name_of_pair(p) {
            Some(x) => { assert((names + seq![x]).last() == x); },
            None => {},
        }
        match size_of_pair(p) {
            Some(x) => { assert((sizes + seq![x]).last() == x); },
            None => {},
        }
        match hash_of_pair(p) {
            Some(x) => { assert((hashes + seq![x]).last() == x); },
            None => {},
        }
    }
}

/// A parsed magnet link's display name is the last non-empty decoded
/// `dn=` value, its size the last `xl=` value that reads as a number, and
/// its info hash what the last `xt=` value carries (empty without one).
pub proof fn lemma_magnet_fields(raw: Seq<char>)
    ensures
        magnet_of(raw) matches Some(m) ==> {
            &&& m.name == last_of(magnet_pairs(raw).filter_map(|p: Seq<char>| name_of_pair(p)))
            &&& m.size == last_of(magnet_pairs(raw).filter_map(|p: Seq<char>| size_of_pair(p)))
            &&& m.hash == match last_of(magnet_pairs(raw).filter_map(|p: Seq<char>| hash_of_pair(p))) {
                Some(h) => h,
                None => Seq::<char>::empty(),
            }
        },
{
    lemma_fold_fields(magnet_pairs(raw));
}

/// The trackers of a parsed magnet link are exactly the non-empty decoded
/// `tr=` values of the link, in the order they appear.
pub proof fn lemma_magnet_trackers(raw: Seq<char>)
    ensures
        magnet_of(raw) matches Some(m) ==> m.trackers == magnet_pairs(raw).filter_map(
            |p: Seq<char>| tracker_of(p),
        ),
{
    lemma_fold_trackers(magnet_pairs(raw));
}

pub open spec fn is_magnet(raw: Seq<char>) -> bool {
    starts_with(trim(raw), "magnet:?"@)
}

/// The `&`-separated pairs of a magnet link's query.
pub open spec fn magnet_pairs(raw: Seq<char>) -> Seq<Seq<char>> {
    split_seq(trim(raw).skip("magnet:?"@.len() as int), '&')
}

pub open spec fn magnet_fold(pairs: Seq<Seq<char>>) -> MagnetView {
    pairs.fold_left(empty_magnet(), |m: MagnetView, p: Seq<char>| magnet_step(m, p))
}

/// The magnet link a text holds: `None` for anything but `magnet:?...`,
/// and for a link with neither an info hash nor a display name.
pub open spec fn magnet_of(raw: Seq<char>) -> Option<MagnetView> {
    if !is_magnet(raw) {
        None
    } else {
        let m = magnet_fold(magnet_pairs(raw));
        if m.hash.len() == 0 && m.name is None {
            None
        } else {
            Some(m)
        }
    }
}

/// Every value of a magnet link percent-decodes.
pub open spec fn magnet_decodable(raw: Seq<char>) -> bool {
    is_magnet(raw) ==> forall|i: int|
        0 <= i < magnet_pairs(raw).len() ==> decodable(pair_val(#[trigger] magnet_pairs(raw)[i]))
}

fn pair_parts(pair: &Vec<char>) -> (r: (Vec<char>, Vec<char>))
    ensures
        r.0@ == pair_key(pair@),
        r.1@ == pair_val(pair@),
{
    let (k0, v0) = split_once_char(pair, '=');
    let key = lower_vec(&trim_ws(&k0));
    let val = match v0 {
        Some(v) => trim_ws(&v),
        None => Vec::new(),
    };
    (key, val)
}

fn skip_after(d: &Vec<char>, dl: &Vec<char>, pat: &str) -> (r: Option<Vec<char>>)
    requires
        dl@ == lower(d@),
    ensures
        match r {
            Some(h) => contains(dl@, pat@) && h@ == d@.skip(find_idx(dl@, pat@) + pat@.len()),
            None => !contains(dl@, pat@),
        },
{
    let p = chars_of(pat);
    match find(dl, &p) {
        Some(pos) => {
            proof {
                lemma_find_idx(dl@, p@, pos as int);
            }
            assert(pos + p.len() <= d.len());
            let h = slice(d, pos + p.len(), d.len());
            assert(h@ =~= d@.skip(pos + p@.len()));
            Some(h)
        },
        None => None,
    }
}

fn magnet_apply(info: &mut MagnetInfo, pair: &Vec<char>) -> (ok: bool)
    ensures
        ok == decodable(pair_val(pair@)),
        ok ==> final(info)@ == magnet_step(old(info)@, pair@),
{
    let (key, val) = pair_parts(pair);
    let decoded = match decode_chars(&val) {
        Some(d) => d,
        None => {
            return false;
        },
    };
    if eq_lit(&key, "xt") {
        let dl = lower_vec(&decoded);
        let h = match skip_after(&decoded, &dl, "urn:btih:") {
            Some(h) => h,
            None => match skip_after(&decoded, &dl, "urn:btmh:") {
                Some(h) => h,
                None => decoded,
            },
        };
        info.info_hash = string_of(&h);
    } else if eq_lit(&key, "dn") {
        if decoded.len() > 0 {
            info.display_name = Some(string_of(&decoded));
        }
    } else if eq_lit(&key, "xl") {
        match parse_u64(&decoded) {
            Some(n) => {
                info.total_size = Some(n);
            },
            None => {},
        }
    } else if eq_lit(&key, "tr") {
        if decoded.len() > 0 {
            let t = string_of(&decoded);
            let ghost before = info.trackers.deep_view();
            info.trackers.push(t);
            assert(info.trackers.deep_view() =~= before.push(decoded@));
        }
    }
    true
}

/// Magnet parsing that reports, as `None`, a value that cannot be decoded.
pub fn try_parse_magnet(raw: &str) -> (r: Option<Option<MagnetInfo>>)
    ensures
        match r {
            Some(x) => magnet_decodable(raw@) && match x {
                Some(m) => magnet_of(raw@) == Some(m@),
                None => magnet_of(raw@) is None,
            },
            None => !magnet_decodable(raw@),
        },
{
    let t = trim_ws(&chars_of(raw));
    let pfx = chars_of("magnet:?");
    if !has_prefix(&t, &pfx) {
        return Some(None);
    }
    let query = slice(&t, pfx.len(), t.len());
    assert(query@ =~= trim(raw@).skip("magnet:?"@.len() as int));
    let pairs = split_char(&query, '&');
    let ghost ps = pairs.deep_view();
    let mut info = MagnetInfo {
        info_hash: String::new(),
        display_name: None,
        total_size: None,
        trackers: Vec::new(),
    };
    assert(info.trackers.deep_view() =~= Seq::<Seq<char>>::empty());
    assert(ps.take(0) =~= Seq::<Seq<char>>::empty());
    for i in 0..pairs.len()
        invariant
            ps == pairs.deep_view(),
            ps == magnet_pairs(raw@),
            is_magnet(raw@),
            forall|j: int| 0 <= j < i ==> decodable(pair_val(#[trigger] ps[j])),
            info@ == magnet_fold(ps.take(i as int)),
    {
        assert(ps[i as int] == pairs[i as int]@);
        if !magnet_apply(&mut info, &pairs[i]) {
            return None;
        }
        assert(ps.take(i + 1).drop_last() =~= ps.take(i as int));
    }
    assert(ps.take(pairs.len() as int) =~= ps);
    if info.info_hash.as_str().is_empty() && info.display_name.is_none() {
        return Some(None);
    }
    Some(Some(info))
}

/// Read a `magnet:?` link: its info hash (`xt`), display name (`dn`), size
/// (`xl`) and trackers (`tr`), each value percent-decoded.
pub fn parse_magnet(raw: &str) -> (r: Option<MagnetInfo>)
    requires
        magnet_decodable(raw@),
    ensures
        match r {
            Some(m) => magnet_of(raw@) == Some(m@),
            None => magnet_of(raw@) is None,
        },
{
    match try_parse_magnet(raw) {
        Some(x) => x,
        None => None,
    }
}

// ------------------------------------------------------------------
// Content-Disposition file names
// ------------------------------------------------------------------

/// The still-quoted file name that one `;`-separated part of a
/// Content-Disposition value carries: after `filename*=` (and after the last
/// `''` of an RFC 5987 value) when `star`, else after `filename=`.
pub open spec fn cd_candidate(part: Seq<char>, star: bool) -> Option<Seq<char>> {
    let p = trim(part);
    let pl = lower(p);
    let pat = if star {
        "filename*="@
    } else {
        "filename="@
    };
    if contains(pl, pat) {
        let rest = p.skip(find_idx(pl, pat) + pat.len());
        let name = if star {
            after_last(rest, "''"@)
        } else {
            rest
        };
        Some(trim(trim_by(name, Strip::One('"'))))
    } else {
        None
    }
}

/// The first part whose candidate decodes to a non-empty name.
pub open spec fn cd_pick(parts: Seq<Seq<char>>, star: bool) -> Option<Seq<char>>
    decreases parts.len(),
{
    if parts.len() == 0 {
        None
    } else {
        match cd_candidate(parts[0], star) {
            Some(c) => if percent_decoded(c).len() > 0 {
                Some(percent_decoded(c))
            } else {
                cd_pick(parts.drop_first(), star)
            },
            None => cd_pick(parts.drop_first(), star),
        }
    }
}

/// Every candidate decoded on the way to `cd_pick`'s answer decodes.
pub open spec fn cd_pick_ok(parts: Seq<Seq<char>>, star: bool) -> bool
    decreases parts.len(),
{
    parts.len() == 0 || match cd_candidate(parts[0], star) {
        Some(c) => decodable(c) && (percent_decoded(c).len() > 0 || cd_pick_ok(
            parts.drop_first(),
            star,
        )),
        None => cd_pick_ok(parts.drop_first(), star),
    }
}

/// The file name of a Content-Disposition value: an RFC 5987 `filename*=` first, then `filename=`.
pub open spec fn cd_name(v: Seq<char>) -> Option<Seq<char>> {
    let parts = split_seq(v, ';');
    match cd_pick(parts, true) {
        Some(x) => Some(x),
        None => cd_pick(parts, false),
    }
}

pub open spec fn cd_ok(v: Seq<char>) -> bool {
    let parts = split_seq(v, ';');
    cd_pick_ok(parts, true) && (cd_pick(parts, true) is Some || cd_pick_ok(parts, false))
}

/// A `;`-part of a Content-Disposition value names a file: it carries a
/// `filename*=` value (when `star`) or a `filename=` value that decodes to
/// a non-empty name.
pub open spec fn names_file(part: Seq<char>, star: bool) -> bool {
    match cd_candidate(part, star) {
        Some(c) => percent_decoded(c).len() > 0,
        None => false,
    }
}

/// The name a part carries (see `names_file`).
pub open spec fn named_file(part: Seq<char>, star: bool) -> Seq<char> {
    percent_decoded(cd_candidate(part, star)->0)
}

proof fn lemma_first_naming_part(parts: Seq<Seq<char>>, star: bool, i: int)
    requires
        0 <= i < parts.len(),
        names_file(parts[i], star),
        forall|j: int| 0 <= j < i ==> !names_file(#[trigger] parts[j], star),
    ensures
        cd_pick(parts, star) == Some(named_file(parts[i], star)),
    decreases i,
{
    if i > 0 {
        let rest = parts.drop_first();
        assert(!names_file(parts[0], star));
        assert forall|j: int| 0 <= j < i - 1 implies !names_file(#[trigger] rest[j], star) by {
            assert(rest[j] == parts[j + 1]);
        }
        assert(rest[i - 1] == parts[i]);
        lemma_first_naming_part(rest, star, i - 1);
    }
}

proof fn lemma_no_naming_part(parts: Seq<Seq<char>>, star: bool)
    requires
        forall|j: int| 0 <= j < parts.len() ==> !names_file(#[trigger] parts[j], star),
    ensures
        cd_pick(parts, star) is None,
    decreases parts.len(),
{
    if parts.len() > 0 {
        let rest = parts.drop_first();
        assert(!names_file(parts[0], star));
        assert forall|j: int| 0 <= j < rest.len() implies !names_file(#[trigger] rest[j], star) by {
            assert(rest[j] == parts[j + 1]);
        }
        lemma_no_naming_part(rest, star);
    }
}

/// The file name of a Content-Disposition value is the name of the first
/// `;`-part whose `filename*=` (RFC 5987) value names a file, whatever
/// plain `filename=` parts the value also holds; only when no `filename*=`
/// part names a file is it the name of the first `filename=` part that
/// does; and with neither there is none.
pub proof fn lemma_content_disposition_names(v: Seq<char>, i: int)
    ensures
        ({
            let parts = split_seq(v, ';');
            0 <= i < parts.len() && names_file(parts[i], true) && (forall|j: int|
                0 <= j < i ==> !names_file(#[trigger] parts[j], true)) ==> cd_name(v) == Some(
                named_file(parts[i], true),
            )
        }),
        ({
            let parts = split_seq(v, ';');
            (forall|j: int| 0 <= j < parts.len() ==> !names_file(#[trigger] parts[j], true)) && 0 <= i
                < parts.len() && names_file(parts[i], false) && (forall|j: int|
                0 <= j < i ==> !names_file(#[trigger] parts[j], false)) ==> cd_name(v) == Some(
                named_file(parts[i], false),
            )
        }),
        ({
            let parts = split_seq(v, ';');
            (forall|j: int|
                0 <= j < parts.len() ==> !names_file(#[trigger] parts[j], true) && !names_file(
                    parts[j],
                    false,
                )) ==> cd_name(v) is None
        }),
{
    let parts = split_seq(v, ';');
    if 0 <= i < parts.len() && names_file(parts[i], true) && (forall|j: int|
        0 <= j < i ==> !names_file(#[trigger] parts[j], true)) {
        lemma_first_naming_part(parts, true, i);
    }
    if forall|j: int| 0 <= j < parts.len() ==> !names_file(#[trigger] parts[j], true) {
        lemma_no_naming_part(parts, true);
        if 0 <= i < parts.len() && names_file(parts[i], false) && (forall|j: int|
            0 <= j < i ==> !names_file(#[trigger] parts[j], false)) {
            lemma_first_naming_part(parts, false, i);
        }
        if forall|j: int| 0 <= j < parts.len() ==> !names_file(#[trigger] parts[j], true) && !names_file(parts[j], false) {
            assert forall|j: int| 0 <= j < parts.len() implies !names_file(#[trigger] parts[j], false) by {}
            lemma_no_naming_part(parts, false);
        }
    }
}

fn cd_candidate_exec(part: &Vec<char>, star: bool) -> (r: Option<Vec<char>>)
    ensures
        match r {
            Some(c) => cd_candidate(part@, star) == Some(c@),
            None => cd_candidate(part@, star) is None,
        },
{
    let p = trim_ws(part);
    let pl = lower_vec(&p);
    let pat = if star {
        "filename*="
    } else {
        "filename="
    };
    let found = skip_after(&p, &pl, pat);
    match found {
        Some(rest) => {
            let name = if star {
                let q = chars_of("''");
                after_last_vec(&rest, &q)
            } else {
                rest
            };
            let unq = strip(&name, &Strip::One('"'));
            Some(trim_ws(&unq))
        },
        None => None,
    }
}

fn cd_pick_exec(parts: &Vec<Vec<char>>, star: bool) -> (r: Option<Option<Vec<char>>>)
    ensures
        match r {
            Some(x) => cd_pick_ok(parts.deep_view(), star) && match x {
                Some(n) => cd_pick(parts.deep_view(), star) == Some(n@),
                None => cd_pick(parts.deep_view(), star) is None,
            },
            None => !cd_pick_ok(parts.deep_view(), star),
        },
{
    let ghost all = parts.deep_view();
    assert(all.skip(0) =~= all);
    for i in 0..parts.len()
        invariant
            all == parts.deep_view(),
            cd_pick(all, star) == cd_pick(all.skip(i as int), star),
            cd_pick_ok(all, star) == cd_pick_ok(all.skip(i as int), star),
    {
        let ghost rest = all.skip(i as int);
        assert(rest[0] == parts[i as int]@);
        assert(rest.drop_first() =~= all.skip(i + 1));
        match cd_candidate_exec(&parts[i], star) {
            Some(c) => {
                match decode_chars(&c) {
                    Some(d) => {
                        if d.len() > 0 {
                            return Some(Some(d));
                        }
                    },
                    None => {
                        return None;
                    },
                }
            },
            None => {},
        }
    }
    assert(all.skip(parts.len() as int) =~= Seq::<Seq<char>>::empty());
    Some(None)
}

fn cd_checked(v: &Vec<char>) -> (r: Option<Option<Vec<char>>>)
    ensures
        match r {
            Some(x) => cd_ok(v@) && match x {
                Some(n) => cd_name(v@) == Some(n@),
                None => cd_name(v@) is None,
            },
            None => !cd_ok(v@),
        },
{
    let parts = split_char(v, ';');
    match cd_pick_exec(&parts, true) {
        None => None,
        Some(Some(n)) => Some(Some(n)),
        Some(None) => cd_pick_exec(&parts, false),
    }
}

/// The file name a Content-Disposition header value names (RFC 5987 first, then plain).
pub fn cd_filename(v: &str) -> (r: Option<String>)
    requires
        cd_ok(v@),
    ensures
        opt_view(r) == cd_name(v@),
{
    let cv = chars_of(v);
    match cd_checked(&cv) {
        Some(Some(n)) => Some(string_of(&n)),
        _ => None,
    }
}

// ------------------------------------------------------------------
// MIME types
// ------------------------------------------------------------------

/// The media type of a Content-Type value: before any `;`, trimmed, lower-cased.
pub open spec fn mime_main(m: Seq<char>) -> Seq<char> {
    trim(split_once_seq(lower(m), ';').0)
}

/// The file extension a media type calls for.
pub open spec fn mime_ext(t: Seq<char>) -> Option<Seq<char>> {
    if t == "application/zip"@ || t == "application/x-zip-compressed"@ || t == "application/x-zip"@ {
        Some(".zip"@)
    } else if t == "application/x-rar-compressed"@ || t == "application/vnd.rar"@ || t
        == "application/x-rar"@ {
        Some(".rar"@)
    } else if t == "application/x-7z-compressed"@ || t == "application/x-7z"@ {
        Some(".7z"@)
    } else if t == "application/x-tar"@ {
        Some(".tar"@)
    } else if t == "application/gzip"@ || t == "application/x-gzip"@ {
        Some(".tar.gz"@)
    } else if t == "application/x-msdownload"@ || t == "application/x-msdos-program"@ || t
        == "application/x-exe"@ || t == "application/exe"@ {
        Some(".exe"@)
    } else if t == "application/x-msi"@ {
        Some(".msi"@)
    } else if t == "application/x-iso9660-image"@ || t == "application/x-iso-image"@ {
        Some(".iso"@)
    } else if t == "application/pdf"@ {
        Some(".pdf"@)
    } else if t == "video/mp4"@ {
        Some(".mp4"@)
    } else if t == "video/x-matroska"@ {
        Some(".mkv"@)
    } else if t == "video/webm"@ {
        Some(".webm"@)
    } else if t == "video/quicktime"@ {
        Some(".mov"@)
    } else if t == "video/x-msvideo"@ {
        Some(".avi"@)
    } else if t == "audio/mpeg"@ || t == "audio/mp3"@ {
        Some(".mp3"@)
    } else if t == "audio/wav"@ || t == "audio/x-wav"@ {
        Some(".wav"@)
    } else if t == "audio/flac"@ || t == "audio/x-flac"@ {
        Some(".flac"@)
    } else if t == "audio/aac"@ {
        Some(".aac"@)
    } else if t == "image/jpeg"@ {
        Some(".jpg"@)
    } else if t == "image/png"@ {
        Some(".png"@)
    } else if t == "image/gif"@ {
        Some(".gif"@)
    } else if t == "image/webp"@ {
        Some(".webp"@)
    } else if t == "image/svg+xml"@ {
        Some(".svg"@)
    } else if t == "application/vnd.android.package-archive"@ {
        Some(".apk"@)
    } else if t == "application/epub+zip"@ {
        Some(".epub"@)
    } else {
        None
    }
}

fn mime_ext_exec(t: &Vec<char>) -> (r: Option<&'static str>)
    ensures
        match r {
            Some(e) => mime_ext(t@) == Some(e@),
            None => mime_ext(t@) is None,
        },
{
    if eq_lit(t, "application/zip") || eq_lit(t, "application/x-zip-compressed") || eq_lit(
        t,
        "application/x-zip",
    ) {
        Some(".zip")
    } else if eq_lit(t, "application/x-rar-compressed") || eq_lit(t, "application/vnd.rar")
        || eq_lit(t, "application/x-rar") {
        Some(".rar")
    } else if eq_lit(t, "application/x-7z-compressed") || eq_lit(t, "application/x-7z") {
        Some(".7z")
    } else if eq_lit(t, "application/x-tar") {
        Some(".tar")
    } else if eq_lit(t, "application/gzip") || eq_lit(t, "application/x-gzip") {
        Some(".tar.gz")
    } else if eq_lit(t, "application/x-msdownload") || eq_lit(t, "application/x-msdos-program")
        || eq_lit(t, "application/x-exe") || eq_lit(t, "application/exe") {
        Some(".exe")
    } else if eq_lit(t, "application/x-msi") {
        Some(".msi")
    } else if eq_lit(t, "application/x-iso9660-image") || eq_lit(t, "application/x-iso-image") {
        Some(".iso")
    } else if eq_lit(t, "application/pdf") {
        Some(".pdf")
    } else if eq_lit(t, "video/mp4") {
        Some(".mp4")
    } else if eq_lit(t, "video/x-matroska") {
        Some(".mkv")
    } else if eq_lit(t, "video/webm") {
        Some(".webm")
    } else if eq_lit(t, "video/quicktime") {
        Some(".mov")
    } else if eq_lit(t, "video/x-msvideo") {
        Some(".avi")
    } else if eq_lit(t, "audio/mpeg") || eq_lit(t, "audio/mp3") {
        Some(".mp3")
    } else if eq_lit(t, "audio/wav") || eq_lit(t, "audio/x-wav") {
        Some(".wav")
    } else if eq_lit(t, "audio/flac") || eq_lit(t, "audio/x-flac") {
        Some(".flac")
    } else if eq_lit(t, "audio/aac") {
        Some(".aac")
    } else if eq_lit(t, "image/jpeg") {
        Some(".jpg")
    } else if eq_lit(t, "image/png") {
        Some(".png")
    } else if eq_lit(t, "image/gif") {
        Some(".gif")
    } else if eq_lit(t, "image/webp") {
        Some(".webp")
    } else if eq_lit(t, "image/svg+xml") {
        Some(".svg")
    } else if eq_lit(t, "application/vnd.android.package-archive") {
        Some(".apk")
    } else if eq_lit(t, "application/epub+zip") {
        Some(".epub")
    } else {
        None
    }
}

/// The file extension (with its dot) for a Content-Type value.
pub fn extension_from_mime(mime: &str) -> (r: Option<&'static str>)
    ensures
        match r {
            Some(e) => mime_ext(mime_main(mime@)) == Some(e@),
            None => mime_ext(mime_main(mime@)) is None,
        },
{
    let low = lower_vec(&chars_of(mime));
    let (first, _) = split_once_char(&low, ';');
    let main = trim_ws(&first);
    mime_ext_exec(&main)
}

// ------------------------------------------------------------------
// safe file names
// ------------------------------------------------------------------

/// Characters a Windows file name cannot hold.
pub open spec fn bad_char(c: char) -> bool {
    c == '<' || c == '>' || c == ':' || c == '"' || c == '/' || c == '\\' || c == '|' || c == '?'
        || c == '*' || (c as u32) <= 0x1f
}

pub open spec fn clean_char(c: char) -> char {
    if bad_char(c) {
        '_'
    } else {
        c
    }
}

/// Forbidden characters replaced, then whitespace and trailing dots trimmed.
pub open spec fn tidy_name(s: Seq<char>) -> Seq<char> {
    trim(trim_end_by(trim(s.map_values(|c: char| clean_char(c))), Strip::One('.')))
}

/// The part of a name before its first `.` or `-`.
pub open spec fn name_stem(s: Seq<char>) -> Seq<char> {
    if exists|i: int| 0 <= i < s.len() && (s[i] == '.' || s[i] == '-') {
        s.take(
            choose|i: int|
                0 <= i < s.len() && (s[i] == '.' || s[i] == '-') && forall|j: int|
                    0 <= j < i ==> s[j] != '.' && s[j] != '-',
        )
    } else {
        s
    }
}

/// Device names Windows reserves.
pub open spec fn reserved(u: Seq<char>) -> bool {
    ||| u == "CON"@
    ||| u == "PRN"@
    ||| u == "AUX"@
    ||| u == "NUL"@
    ||| u == "COM1"@
    ||| u == "COM2"@
    ||| u == "COM3"@
    ||| u == "COM4"@
    ||| u == "COM5"@
    ||| u == "COM6"@
    ||| u == "COM7"@
    ||| u == "COM8"@
    ||| u == "COM9"@
    ||| u == "LPT1"@
    ||| u == "LPT2"@
    ||| u == "LPT3"@
    ||| u == "LPT4"@
    ||| u == "LPT5"@
    ||| u == "LPT6"@
    ||| u == "LPT7"@
    ||| u == "LPT8"@
    ||| u == "LPT9"@
}

/// A name safe to create on disk: forbidden characters become `_`, edges
/// are trimmed, an empty or reserved name becomes `download`, and the
/// result keeps at most 200 characters.
pub open spec fn safe_name(s: Seq<char>) -> Seq<char> {
    let t = tidy_name(s);
    let safe = if t.len() == 0 || reserved(upper(name_stem(t))) {
        "download"@
    } else {
        t
    };
    if safe.len() > 200 {
        safe.take(200)
    } else {
        safe
    }
}

fn is_bad_char(c: char) -> (r: bool)
    ensures
        r == bad_char(c),
{
    c == '<' || c == '>' || c == ':' || c == '"' || c == '/' || c == '\\' || c == '|' || c == '?'
        || c == '*' || (c as u32) <= 0x1f
}

fn stem_of(s: &Vec<char>) -> (r: Vec<char>)
    ensures
        r@ == name_stem(s@),
{
    for i in 0..s.len()
        invariant
            forall|j: int| 0 <= j < i ==> s@[j] != '.' && s@[j] != '-',
    {
        if s[i] == '.' || s[i] == '-' {
            let ghost k = choose|k: int|
                0 <= k < s@.len() && (s@[k] == '.' || s@[k] == '-') && forall|j: int|
                    0 <= j < k ==> s@[j] != '.' && s@[j] != '-';
            assert(k == i) by {
                if k < i {
                } else if k > i {
                    assert(s@[i as int] != '.' && s@[i as int] != '-');
                }
            }
            let r = slice(s, 0, i);
            assert(r@ =~= s@.take(i as int));
            return r;
        }
    }
    s.clone()
}

fn is_reserved(u: &Vec<char>) -> (r: bool)
    ensures
        r == reserved(u@),
{
    eq_lit(u, "CON") || eq_lit(u, "PRN") || eq_lit(u, "AUX") || eq_lit(u, "NUL") || eq_lit(u, "COM1")
        || eq_lit(u, "COM2") || eq_lit(u, "COM3") || eq_lit(u, "COM4") || eq_lit(u, "COM5")
        || eq_lit(u, "COM6") || eq_lit(u, "COM7") || eq_lit(u, "COM8") || eq_lit(u, "COM9")
        || eq_lit(u, "LPT1") || eq_lit(u, "LPT2") || eq_lit(u, "LPT3") || eq_lit(u, "LPT4")
        || eq_lit(u, "LPT5") || eq_lit(u, "LPT6") || eq_lit(u, "LPT7") || eq_lit(u, "LPT8")
        || eq_lit(u, "LPT9")
}

proof fn lemma_trim_start_suffix(s: Seq<char>, k: Strip)
    ensures
        exists|n: int| 0 <= n <= s.len() && trim_start_by(s, k) == s.skip(n),
    decreases s.len(),
{
    if s.len() > 0 && strip_hit(k, s[0]) {
        lemma_trim_start_suffix(s.drop_first(), k);
        let n = choose|n: int|
            0 <= n <= s.drop_first().len() && trim_start_by(s.drop_first(), k) == s.drop_first().skip(n);
        assert(s.drop_first().skip(n) =~= s.skip(n + 1));
    } else {
        assert(s.skip(0) =~= s);
    }
}

proof fn lemma_trim_end_prefix(s: Seq<char>, k: Strip)
    ensures
        exists|n: int| 0 <= n <= s.len() && trim_end_by(s, k) == s.take(n),
    decreases s.len(),
{
    if s.len() > 0 && strip_hit(k, s.last()) {
        lemma_trim_end_prefix(s.drop_last(), k);
        let n = choose|n: int|
            0 <= n <= s.drop_last().len() && trim_end_by(s.drop_last(), k) == s.drop_last().take(n);
        assert(s.drop_last().take(n) =~= s.take(n));
    } else {
        assert(s.take(s.len() as int) =~= s);
    }
}

/// Trimming keeps only characters of the input, in place.
pub proof fn lemma_trim_within(s: Seq<char>, k: Strip)
    ensures
        forall|i: int|
            0 <= i < trim_by(s, k).len() ==> exists|j: int|
                0 <= j < s.len() && s[j] == #[trigger] trim_by(s, k)[i],
{
    lemma_trim_start_suffix(s, k);
    let a = trim_start_by(s, k);
    let n = choose|n: int| 0 <= n <= s.len() && a == s.skip(n);
    lemma_trim_end_prefix(a, k);
    let m = choose|m: int| 0 <= m <= a.len() && trim_end_by(a, k) == a.take(m);
    assert forall|i: int| 0 <= i < trim_by(s, k).len() implies exists|j: int|
        0 <= j < s.len() && s[j] == #[trigger] trim_by(s, k)[i] by {
        assert(s[n + i] == trim_by(s, k)[i]);
    }
}

/// Make a name safe to create on disk.
pub fn sanitize_name(name: &str) -> (r: String)
    ensures
        r@ == safe_name(name@),
        0 < r@.len() <= 200,
        forall|i: int| 0 <= i < r@.len() ==> !bad_char(#[trigger] r@[i]),
        plain_name(r@),
{
    let v = chars_of(name);
    let mut cleaned: Vec<char> = Vec::new();
    for i in 0..v.len()
        invariant
            cleaned@ == v@.take(i as int).map_values(|c: char| clean_char(c)),
    {
        let c = v[i];
        let d = if is_bad_char(c) {
            '_'
        } else {
            c
        };
        cleaned.push(d);
        assert(cleaned@ =~= v@.take(i + 1).map_values(|c: char| clean_char(c)));
    }
    assert(v@.take(v.len() as int) =~= v@);
    let t1 = trim_ws(&cleaned);
    let t2 = crate::text::strip_end(&t1, &Strip::One('.'));
    let t = trim_ws(&t2);
    assert(t@ == tidy_name(name@));
    let stem = upper_vec(&stem_of(&t));
    let safe = if t.len() == 0 || is_reserved(&stem) {
        chars_of("download")
    } else {
        t
    };
    let out = if safe.len() > 200 {
        slice(&safe, 0, 200)
    } else {
        safe
    };
    assert(out@ =~= safe_name(name@));
    proof {
        reveal_strlit("download");
        let cl = name@.map_values(|c: char| clean_char(c));
        assert forall|i: int| 0 <= i < cl.len() implies !bad_char(#[trigger] cl[i]) by {}
        lemma_trim_within(cl, Strip::Ws);
        let a = trim(cl);
        assert forall|i: int| 0 <= i < a.len() implies !bad_char(#[trigger] a[i]) by {
            let j = choose|j: int| 0 <= j < cl.len() && cl[j] == a[i];
        }
        lemma_trim_end_prefix(a, Strip::One('.'));
        let b = trim_end_by(a, Strip::One('.'));
        let m = choose|m: int| 0 <= m <= a.len() && b == a.take(m);
        assert forall|i: int| 0 <= i < b.len() implies !bad_char(#[trigger] b[i]) by {
            assert(b[i] == a[i]);
        }
        lemma_trim_within(b, Strip::Ws);
        assert forall|i: int| 0 <= i < t@.len() implies !bad_char(#[trigger] t@[i]) by {
            let j = choose|j: int| 0 <= j < b.len() && b[j] == t@[i];
        }
        assert forall|i: int| 0 <= i < out@.len() implies !bad_char(#[trigger] out@[i]) by {
            if t@.len() == 0 || reserved(upper(name_stem(t@))) {
                assert(out@[i] == "download"@[i]);
            } else {
                assert(out@[i] == t@[i]);
            }
        }
        assert(plain_name(out@)) by {
            if out@.contains('/') || out@.contains('\\') || out@.contains(':') {
                let k = choose|k: int|
                    0 <= k < out@.len() && (out@[k] == '/' || out@[k] == '\\' || out@[k] == ':');
                assert(!bad_char(out@[k]));
            }
        }
    }
    string_of(&out)
}

// ------------------------------------------------------------------
// parsed URLs
// ------------------------------------------------------------------

/// The parts of a URL the name inference reads.
#[derive(Clone, Debug)]
pub struct UrlParts {
    pub scheme: String,
    pub host: Option<String>,
    pub segments: Option<Vec<String>>,
    pub query: Vec<(String, String)>,
}

pub struct UrlView {
    pub scheme: Seq<char>,
    pub host: Option<Seq<char>>,
    pub segments: Option<Seq<Seq<char>>>,
    pub query: Seq<(Seq<char>, Seq<char>)>,
}

impl View for UrlParts {
    type V = UrlView;

    open spec fn view(&self) -> UrlView {
        UrlView {
            scheme: self.scheme@,
            host: opt_view(self.host),
            segments: match self.segments {
                Some(v) => Some(v.deep_view()),
                None => None,
            },
            query: self.query.deep_view(),
        }
    }
}

/// What the `url` crate makes of a text: `None` when `Url::parse` rejects
/// it, else the scheme, `host_str`, `path_segments` and decoded `query_pairs`.
pub uninterp spec fn parsed_url(raw: Seq<char>) -> Option<UrlView>;

/// `reqwest::Url::parse` (the `url` crate), read out as plain parts: the
/// result is `parsed_url` of the text, and its path segments are ASCII
/// (the crate documents them as percent-encoded ASCII strings).
#[verifier::external_body]
pub(crate) fn parse_url(raw: &str) -> (r: Option<UrlParts>)
    ensures
        match r {
            Some(u) => parsed_url(raw@) == Some(u@) && match u@.segments {
                Some(segs) => forall|i: int| 0 <= i < segs.len() ==> is_ascii_chars(#[trigger] segs[i]),
                None => true,
            },
            None => parsed_url(raw@) is None,
        },
{
    let u = reqwest::Url::parse(raw).ok()?;
    Some(UrlParts {
        scheme: u.scheme().to_string(),
        host: u.host_str().map(|h| h.to_string()),
        segments: u.path_segments().map(|it| it.map(|x| x.to_string()).collect()),
        query: u.query_pairs().map(|(k, v)| (k.into_owned(), v.into_owned())).collect(),
    })
}

// ------------------------------------------------------------------
// names inferred from URLs
// ------------------------------------------------------------------

pub open spec fn char_width(c: char) -> nat {
    let u = c as u32;
    if u <= 0x7f {
        1
    } else if u <= 0x7ff {
        2
    } else if u <= 0xffff {
        3
    } else {
        4
    }
}

/// Length of the UTF-8 encoding of a text.
pub open spec fn utf8_len(s: Seq<char>) -> nat
    decreases s.len(),
{
    if s.len() == 0 {
        0
    } else {
        utf8_len(s.drop_last()) + char_width(s.last())
    }
}

/// `&s[..min(s.len(), n)]` on a `str`: `None` where byte `n` falls inside a character.
pub open spec fn byte_prefix(s: Seq<char>, n: nat) -> Option<Seq<char>> {
    if utf8_len(s) <= n {
        Some(s)
    } else if exists|k: int| 0 <= k <= s.len() && utf8_len(#[trigger] s.take(k)) == n {
        Some(s.take(choose|k: int| 0 <= k <= s.len() && utf8_len(#[trigger] s.take(k)) == n))
    } else {
        None
    }
}

proof fn lemma_utf8_len_strict(s: Seq<char>, i: int, j: int)
    requires
        0 <= i < j <= s.len(),
    ensures
        utf8_len(s.take(i)) < utf8_len(s.take(j)),
    decreases j - i,
{
    assert(s.take(j).drop_last() =~= s.take(j - 1));
    if i < j - 1 {
        lemma_utf8_len_strict(s, i, j - 1);
    }
}

fn char_width_exec(c: char) -> (r: u64)
    ensures
        r == char_width(c),
{
    let u = c as u32;
    if u <= 0x7f {
        1
    } else if u <= 0x7ff {
        2
    } else if u <= 0xffff {
        3
    } else {
        4
    }
}

fn byte_prefix_exec(s: &Vec<char>, n: u64) -> (r: Option<Vec<char>>)
    ensures
        match r {
            Some(p) => byte_prefix(s@, n as nat) == Some(p@),
            None => byte_prefix(s@, n as nat) is None,
        },
{
    let mut acc: u64 = 0;
    assert(s@.take(0) =~= Seq::<char>::empty());
    for k in 0..s.len()
        invariant
            acc == utf8_len(s@.take(k as int)),
            acc <= n,
    {
        if acc == n {
            proof {
                assert forall|k2: int| 0 <= k2 <= s@.len() && utf8_len(#[trigger] s@.take(k2)) == n implies k2 == k by {
                    if k2 < k {
                        lemma_utf8_len_strict(s@, k2, k as int);
                    } else if k2 > k {
                        lemma_utf8_len_strict(s@, k as int, k2);
                    }
                }
                lemma_utf8_len_strict(s@, k as int, s@.len() as int);
                assert(s@.take(s@.len() as int) =~= s@);
            }
            let p = slice(s, 0, k);
            assert(p@ =~= s@.take(k as int));
            return Some(p);
        }
        let w = char_width_exec(s[k]);
        assert(s@.take(k + 1).drop_last() =~= s@.take(k as int));
        if w > n - acc {
            proof {
                assert forall|k2: int| 0 <= k2 <= s@.len() implies utf8_len(#[trigger] s@.take(k2)) != n by {
                    if k2 <= k {
                        if k2 < k {
                            lemma_utf8_len_strict(s@, k2, k as int);
                        }
                    } else {
                        if k2 > k + 1 {
                            lemma_utf8_len_strict(s@, k + 1, k2);
                        }
                    }
                }
                if k + 1 < s@.len() {
                    lemma_utf8_len_strict(s@, k + 1, s@.len() as int);
                }
                assert(s@.take(s@.len() as int) =~= s@);
            }
            return None;
        }
        acc = acc + w;
    }
    assert(s@.take(s@.len() as int) =~= s@);
    Some(s.clone())
}

/// Keys whose value is taken as a file name when it has a dot.
pub open spec fn name_key(kl: Seq<char>) -> bool {
    kl == "filename"@ || kl == "file"@ || kl == "name"@ || kl == "response-content-disposition"@
}

/// The file name a query string names, scanning its pairs in order.
pub open spec fn query_name(q: Seq<(Seq<char>, Seq<char>)>) -> Option<Seq<char>>
    decreases q.len(),
{
    if q.len() == 0 {
        None
    } else {
        let kl = lower(q[0].0);
        let v = q[0].1;
        if name_key(kl) && v.contains('.') {
            if kl == "response-content-disposition"@ && cd_name(v) is Some {
                cd_name(v)
            } else {
                Some(v)
            }
        } else if contains(kl, "content-disposition"@) && cd_name(v) is Some {
            cd_name(v)
        } else {
            query_name(q.drop_first())
        }
    }
}

/// Every Content-Disposition value read on the way to `query_name` is readable.
pub open spec fn query_ok(q: Seq<(Seq<char>, Seq<char>)>) -> bool
    decreases q.len(),
{
    if q.len() == 0 {
        true
    } else {
        let kl = lower(q[0].0);
        let v = q[0].1;
        if name_key(kl) && v.contains('.') {
            kl == "response-content-disposition"@ ==> cd_ok(v)
        } else if contains(kl, "content-disposition"@) {
            cd_ok(v) && (cd_name(v) is Some || query_ok(q.drop_first()))
        } else {
            query_ok(q.drop_first())
        }
    }
}

/// The path segments that are not empty.
pub open spec fn nonempty_segs(s: Seq<Seq<char>>) -> Seq<Seq<char>>
    decreases s.len(),
{
    if s.len() == 0 {
        Seq::empty()
    } else if s.last().len() > 0 {
        nonempty_segs(s.drop_last()).push(s.last())
    } else {
        nonempty_segs(s.drop_last())
    }
}

pub open spec fn archive_like(s: Seq<char>) -> bool {
    s == "archive"@ || s == "zip"@ || s == "tar.gz"@ || ends_with(s, ".zip"@) || ends_with(
        s,
        ".tar.gz"@,
    )
}

pub open spec fn is_forge_host(hl: Seq<char>) -> bool {
    contains(hl, "github.com"@) || contains(hl, "codeload"@) || contains(hl, "gitlab.com"@)
}

/// `repo-branch.zip` (or `.tar.gz`) for a repository archive path.
pub open spec fn forge_name(segs: Seq<Seq<char>>) -> Seq<char> {
    segs[1] + "-"@ + strip_suffix_all(strip_suffix_all(segs.last(), ".zip"@), ".tar.gz"@) + (if exists|i: int|
        0 <= i < segs.len() && contains(#[trigger] segs[i], "tar"@) {
        ".tar.gz"@
    } else {
        ".zip"@
    })
}

pub open spec fn is_forge_archive(u: UrlView, segs: Seq<Seq<char>>) -> bool {
    &&& u.host is Some
    &&& is_forge_host(lower(u.host->0))
    &&& segs.len() >= 2
    &&& exists|i: int| 0 <= i < segs.len() && archive_like(#[trigger] segs[i])
}

/// The file name a URL's path gives.
pub open spec fn path_name(u: UrlView) -> Option<Seq<char>> {
    match u.segments {
        None => None,
        Some(all) => {
            let segs = nonempty_segs(all);
            if is_forge_archive(u, segs) {
                Some(forge_name(segs))
            } else if segs.len() > 0 {
                let d = percent_decoded(replace_char(segs.last(), '+', "%20"@));
                if d.len() > 0 {
                    Some(d)
                } else {
                    None
                }
            } else {
                Some(Seq::empty())
            }
        },
    }
}

pub open spec fn url_name(u: UrlView) -> Option<Seq<char>> {
    match query_name(u.query) {
        Some(x) => Some(x),
        None => path_name(u),
    }
}

/// The name a torrent gets: its display name, else `torrent_` and the first
/// ten bytes of its info hash, else `torrent_download`.
pub open spec fn torrent_label(m: Option<MagnetView>) -> Seq<char> {
    match m {
        Some(mv) => if mv.name is Some && mv.name->0.len() > 0 {
            mv.name->0
        } else if mv.hash.len() > 0 {
            "torrent_"@ + byte_prefix(mv.hash, 10)->0
        } else {
            "torrent_download"@
        },
        None => "torrent_download"@,
    }
}

pub open spec fn label_ok(m: Option<MagnetView>) -> bool {
    match m {
        Some(mv) => !(mv.name is Some && mv.name->0.len() > 0) && mv.hash.len() > 0 ==> byte_prefix(
            mv.hash,
            10,
        ) is Some,
        None => true,
    }
}

/// The file name a URL (or magnet link) suggests.
pub open spec fn inferred_name(raw: Seq<char>) -> Option<Seq<char>> {
    if is_magnet(raw) {
        Some(torrent_label(magnet_of(trim(raw))))
    } else {
        match parsed_url(raw) {
            Some(u) => url_name(u),
            None => None,
        }
    }
}

/// Inference reads only what it can read without a split character.
pub open spec fn infer_ok(raw: Seq<char>) -> bool {
    if is_magnet(raw) {
        magnet_decodable(trim(raw)) && label_ok(magnet_of(trim(raw)))
    } else {
        match parsed_url(raw) {
            Some(u) => query_ok(u.query),
            None => true,
        }
    }
}

fn query_name_checked(q: &Vec<(String, String)>) -> (r: Option<Option<Vec<char>>>)
    ensures
        match r {
            Some(x) => query_ok(q.deep_view()) && match x {
                Some(n) => query_name(q.deep_view()) == Some(n@),
                None => query_name(q.deep_view()) is None,
            },
            None => !query_ok(q.deep_view()),
        },
{
    let ghost all = q.deep_view();
    assert(all.skip(0) =~= all);
    for i in 0..q.len()
        invariant
            all == q.deep_view(),
            query_name(all) == query_name(all.skip(i as int)),
            query_ok(all) == query_ok(all.skip(i as int)),
    {
        let ghost rest = all.skip(i as int);
        assert(rest[0] == all[i as int]);
        assert(rest.drop_first() =~= all.skip(i + 1));
        let k = chars_of(q[i].0.as_str());
        let v = chars_of(q[i].1.as_str());
        assert(rest[0].0 == k@ && rest[0].1 == v@);
        let kl = lower_vec(&k);
        let is_name = eq_lit(&kl, "filename") || eq_lit(&kl, "file") || eq_lit(&kl, "name")
            || eq_lit(&kl, "response-content-disposition");
        if is_name && has_char(&v, '.') {
            if eq_lit(&kl, "response-content-disposition") {
                match cd_checked(&v) {
                    None => {
                        return None;
                    },
                    Some(Some(n)) => {
                        return Some(Some(n));
                    },
                    Some(None) => {},
                }
            }
            return Some(Some(v));
        }
        let cdk = chars_of("content-disposition");
        if has_sub(&kl, &cdk) {
            match cd_checked(&v) {
                None => {
                    return None;
                },
                Some(Some(n)) => {
                    return Some(Some(n));
                },
                Some(None) => {},
            }
        }
    }
    assert(all.skip(q.len() as int) =~= Seq::<(Seq<char>, Seq<char>)>::empty());
    Some(None)
}

fn nonempty_segs_exec(segs: &Vec<String>) -> (r: Vec<Vec<char>>)
    ensures
        r.deep_view() == nonempty_segs(segs.deep_view()),
{
    let ghost all = segs.deep_view();
    let mut r: Vec<Vec<char>> = Vec::new();
    assert(r.deep_view() =~= Seq::<Seq<char>>::empty());
    for i in 0..segs.len()
        invariant
            all == segs.deep_view(),
            r.deep_view() == nonempty_segs(all.take(i as int)),
    {
        assert(all.take(i + 1).drop_last() =~= all.take(i as int));
        assert(all.take(i + 1).last() == segs[i as int]@);
        let c = chars_of(segs[i].as_str());
        if c.len() > 0 {
            let ghost before = r.deep_view();
            assert(c.deep_view() =~= c@);
            r.push(c);
            assert(r.deep_view() =~= before.push(c@));
        }
    }
    assert(all.take(segs.len() as int) =~= all);
    r
}

fn path_name_exec(u: &UrlParts) -> (r: Option<Vec<char>>)
    requires
        match u@.segments {
            Some(segs) => forall|i: int| 0 <= i < segs.len() ==> is_ascii_chars(#[trigger] segs[i]),
            None => true,
        },
    ensures
        match r {
            Some(n) => path_name(u@) == Some(n@),
            None => path_name(u@) is None,
        },
{
    let all = match &u.segments {
        Some(v) => v,
        None => {
            return None;
        },
    };
    let segs = nonempty_segs_exec(all);
    let ghost gs = segs.deep_view();
    proof {
        lemma_nonempty_segs_from(all.deep_view());
    }
    let mut forge = false;
    match &u.host {
        Some(h) => {
            let hl = lower_vec(&chars_of(h.as_str()));
            let forge_host = has_sub(&hl, &chars_of("github.com")) || has_sub(&hl, &chars_of("codeload"))
                || has_sub(&hl, &chars_of("gitlab.com"));
            if forge_host && segs.len() >= 2 {
                let mut any = false;
                for i in 0..segs.len()
                    invariant
                        gs == segs.deep_view(),
                        any == exists|j: int| 0 <= j < i && archive_like(#[trigger] gs[j]),
                {
                    assert(gs[i as int] == segs[i as int]@);
                    let s = &segs[i];
                    if eq_lit(s, "archive") || eq_lit(s, "zip") || eq_lit(s, "tar.gz")
                        || has_suffix(s, &chars_of(".zip")) || has_suffix(s, &chars_of(".tar.gz")) {
                        any = true;
                    }
                }
                forge = any;
            }
        },
        None => {},
    }
    assert(forge == is_forge_archive(u@, gs));
    if forge {
        let last = &segs[segs.len() - 1];
        let b1 = strip_suffix_all_vec(last, &chars_of(".zip"));
        let b2 = strip_suffix_all_vec(&b1, &chars_of(".tar.gz"));
        let mut tar = false;
        for i in 0..segs.len()
            invariant
                gs == segs.deep_view(),
                tar == exists|j: int| 0 <= j < i && contains(#[trigger] gs[j], "tar"@),
        {
            assert(gs[i as int] == segs[i as int]@);
            if has_sub(&segs[i], &chars_of("tar")) {
                tar = true;
            }
        }
        let mut out = segs[1].clone();
        append_str(&mut out, "-");
        append(&mut out, &b2);
        if tar {
            append_str(&mut out, ".tar.gz");
        } else {
            append_str(&mut out, ".zip");
        }
        assert(gs.last() == last@);
        assert(out@ =~= forge_name(gs));
        return Some(out);
    }
    if segs.len() > 0 {
        let last = &segs[segs.len() - 1];
        assert(gs.last() == last@);
        let rep = replace_char_vec(last, '+', &chars_of("%20"));
        proof {
            assert(is_ascii_chars(gs.last()));
            lemma_replace_ascii(gs.last());
            lemma_ascii_decodable(rep@);
        }
        let d = match decode_chars(&rep) {
            Some(d) => d,
            None => {
                return None;
            },
        };
        if d.len() > 0 {
            return Some(d);
        }
        return None;
    }
    Some(Vec::new())
}

proof fn lemma_nonempty_segs_from(s: Seq<Seq<char>>)
    ensures
        forall|i: int|
            0 <= i < nonempty_segs(s).len() ==> exists|j: int|
                0 <= j < s.len() && s[j] == #[trigger] nonempty_segs(s)[i],
    decreases s.len(),
{
    if s.len() > 0 {
        lemma_nonempty_segs_from(s.drop_last());
        let a = nonempty_segs(s.drop_last());
        assert forall|i: int| 0 <= i < nonempty_segs(s).len() implies exists|j: int|
            0 <= j < s.len() && s[j] == #[trigger] nonempty_segs(s)[i] by {
            if i < a.len() {
                let j = choose|j: int| 0 <= j < s.drop_last().len() && s.drop_last()[j] == a[i];
                assert(s[j] == a[i]);
            } else {
                assert(s[s.len() - 1] == s.last());
            }
        }
    }
}

proof fn lemma_replace_ascii(s: Seq<char>)
    requires
        is_ascii_chars(s),
    ensures
        is_ascii_chars(replace_char(s, '+', "%20"@)),
    decreases s.len(),
{
    reveal_strlit("%20");
    if s.len() > 0 {
        lemma_replace_ascii(s.drop_last());
    }
}

fn torrent_label_checked(m: &Option<MagnetInfo>) -> (r: Option<Vec<char>>)
    ensures
        match r {
            Some(n) => label_ok(opt_magnet(*m)) && n@ == torrent_label(opt_magnet(*m)),
            None => !label_ok(opt_magnet(*m)),
        },
{
    match m {
        Some(mv) => {
            match &mv.display_name {
                Some(n) => {
                    let c = chars_of(n.as_str());
                    if c.len() > 0 {
                        return Some(c);
                    }
                },
                None => {},
            }
            let h = chars_of(mv.info_hash.as_str());
            if h.len() > 0 {
                match byte_prefix_exec(&h, 10) {
                    Some(short) => {
                        let mut out = chars_of("torrent_");
                        append(&mut out, &short);
                        Some(out)
                    },
                    None => None,
                }
            } else {
                Some(chars_of("torrent_download"))
            }
        },
        None => Some(chars_of("torrent_download")),
    }
}

pub open spec fn opt_magnet(m: Option<MagnetInfo>) -> Option<MagnetView> {
    match m {
        Some(x) => Some(x@),
        None => None,
    }
}

/// Name inference that reports, as `None`, an input the inference cannot read.
fn infer_checked(raw: &str) -> (r: Option<Option<Vec<char>>>)
    ensures
        match r {
            Some(x) => infer_ok(raw@) && match x {
                Some(n) => inferred_name(raw@) == Some(n@),
                None => inferred_name(raw@) is None,
            },
            None => !infer_ok(raw@),
        },
{
    let t = trim_ws(&chars_of(raw));
    if has_prefix(&t, &chars_of("magnet:?")) {
        let ts = string_of(&t);
        let m = match try_parse_magnet(ts.as_str()) {
            Some(m) => m,
            None => {
                return None;
            },
        };
        return match torrent_label_checked(&m) {
            Some(n) => Some(Some(n)),
            None => None,
        };
    }
    let u = match parse_url(raw) {
        Some(u) => u,
        None => {
            return Some(None);
        },
    };
    match query_name_checked(&u.query) {
        None => None,
        Some(Some(n)) => Some(Some(n)),
        Some(None) => Some(path_name_exec(&u)),
    }
}

/// The file name a URL suggests: a name-like query value (or a
/// Content-Disposition in the query), a `repo-branch.zip` for repository
/// archives, the decoded last path segment, or a torrent's name.
pub fn infer_filename_from_url(raw: &str) -> (r: Option<String>)
    requires
        infer_ok(raw@),
    ensures
        opt_view(r) == inferred_name(raw@),
{
    match infer_checked(raw) {
        Some(Some(n)) => Some(string_of(&n)),
        _ => None,
    }
}

/// The default name for a URL: the inferred name, and `None` where
/// inference cannot read the URL (a query value with an undecodable
/// escape, or a torrent hash cut inside a character).
pub open spec fn default_name(raw: Seq<char>) -> Option<Seq<char>> {
    if infer_ok(raw) {
        inferred_name(raw)
    } else {
        None
    }
}

/// The default name of a URL is the name `infer_filename_from_url` gives,
/// on every URL inference can read.
pub proof fn lemma_default_name_is_inferred(raw: Seq<char>)
    requires
        infer_ok(raw),
    ensures
        default_name(raw) == inferred_name(raw),
{
}

/// The default name for a URL (see `default_name`).
pub fn url_basename(raw: &str) -> (r: Option<String>)
    ensures
        opt_view(r) == default_name(raw@),
        infer_ok(raw@) ==> opt_view(r) == inferred_name(raw@),
        !infer_ok(raw@) ==> r is None,
{
    match infer_checked(raw) {
        Some(_) => infer_filename_from_url(raw),
        None => None,
    }
}

// ------------------------------------------------------------------
// probe results
// ------------------------------------------------------------------

/// What the pre-flight request found out about a download.
#[derive(Debug, Clone)]
pub struct Probe {
    pub total: Option<u64>,
    pub accept_ranges: bool,
    pub etag: String,
    pub last_modified: String,
    pub filename_hint: Option<String>,
}

pub struct ProbeView {
    pub total: Option<u64>,
    pub accept_ranges: bool,
    pub etag: Seq<char>,
    pub last_modified: Seq<char>,
    pub filename_hint: Option<Seq<char>>,
}

impl View for Probe {
    type V = ProbeView;

    open spec fn view(&self) -> ProbeView {
        ProbeView {
            total: self.total,
            accept_ranges: self.accept_ranges,
            etag: self.etag@,
            last_modified: self.last_modified@,
            filename_hint: opt_view(self.filename_hint),
        }
    }
}

/// A magnet link needs no request: its name and size come from the link.
pub open spec fn magnet_probe(url: Seq<char>) -> ProbeView {
    let m = magnet_of(trim(url));
    ProbeView {
        total: match m {
            Some(mv) => mv.size,
            None => None,
        },
        accept_ranges: true,
        etag: Seq::empty(),
        last_modified: Seq::empty(),
        filename_hint: Some(torrent_label(m)),
    }
}

pub open spec fn magnet_probe_ok(url: Seq<char>) -> bool {
    magnet_decodable(trim(url)) && label_ok(magnet_of(trim(url)))
}

/// The probe result for a magnet link.
pub fn probe_magnet(url: &str) -> (r: Probe)
    requires
        magnet_probe_ok(url@),
    ensures
        r@ == magnet_probe(url@),
{
    let t = string_of(&trim_ws(&chars_of(url)));
    let m = parse_magnet(t.as_str());
    let total = match &m {
        Some(mv) => mv.total_size,
        None => None,
    };
    let name = match torrent_label_checked(&m) {
        Some(n) => n,
        None => Vec::new(),
    };
    Probe {
        total,
        accept_ranges: true,
        etag: String::new(),
        last_modified: String::new(),
        filename_hint: Some(string_of(&name)),
    }
}

/// The parts of a response the probe reads (header values that are visible ASCII).
#[derive(Debug, Clone)]
pub struct ResponseHead {
    pub status: u16,
    pub etag: Option<String>,
    pub last_modified: Option<String>,
    pub content_disposition: Option<String>,
    pub content_type: Option<String>,
    pub accept_ranges: Option<String>,
    pub content_range: Option<String>,
    pub content_length: Option<u64>,
    pub final_url: String,
}

pub struct HeadView {
    pub status: u16,
    pub etag: Option<Seq<char>>,
    pub last_modified: Option<Seq<char>>,
    pub content_disposition: Option<Seq<char>>,
    pub content_type: Option<Seq<char>>,
    pub accept_ranges: Option<Seq<char>>,
    pub content_range: Option<Seq<char>>,
    pub content_length: Option<u64>,
    pub final_url: Seq<char>,
}

impl View for ResponseHead {
    type V = HeadView;

    open spec fn view(&self) -> HeadView {
        HeadView {
            status: self.status,
            etag: opt_view(self.etag),
            last_modified: opt_view(self.last_modified),
            content_disposition: opt_view(self.content_disposition),
            content_type: opt_view(self.content_type),
            accept_ranges: opt_view(self.accept_ranges),
            content_range: opt_view(self.content_range),
            content_length: self.content_length,
            final_url: self.final_url@,
        }
    }
}

pub open spec fn or_empty(o: Option<Seq<char>>) -> Seq<char> {
    match o {
        Some(s) => s,
        None => Seq::empty(),
    }
}

/// A file name found in the response's Content-Disposition.
pub open spec fn head_cd(h: HeadView) -> Option<Seq<char>> {
    match h.content_disposition {
        Some(v) => cd_name(v),
        None => None,
    }
}

/// The name the probe settles on before any extension is added.
pub open spec fn hint_base(h: HeadView, url: Seq<char>) -> Option<Seq<char>> {
    match head_cd(h) {
        Some(n) => Some(n),
        None => match inferred_name(h.final_url) {
            Some(n) => Some(n),
            None => inferred_name(url),
        },
    }
}

/// A name without a dot gets the extension its Content-Type calls for.
pub open spec fn with_mime_ext(n: Option<Seq<char>>, content_type: Seq<char>) -> Option<Seq<char>> {
    match n {
        Some(x) => if !x.contains('.') && mime_ext(mime_main(content_type)) is Some {
            Some(x + mime_ext(mime_main(content_type))->0)
        } else {
            Some(x)
        },
        None => None,
    }
}

/// The probe result a response gives: a 206 means ranges work and the
/// Content-Range carries the total; a 416 tells nothing; otherwise the
/// length is the total and ranges work when the server says so and sends a length.
pub open spec fn probe_of(h: HeadView, url: Seq<char>) -> ProbeView {
    let accepts = match h.accept_ranges {
        Some(v) => contains(lower(v), "bytes"@),
        None => false,
    };
    let (total, ranged) = if h.status == 206 {
        (parse_u64_spec(after_last(or_empty(h.content_range), "/"@)), true)
    } else if h.status == 416 {
        (None, false)
    } else {
        (h.content_length, accepts && h.content_length is Some)
    };
    ProbeView {
        total,
        accept_ranges: ranged,
        etag: or_empty(h.etag),
        last_modified: or_empty(h.last_modified),
        filename_hint: with_mime_ext(hint_base(h, url), or_empty(h.content_type)),
    }
}

/// Everything the probe decodes on its way decodes.
pub open spec fn probe_ok(h: HeadView, url: Seq<char>) -> bool {
    &&& match h.content_disposition {
        Some(v) => cd_ok(v),
        None => true,
    }
    &&& head_cd(h) is None ==> infer_ok(h.final_url)
    &&& (head_cd(h) is None && inferred_name(h.final_url) is None) ==> infer_ok(url)
}

fn opt_chars(o: &Option<String>) -> (r: Vec<char>)
    ensures
        r@ == or_empty(opt_view(*o)),
{
    match o {
        Some(s) => chars_of(s.as_str()),
        None => Vec::new(),
    }
}

/// The probe result for a response, or `None` where the probe cannot read
/// a name it has to read (see `probe_ok`).
pub fn probe_response_checked(head: &ResponseHead, url: &str) -> (r: Option<Probe>)
    ensures
        match r {
            Some(p) => probe_ok(head@, url@) && p@ == probe_of(head@, url@),
            None => !probe_ok(head@, url@),
        },
{
    let ghost h = head@;
    let accepts = match &head.accept_ranges {
        Some(v) => has_sub(&lower_vec(&chars_of(v.as_str())), &chars_of("bytes")),
        None => false,
    };
    let (total, ranged) = if head.status == 206 {
        let cr = opt_chars(&head.content_range);
        let tail = after_last_vec(&cr, &chars_of("/"));
        (parse_u64(&tail), true)
    } else if head.status == 416 {
        (None, false)
    } else {
        (head.content_length, accepts && head.content_length.is_some())
    };
    let cd: Option<Vec<char>> = match &head.content_disposition {
        Some(v) => match cd_checked(&chars_of(v.as_str())) {
            Some(x) => x,
            None => {
                return None;
            },
        },
        None => None,
    };
    assert(match cd {
        Some(n) => head_cd(h) == Some(n@),
        None => head_cd(h) is None,
    });
    let base: Option<Vec<char>> = match cd {
        Some(n) => Some(n),
        None => match infer_checked(head.final_url.as_str()) {
            None => {
                return None;
            },
            Some(Some(n)) => Some(n),
            Some(None) => match infer_checked(url) {
                None => {
                    return None;
                },
                Some(x) => x,
            },
        },
    };
    assert(match base {
        Some(n) => hint_base(h, url@) == Some(n@),
        None => hint_base(h, url@) is None,
    });
    let ct = opt_chars(&head.content_type);
    let hint: Option<String> = match base {
        Some(n) => {
            if !has_char(&n, '.') {
                let low = lower_vec(&ct);
                let (first, _) = split_once_char(&low, ';');
                let main = trim_ws(&first);
                match mime_ext_exec(&main) {
                    Some(e) => {
                        let mut x = n.clone();
                        append_str(&mut x, e);
                        Some(string_of(&x))
                    },
                    None => Some(string_of(&n)),
                }
            } else {
                Some(string_of(&n))
            }
        },
        None => None,
    };
    Some(Probe {
        total,
        accept_ranges: ranged,
        etag: string_of(&opt_chars(&head.etag)),
        last_modified: string_of(&opt_chars(&head.last_modified)),
        filename_hint: hint,
    })
}

/// The probe result a response gives.
pub fn probe_from_response(head: &ResponseHead, url: &str) -> (r: Probe)
    requires
        probe_ok(head@, url@),
    ensures
        r@ == probe_of(head@, url@),
{
    match probe_response_checked(head, url) {
        Some(p) => p,
        None => Probe {
            total: None,
            accept_ranges: false,
            etag: String::new(),
            last_modified: String::new(),
            filename_hint: None,
        },
    }
}


/// Subtitle tracks (and other streams that answer ranges badly) are probed
/// with a plain request; everything else asks for its first byte.
pub open spec fn probe_with_range(url: Seq<char>) -> bool {
    !(contains(url, "timedtext"@) || ends_with(url, ".vtt"@) || ends_with(url, ".srt"@))
}

pub fn probe_uses_range(url: &str) -> (r: bool)
    ensures
        r == probe_with_range(url@),
{
    let v = chars_of(url);
    let t = chars_of("timedtext");
    let vtt = chars_of(".vtt");
    let srt = chars_of(".srt");
    !(has_sub(&v, &t) || has_suffix(&v, &vtt) || has_suffix(&v, &srt))
}

/// A first-byte probe answer is kept when it is a success (206 included);
/// otherwise the probe asks again without a range.
pub fn range_probe_accepted(status: u16) -> (r: bool)
    ensures
        r == (200 <= status <= 299),
{
    200 <= status && status <= 299
}


/// The probe result for a magnet link, or `None` where the link cannot be
/// read (see `magnet_probe_ok`).
pub fn magnet_probe_checked(url: &str) -> (r: Option<Probe>)
    ensures
        match r {
            Some(p) => magnet_probe_ok(url@) && p@ == magnet_probe(url@),
            None => !magnet_probe_ok(url@),
        },
{
    let t = string_of(&trim_ws(&chars_of(url)));
    match try_parse_magnet(t.as_str()) {
        None => None,
        Some(m) => {
            match torrent_label_checked(&m) {
                None => None,
                Some(_) => Some(probe_magnet(url)),
            }
        },
    }
}

/// The extension each media type calls for (archives, installers, disk
/// images, documents, videos, audio and images, each by its usual media
/// types); any other media type calls for none.
pub proof fn lemma_media_type_extensions(t: Seq<char>)
    ensures
        t == "application/zip"@ || t == "application/x-zip-compressed"@ || t == "application/x-zip"@ ==> mime_ext(t) == Some(".zip"@),
        t == "application/x-rar-compressed"@ || t == "application/vnd.rar"@ || t == "application/x-rar"@ ==> mime_ext(t) == Some(".rar"@),
        t == "application/x-7z-compressed"@ || t == "application/x-7z"@ ==> mime_ext(t) == Some(".7z"@),
        t == "application/x-tar"@ ==> mime_ext(t) == Some(".tar"@),
        t == "application/gzip"@ || t == "application/x-gzip"@ ==> mime_ext(t) == Some(".tar.gz"@),
        t == "application/x-msdownload"@ || t == "application/x-msdos-program"@ || t == "application/x-exe"@ || t == "application/exe"@ ==> mime_ext(t) == Some(".exe"@),
        t == "application/x-msi"@ ==> mime_ext(t) == Some(".msi"@),
        t == "application/x-iso9660-image"@ || t == "application/x-iso-image"@ ==> mime_ext(t) == Some(".iso"@),
        t == "application/pdf"@ ==> mime_ext(t) == Some(".pdf"@),
        t == "video/mp4"@ ==> mime_ext(t) == Some(".mp4"@),
        t == "video/x-matroska"@ ==> mime_ext(t) == Some(".mkv"@),
        t == "video/webm"@ ==> mime_ext(t) == Some(".webm"@),
        t == "video/quicktime"@ ==> mime_ext(t) == Some(".mov"@),
        t == "video/x-msvideo"@ ==> mime_ext(t) == Some(".avi"@),
        t == "audio/mpeg"@ || t == "audio/mp3"@ ==> mime_ext(t) == Some(".mp3"@),
        t == "audio/wav"@ || t == "audio/x-wav"@ ==> mime_ext(t) == Some(".wav"@),
        t == "audio/flac"@ || t == "audio/x-flac"@ ==> mime_ext(t) == Some(".flac"@),
        t == "audio/aac"@ ==> mime_ext(t) == Some(".aac"@),
        t == "image/jpeg"@ ==> mime_ext(t) == Some(".jpg"@),
        t == "image/png"@ ==> mime_ext(t) == Some(".png"@),
        t == "image/gif"@ ==> mime_ext(t) == Some(".gif"@),
        t == "image/webp"@ ==> mime_ext(t) == Some(".webp"@),
        t == "image/svg+xml"@ ==> mime_ext(t) == Some(".svg"@),
        t == "application/vnd.android.package-archive"@ ==> mime_ext(t) == Some(".apk"@),
        t == "application/epub+zip"@ ==> mime_ext(t) == Some(".epub"@),
        t != "application/zip"@ && t != "application/x-zip-compressed"@ && t != "application/x-zip"@ && t != "application/x-rar-compressed"@ && t != "application/vnd.rar"@ && t != "application/x-rar"@ && t != "application/x-7z-compressed"@ && t != "application/x-7z"@ && t != "application/x-tar"@ && t != "application/gzip"@ && t != "application/x-gzip"@ && t != "application/x-msdownload"@ && t != "application/x-msdos-program"@ && t != "application/x-exe"@ && t != "application/exe"@ && t != "application/x-msi"@ && t != "application/x-iso9660-image"@ && t != "application/x-iso-image"@ && t != "application/pdf"@ && t != "video/mp4"@ && t != "video/x-matroska"@ && t != "video/webm"@ && t != "video/quicktime"@ && t != "video/x-msvideo"@ && t != "audio/mpeg"@ && t != "audio/mp3"@ && t != "audio/wav"@ && t != "audio/x-wav"@ && t != "audio/flac"@ && t != "audio/x-flac"@ && t != "audio/aac"@ && t != "image/jpeg"@ && t != "image/png"@ && t != "image/gif"@ && t != "image/webp"@ && t != "image/svg+xml"@ && t != "application/vnd.android.package-archive"@ && t != "application/epub+zip"@ ==> mime_ext(t) is None,
{
    if t == "application/zip"@ {
        reveal_strlit("application/zip");
        assert(t.len() == 15 && t[0] == 'a' && t[1] == 'p' && t[2] == 'p' && t[3] == 'l' && t[4] == 'i' && t[5] == 'c' && t[6] == 'a' && t[7] == 't' && t[8] == 'i' && t[9] == 'o' && t[10] == 'n' && t[11] == '/' && t[12] == 'z' && t[13] == 'i' && t[14] == 'p');
    }
    if t == "application/x-zip-compressed"@ {
        reveal_strlit("application/x-zip-compressed");
        assert(t.len() == 28 && t[0] == 'a' && t[1] == 'p' && t[2] == 'p' && t[3] == 'l' && t[4] == 'i' && t[5] == 'c' && t[6] == 'a' && t[7] == 't' && t[8] == 'i' && t[9] == 'o' && t[10] == 'n' && t[11] == '/' && t[12] == 'x' && t[13] == '-' && t[14] == 'z' && t[15] == 'i' && t[16] == 'p' && t[17] == '-' && t[18] == 'c' && t[19] == 'o' && t[20] == 'm' && t[21] == 'p' && t[22] == 'r' && t[23] == 'e' && t[24] == 's' && t[25] == 's' && t[26] == 'e' && t[27] == 'd');
    }
    if t == "application/x-zip"@ {
        reveal_strlit("application/x-zip");
        assert(t.len() == 17 && t[0] == 'a' && t[1] == 'p' && t[2] == 'p' && t[3] == 'l' && t[4] == 'i' && t[5] == 'c' && t[6] == 'a' && t[7] == 't' && t[8] == 'i' && t[9] == 'o' && t[10] == 'n' && t[11] == '/' && t[12] == 'x' && t[13] == '-' && t[14] == 'z' && t[15] == 'i' && t[16] == 'p');
    }
    if t == "application/x-rar-compressed"@ {
        reveal_strlit("application/x-rar-compressed");
        assert(t.len() == 28 && t[0] == 'a' && t[1] == 'p' && t[2] == 'p' && t[3] == 'l' && t[4] == 'i' && t[5] == 'c' && t[6] == 'a' && t[7] == 't' && t[8] == 'i' && t[9] == 'o' && t[10] == 'n' && t[11] == '/' && t[12] == 'x' && t[13] == '-' && t[14] == 'r' && t[15] == 'a' && t[16] == 'r' && t[17] == '-' && t[18] == 'c' && t[19] == 'o' && t[20] == 'm' && t[21] == 'p' && t[22] == 'r' && t[23] == 'e' && t[24] == 's' && t[25] == 's' && t[26] == 'e' && t[27] == 'd');
        reveal_strlit("application/zip"); assert(t != "application/zip"@) by { assert("application/zip"@.len() == 15); }
        reveal_strlit("application/x-zip-compressed"); assert(t != "application/x-zip-compressed"@) by { assert("application/x-zip-compressed"@[14] == 'z'); }
        reveal_strlit("application/x-zip"); assert(t != "application/x-zip"@) by { assert("application/x-zip"@.len() == 17); }
    }
    if t == "application/vnd.rar"@ {
        reveal_strlit("application/vnd.rar");
        assert(t.len() == 19 && t[0] == 'a' && t[1] == 'p' && t[2] == 'p' && t[3] == 'l' && t[4] == 'i' && t[5] == 'c' && t[6] == 'a' && t[7] == 't' && t[8] == 'i' && t[9] == 'o' && t[10] == 'n' && t[11] == '/' && t[12] == 'v' && t[13] == 'n' && t[14] == 'd' && t[15] == '.' && t[16] == 'r' && t[17] == 'a' && t[18] == 'r');
        reveal_strlit("application/zip"); assert(t != "application/zip"@) by { assert("application/zip"@.len() == 15); }
        reveal_strlit("application/x-zip-compressed"); assert(t != "application/x-zip-compressed"@) by { assert("application/x-zip-compressed"@.len() == 28); }
        reveal_strlit("application/x-zip"); assert(t != "application/x-zip"@) by { assert("application/x-zip"@.len() == 17); }
    }
    if t == "application/x-rar"@ {
        reveal_strlit("application/x-rar");
        assert(t.len() == 17 && t[0] == 'a' && t[1] == 'p' && t[2] == 'p' && t[3] == 'l' && t[4] == 'i' && t[5] == 'c' && t[6] == 'a' && t[7] == 't' && t[8] == 'i' && t[9] == 'o' && t[10] == 'n' && t[11] == '/' && t[12] == 'x' && t[13] == '-' && t[14] == 'r' && t[15] == 'a' && t[16] == 'r');
        reveal_strlit("application/zip"); assert(t != "application/zip"@) by { assert("application/zip"@.len() == 15); }
        reveal_strlit("application/x-zip-compressed"); assert(t != "application/x-zip-compressed"@) by { assert("application/x-zip-compressed"@.len() == 28); }
        reveal_strlit("application/x-zip"); assert(t != "application/x-zip"@) by { assert("application/x-zip"@[14] == 'z'); }
    }
    if t == "application/x-7z-compressed"@ {
        reveal_strlit("application/x-7z-compressed");
        assert(t.len() == 27 && t[0] == 'a' && t[1] == 'p' && t[2] == 'p' && t[3] == 'l' && t[4] == 'i' && t[5] == 'c' && t[6] == 'a' && t[7] == 't' && t[8] == 'i' && t[9] == 'o' && t[10] == 'n' && t[11] == '/' && t[12] == 'x' && t[13] == '-' && t[14] == '7' && t[15] == 'z' && t[16] == '-' && t[17] == 'c' && t[18] == 'o' && t[19] == 'm' && t[20] == 'p' && t[21] == 'r' && t[22] == 'e' && t[23] == 's' && t[24] == 's' && t[25] == 'e' && t[26] == 'd');
        reveal_strlit("application/zip"); assert(t != "application/zip"@) by { assert("application/zip"@.len() == 15); }
        reveal_strlit("application/x-zip-compressed"); assert(t != "application/x-zip-compressed"@) by { assert("application/x-zip-compressed"@.len() == 28); }
        reveal_strlit("application/x-zip"); assert(t != "application/x-zip"@) by { assert("application/x-zip"@.len() == 17); }
        reveal_strlit("application/x-rar-compressed"); assert(t != "application/x-rar-compressed"@) by { assert("application/x-rar-compressed"@.len() == 28); }
        reveal_strlit("application/vnd.rar"); assert(t != "application/vnd.rar"@) by { assert("application/vnd.rar"@.len() == 19); }
        reveal_strlit("application/x-rar"); assert(t != "application/x-rar"@) by { assert("application/x-rar"@.len() == 17); }
    }
    if t == "application/x-7z"@ {
        reveal_strlit("application/x-7z");
        assert(t.len() == 16 && t[0] == 'a' && t[1] == 'p' && t[2] == 'p' && t[3] == 'l' && t[4] == 'i' && t[5] == 'c' && t[6] == 'a' && t[7] == 't' && t[8] == 'i' && t[9] == 'o' && t[10] == 'n' && t[11] == '/' && t[12] == 'x' && t[13] == '-' && t[14] == '7' && t[15] == 'z');
        reveal_strlit("application/zip"); assert(t != "application/zip"@) by { assert("application/zip"@.len() == 15); }
        reveal_strlit("application/x-zip-compressed"); assert(t != "application/x-zip-compressed"@) by { assert("application/x-zip-compressed"@.len() == 28); }
        reveal_strlit("application/x-zip"); assert(t != "application/x-zip"@) by { assert("application/x-zip"@.len() == 17); }
        reveal_strlit("application/x-rar-compressed"); assert(t != "application/x-rar-compressed"@) by { assert("application/x-rar-compressed"@.len() == 28); }
        reveal_strlit("application/vnd.rar"); assert(t != "application/vnd.rar"@) by { assert("application/vnd.rar"@.len() == 19); }
        reveal_strlit("application/x-rar"); assert(t != "application/x-rar"@) by { assert("application/x-rar"@.len() == 17); }
    }
    if t == "application/x-tar"@ {
        reveal_strlit("application/x-tar");
        assert(t.len() == 17 && t[0] == 'a' && t[1] == 'p' && t[2] == 'p' && t[3] == 'l' && t[4] == 'i' && t[5] == 'c' && t[6] == 'a' && t[7] == 't' && t[8] == 'i' && t[9] == 'o' && t[10] == 'n' && t[11] == '/' && t[12] == 'x' && t[13] == '-' && t[14] == 't' && t[15] == 'a' && t[16] == 'r');
        reveal_strlit("application/zip"); assert(t != "application/zip"@) by { assert("application/zip"@.len() == 15); }
        reveal_strlit("application/x-zip-compressed"); assert(t != "application/x-zip-compressed"@) by { assert("application/x-zip-compressed"@.len() == 28); }
        reveal_strlit("application/x-zip"); assert(t != "application/x-zip"@) by { assert("application/x-zip"@[14] == 'z'); }
        reveal_strlit("application/x-rar-compressed"); assert(t != "application/x-rar-compressed"@) by { assert("application/x-rar-compressed"@.len() == 28); }
        reveal_strlit("application/vnd.rar"); assert(t != "application/vnd.rar"@) by { assert("application/vnd.rar"@.len() == 19); }
        reveal_strlit("application/x-rar"); assert(t != "application/x-rar"@) by { assert("application/x-rar"@[14] == 'r'); }
        reveal_strlit("application/x-7z-compressed"); assert(t != "application/x-7z-compressed"@) by { assert("application/x-7z-compressed"@.len() == 27); }
        reveal_strlit("application/x-7z"); assert(t != "application/x-7z"@) by { assert("application/x-7z"@.len() == 16); }
    }
    if t == "application/gzip"@ {
        reveal_strlit("application/gzip");
        assert(t.len() == 16 && t[0] == 'a' && t[1] == 'p' && t[2] == 'p' && t[3] == 'l' && t[4] == 'i' && t[5] == 'c' && t[6] == 'a' && t[7] == 't' && t[8] == 'i' && t[9] == 'o' && t[10] == 'n' && t[11] == '/' && t[12] == 'g' && t[13] == 'z' && t[14] == 'i' && t[15] == 'p');
        reveal_strlit("application/zip"); assert(t != "application/zip"@) by { assert("application/zip"@.len() == 15); }
        reveal_strlit("application/x-zip-compressed"); assert(t != "application/x-zip-compressed"@) by { assert("application/x-zip-compressed"@.len() == 28); }
        reveal_strlit("application/x-zip"); assert(t != "application/x-zip"@) by { assert("application/x-zip"@.len() == 17); }
        reveal_strlit("application/x-rar-compressed"); assert(t != "application/x-rar-compressed"@) by { assert("application/x-rar-compressed"@.len() == 28); }
        reveal_strlit("application/vnd.rar"); assert(t != "application/vnd.rar"@) by { assert("application/vnd.rar"@.len() == 19); }
        reveal_strlit("application/x-rar"); assert(t != "application/x-rar"@) by { assert("application/x-rar"@.len() == 17); }
        reveal_strlit("application/x-7z-compressed"); assert(t != "application/x-7z-compressed"@) by { assert("application/x-7z-compressed"@.len() == 27); }
        reveal_strlit("application/x-7z"); assert(t != "application/x-7z"@) by { assert("application/x-7z"@[12] == 'x'); }
        reveal_strlit("application/x-tar"); assert(t != "application/x-tar"@) by { assert("application/x-tar"@.len() == 17); }
    }
    if t == "application/x-gzip"@ {
        reveal_strlit("application/x-gzip");
        assert(t.len() == 18 && t[0] == 'a' && t[1] == 'p' && t[2] == 'p' && t[3] == 'l' && t[4] == 'i' && t[5] == 'c' && t[6] == 'a' && t[7] == 't' && t[8] == 'i' && t[9] == 'o' && t[10] == 'n' && t[11] == '/' && t[12] == 'x' && t[13] == '-' && t[14] == 'g' && t[15] == 'z' && t[16] == 'i' && t[17] == 'p');
        reveal_strlit("application/zip"); assert(t != "application/zip"@) by { assert("application/zip"@.len() == 15); }
        reveal_strlit("application/x-zip-compressed"); assert(t != "application/x-zip-compressed"@) by { assert("application/x-zip-compressed"@.len() == 28); }
        reveal_strlit("application/x-zip"); assert(t != "application/x-zip"@) by { assert("application/x-zip"@.len() == 17); }
        reveal_strlit("application/x-rar-compressed"); assert(t != "application/x-rar-compressed"@) by { assert("application/x-rar-compressed"@.len() == 28); }
        reveal_strlit("application/vnd.rar"); assert(t != "application/vnd.rar"@) by { assert("application/vnd.rar"@.len() == 19); }
        reveal_strlit("application/x-rar"); assert(t != "application/x-rar"@) by { assert("application/x-rar"@.len() == 17); }
        reveal_strlit("application/x-7z-compressed"); assert(t != "application/x-7z-compressed"@) by { assert("application/x-7z-compressed"@.len() == 27); }
        reveal_strlit("application/x-7z"); assert(t != "application/x-7z"@) by { assert("application/x-7z"@.len() == 16); }
        reveal_strlit("application/x-tar"); assert(t != "application/x-tar"@) by { assert("application/x-tar"@.len() == 17); }
    }
    if t == "application/x-msdownload"@ {
        reveal_strlit("application/x-msdownload");
        assert(t.len() == 24 && t[0] == 'a' && t[1] == 'p' && t[2] == 'p' && t[3] == 'l' && t[4] == 'i' && t[5] == 'c' && t[6] == 'a' && t[7] == 't' && t[8] == 'i' && t[9] == 'o' && t[10] == 'n' && t[11] == '/' && t[12] == 'x' && t[13] == '-' && t[14] == 'm' && t[15] == 's' && t[16] == 'd' && t[17] == 'o' && t[18] == 'w' && t[19] == 'n' && t[20] == 'l' && t[21] == 'o' && t[22] == 'a' && t[23] == 'd');
        reveal_strlit("application/zip"); assert(t != "application/zip"@) by { assert("application/zip"@.len() == 15); }
        reveal_strlit("application/x-zip-compressed"); assert(t != "application/x-zip-compressed"@) by { assert("application/x-zip-compressed"@.len() == 28); }
        reveal_strlit("application/x-zip"); assert(t != "application/x-zip"@) by { assert("application/x-zip"@.len() == 17); }
        reveal_strlit("application/x-rar-compressed"); assert(t != "application/x-rar-compressed"@) by { assert("application/x-rar-compressed"@.len() == 28); }
        reveal_strlit("application/vnd.rar"); assert(t != "application/vnd.rar"@) by { assert("application/vnd.rar"@.len() == 19); }
        reveal_strlit("application/x-rar"); assert(t != "application/x-rar"@) by { assert("application/x-rar"@.len() == 17); }
        reveal_strlit("application/x-7z-compressed"); assert(t != "application/x-7z-compressed"@) by { assert("application/x-7z-compressed"@.len() == 27); }
        reveal_strlit("application/x-7z"); assert(t != "application/x-7z"@) by { assert("application/x-7z"@.len() == 16); }
        reveal_strlit("application/x-tar"); assert(t != "application/x-tar"@) by { assert("application/x-tar"@.len() == 17); }
        reveal_strlit("application/gzip"); assert(t != "application/gzip"@) by { assert("application/gzip"@.len() == 16); }
        reveal_strlit("application/x-gzip"); assert(t != "application/x-gzip"@) by { assert("application/x-gzip"@.len() == 18); }
    }
    if t == "application/x-msdos-program"@ {
        reveal_strlit("application/x-msdos-program");
        assert(t.len() == 27 && t[0] == 'a' && t[1] == 'p' && t[2] == 'p' && t[3] == 'l' && t[4] == 'i' && t[5] == 'c' && t[6] == 'a' && t[7] == 't' && t[8] == 'i' && t[9] == 'o' && t[10] == 'n' && t[11] == '/' && t[12] == 'x' && t[13] == '-' && t[14] == 'm' && t[15] == 's' && t[16] == 'd' && t[17] == 'o' && t[18] == 's' && t[19] == '-' && t[20] == 'p' && t[21] == 'r' && t[22] == 'o' && t[23] == 'g' && t[24] == 'r' && t[25] == 'a' && t[26] == 'm');
        reveal_strlit("application/zip"); assert(t != "application/zip"@) by { assert("application/zip"@.len() == 15); }
        reveal_strlit("application/x-zip-compressed"); assert(t != "application/x-zip-compressed"@) by { assert("application/x-zip-compressed"@.len() == 28); }
        reveal_strlit("application/x-zip"); assert(t != "application/x-zip"@) by { assert("application/x-zip"@.len() == 17); }
        reveal_strlit("application/x-rar-compressed"); assert(t != "application/x-rar-compressed"@) by { assert("application/x-rar-compressed"@.len() == 28); }
        reveal_strlit("application/vnd.rar"); assert(t != "application/vnd.rar"@) by { assert("application/vnd.rar"@.len() == 19); }
        reveal_strlit("application/x-rar"); assert(t != "application/x-rar"@) by { assert("application/x-rar"@.len() == 17); }
        reveal_strlit("application/x-7z-compressed"); assert(t != "application/x-7z-compressed"@) by { assert("application/x-7z-compressed"@[14] == '7'); }
        reveal_strlit("application/x-7z"); assert(t != "application/x-7z"@) by { assert("application/x-7z"@.len() == 16); }
        reveal_strlit("application/x-tar"); assert(t != "application/x-tar"@) by { assert("application/x-tar"@.len() == 17); }
        reveal_strlit("application/gzip"); assert(t != "application/gzip"@) by { assert("application/gzip"@.len() == 16); }
        reveal_strlit("application/x-gzip"); assert(t != "application/x-gzip"@) by { assert("application/x-gzip"@.len() == 18); }
    }
    if t == "application/x-exe"@ {
        reveal_strlit("application/x-exe");
        assert(t.len() == 17 && t[0] == 'a' && t[1] == 'p' && t[2] == 'p' && t[3] == 'l' && t[4] == 'i' && t[5] == 'c' && t[6] == 'a' && t[7] == 't' && t[8] == 'i' && t[9] == 'o' && t[10] == 'n' && t[11] == '/' && t[12] == 'x' && t[13] == '-' && t[14] == 'e' && t[15] == 'x' && t[16] == 'e');
        reveal_strlit("application/zip"); assert(t != "application/zip"@) by { assert("application/zip"@.len() == 15); }
        reveal_strlit("application/x-zip-compressed"); assert(t != "application/x-zip-compressed"@) by { assert("application/x-zip-compressed"@.len() == 28); }
        reveal_strlit("application/x-zip"); assert(t != "application/x-zip"@) by { assert("application/x-zip"@[14] == 'z'); }
        reveal_strlit("application/x-rar-compressed"); assert(t != "application/x-rar-compressed"@) by { assert("application/x-rar-compressed"@.len() == 28); }
        reveal_strlit("application/vnd.rar"); assert(t != "application/vnd.rar"@) by { assert("application/vnd.rar"@.len() == 19); }
        reveal_strlit("application/x-rar"); assert(t != "application/x-rar"@) by { assert("application/x-rar"@[14] == 'r'); }
        reveal_strlit("application/x-7z-compressed"); assert(t != "application/x-7z-compressed"@) by { assert("application/x-7z-compressed"@.len() == 27); }
        reveal_strlit("application/x-7z"); assert(t != "application/x-7z"@) by { assert("application/x-7z"@.len() == 16); }
        reveal_strlit("application/x-tar"); assert(t != "application/x-tar"@) by { assert("application/x-tar"@[14] == 't'); }
        reveal_strlit("application/gzip"); assert(t != "application/gzip"@) by { assert("application/gzip"@.len() == 16); }
        reveal_strlit("application/x-gzip"); assert(t != "application/x-gzip"@) by { assert("application/x-gzip"@.len() == 18); }
    }
    if t == "application/exe"@ {
        reveal_strlit("application/exe");
        assert(t.len() == 15 && t[0] == 'a' && t[1] == 'p' && t[2] == 'p' && t[3] == 'l' && t[4] == 'i' && t[5] == 'c' && t[6] == 'a' && t[7] == 't' && t[8] == 'i' && t[9] == 'o' && t[10] == 'n' && t[11] == '/' && t[12] == 'e' && t[13] == 'x' && t[14] == 'e');
        reveal_strlit("application/zip"); assert(t != "application/zip"@) by { assert("application/zip"@[12] == 'z'); }
        reveal_strlit("application/x-zip-compressed"); assert(t != "application/x-zip-compressed"@) by { assert("application/x-zip-compressed"@.len() == 28); }
        reveal_strlit("application/x-zip"); assert(t != "application/x-zip"@) by { assert("application/x-zip"@.len() == 17); }
        reveal_strlit("application/x-rar-compressed"); assert(t != "application/x-rar-compressed"@) by { assert("application/x-rar-compressed"@.len() == 28); }
        reveal_strlit("application/vnd.rar"); assert(t != "application/vnd.rar"@) by { assert("application/vnd.rar"@.len() == 19); }
        reveal_strlit("application/x-rar"); assert(t != "application/x-rar"@) by { assert("application/x-rar"@.len() == 17); }
        reveal_strlit("application/x-7z-compressed"); assert(t != "application/x-7z-compressed"@) by { assert("application/x-7z-compressed"@.len() == 27); }
        reveal_strlit("application/x-7z"); assert(t != "application/x-7z"@) by { assert("application/x-7z"@.len() == 16); }
        reveal_strlit("application/x-tar"); assert(t != "application/x-tar"@) by { assert("application/x-tar"@.len() == 17); }
        reveal_strlit("application/gzip"); assert(t != "application/gzip"@) by { assert("application/gzip"@.len() == 16); }
        reveal_strlit("application/x-gzip"); assert(t != "application/x-gzip"@) by { assert("application/x-gzip"@.len() == 18); }
    }
    if t == "application/x-msi"@ {
        reveal_strlit("application/x-msi");
        assert(t.len() == 17 && t[0] == 'a' && t[1] == 'p' && t[2] == 'p' && t[3] == 'l' && t[4] == 'i' && t[5] == 'c' && t[6] == 'a' && t[7] == 't' && t[8] == 'i' && t[9] == 'o' && t[10] == 'n' && t[11] == '/' && t[12] == 'x' && t[13] == '-' && t[14] == 'm' && t[15] == 's' && t[16] == 'i');
        reveal_strlit("application/zip"); assert(t != "application/zip"@) by { assert("application/zip"@.len() == 15); }
        reveal_strlit("application/x-zip-compressed"); assert(t != "application/x-zip-compressed"@) by { assert("application/x-zip-compressed"@.len() == 28); }
        reveal_strlit("application/x-zip"); assert(t != "application/x-zip"@) by { assert("application/x-zip"@[14] == 'z'); }
        reveal_strlit("application/x-rar-compressed"); assert(t != "application/x-rar-compressed"@) by { assert("application/x-rar-compressed"@.len() == 28); }
        reveal_strlit("application/vnd.rar"); assert(t != "application/vnd.rar"@) by { assert("application/vnd.rar"@.len() == 19); }
        reveal_strlit("application/x-rar"); assert(t != "application/x-rar"@) by { assert("application/x-rar"@[14] == 'r'); }
        reveal_strlit("application/x-7z-compressed"); assert(t != "application/x-7z-compressed"@) by { assert("application/x-7z-compressed"@.len() == 27); }
        reveal_strlit("application/x-7z"); assert(t != "application/x-7z"@) by { assert("application/x-7z"@.len() == 16); }
        reveal_strlit("application/x-tar"); assert(t != "application/x-tar"@) by { assert("application/x-tar"@[14] == 't'); }
        reveal_strlit("application/gzip"); assert(t != "application/gzip"@) by { assert("application/gzip"@.len() == 16); }
        reveal_strlit("application/x-gzip"); assert(t != "application/x-gzip"@) by { assert("application/x-gzip"@.len() == 18); }
        reveal_strlit("application/x-msdownload"); assert(t != "application/x-msdownload"@) by { assert("application/x-msdownload"@.len() == 24); }
        reveal_strlit("application/x-msdos-program"); assert(t != "application/x-msdos-program"@) by { assert("application/x-msdos-program"@.len() == 27); }
        reveal_strlit("application/x-exe"); assert(t != "application/x-exe"@) by { assert("application/x-exe"@[14] == 'e'); }
        reveal_strlit("application/exe"); assert(t != "application/exe"@) by { assert("application/exe"@.len() == 15); }
    }
    if t == "application/x-iso9660-image"@ {
        reveal_strlit("application/x-iso9660-image");
        assert(t.len() == 27 && t[0] == 'a' && t[1] == 'p' && t[2] == 'p' && t[3] == 'l' && t[4] == 'i' && t[5] == 'c' && t[6] == 'a' && t[7] == 't' && t[8] == 'i' && t[9] == 'o' && t[10] == 'n' && t[11] == '/' && t[12] == 'x' && t[13] == '-' && t[14] == 'i' && t[15] == 's' && t[16] == 'o' && t[17] == '9' && t[18] == '6' && t[19] == '6' && t[20] == '0' && t[21] == '-' && t[22] == 'i' && t[23] == 'm' && t[24] == 'a' && t[25] == 'g' && t[26] == 'e');
        reveal_strlit("application/zip"); assert(t != "application/zip"@) by { assert("application/zip"@.len() == 15); }
        reveal_strlit("application/x-zip-compressed"); assert(t != "application/x-zip-compressed"@) by { assert("application/x-zip-compressed"@.len() == 28); }
        reveal_strlit("application/x-zip"); assert(t != "application/x-zip"@) by { assert("application/x-zip"@.len() == 17); }
        reveal_strlit("application/x-rar-compressed"); assert(t != "application/x-rar-compressed"@) by { assert("application/x-rar-compressed"@.len() == 28); }
        reveal_strlit("application/vnd.rar"); assert(t != "application/vnd.rar"@) by { assert("application/vnd.rar"@.len() == 19); }
        reveal_strlit("application/x-rar"); assert(t != "application/x-rar"@) by { assert("application/x-rar"@.len() == 17); }
        reveal_strlit("application/x-7z-compressed"); assert(t != "application/x-7z-compressed"@) by { assert("application/x-7z-compressed"@[14] == '7'); }
        reveal_strlit("application/x-7z"); assert(t != "application/x-7z"@) by { assert("application/x-7z"@.len() == 16); }
        reveal_strlit("application/x-tar"); assert(t != "application/x-tar"@) by { assert("application/x-tar"@.len() == 17); }
        reveal_strlit("application/gzip"); assert(t != "application/gzip"@) by { assert("application/gzip"@.len() == 16); }
        reveal_strlit("application/x-gzip"); assert(t != "application/x-gzip"@) by { assert("application/x-gzip"@.len() == 18); }
        reveal_strlit("application/x-msdownload"); assert(t != "application/x-msdownload"@) by { assert("application/x-msdownload"@.len() == 24); }
        reveal_strlit("application/x-msdos-program"); assert(t != "application/x-msdos-program"@) by { assert("application/x-msdos-program"@[14] == 'm'); }
        reveal_strlit("application/x-exe"); assert(t != "application/x-exe"@) by { assert("application/x-exe"@.len() == 17); }
        reveal_strlit("application/exe"); assert(t != "application/exe"@) by { assert("application/exe"@.len() == 15); }
        reveal_strlit("application/x-msi"); assert(t != "application/x-msi"@) by { assert("application/x-msi"@.len() == 17); }
    }
    if t == "application/x-iso-image"@ {
        reveal_strlit("application/x-iso-image");
        assert(t.len() == 23 && t[0] == 'a' && t[1] == 'p' && t[2] == 'p' && t[3] == 'l' && t[4] == 'i' && t[5] == 'c' && t[6] == 'a' && t[7] == 't' && t[8] == 'i' && t[9] == 'o' && t[10] == 'n' && t[11] == '/' && t[12] == 'x' && t[13] == '-' && t[14] == 'i' && t[15] == 's' && t[16] == 'o' && t[17] == '-' && t[18] == 'i' && t[19] == 'm' && t[20] == 'a' && t[21] == 'g' && t[22] == 'e');
        reveal_strlit("application/zip"); assert(t != "application/zip"@) by { assert("application/zip"@.len() == 15); }
        reveal_strlit("application/x-zip-compressed"); assert(t != "application/x-zip-compressed"@) by { assert("application/x-zip-compressed"@.len() == 28); }
        reveal_strlit("application/x-zip"); assert(t != "application/x-zip"@) by { assert("application/x-zip"@.len() == 17); }
        reveal_strlit("application/x-rar-compressed"); assert(t != "application/x-rar-compressed"@) by { assert("application/x-rar-compressed"@.len() == 28); }
        reveal_strlit("application/vnd.rar"); assert(t != "application/vnd.rar"@) by { assert("application/vnd.rar"@.len() == 19); }
        reveal_strlit("application/x-rar"); assert(t != "application/x-rar"@) by { assert("application/x-rar"@.len() == 17); }
        reveal_strlit("application/x-7z-compressed"); assert(t != "application/x-7z-compressed"@) by { assert("application/x-7z-compressed"@.len() == 27); }
        reveal_strlit("application/x-7z"); assert(t != "application/x-7z"@) by { assert("application/x-7z"@.len() == 16); }
        reveal_strlit("application/x-tar"); assert(t != "application/x-tar"@) by { assert("application/x-tar"@.len() == 17); }
        reveal_strlit("application/gzip"); assert(t != "application/gzip"@) by { assert("application/gzip"@.len() == 16); }
        reveal_strlit("application/x-gzip"); assert(t != "application/x-gzip"@) by { assert("application/x-gzip"@.len() == 18); }
        reveal_strlit("application/x-msdownload"); assert(t != "application/x-msdownload"@) by { assert("application/x-msdownload"@.len() == 24); }
        reveal_strlit("application/x-msdos-program"); assert(t != "application/x-msdos-program"@) by { assert("application/x-msdos-program"@.len() == 27); }
        reveal_strlit("application/x-exe"); assert(t != "application/x-exe"@) by { assert("application/x-exe"@.len() == 17); }
        reveal_strlit("application/exe"); assert(t != "application/exe"@) by { assert("application/exe"@.len() == 15); }
        reveal_strlit("application/x-msi"); assert(t != "application/x-msi"@) by { assert("application/x-msi"@.len() == 17); }
    }
    if t == "application/pdf"@ {
        reveal_strlit("application/pdf");
        assert(t.len() == 15 && t[0] == 'a' && t[1] == 'p' && t[2] == 'p' && t[3] == 'l' && t[4] == 'i' && t[5] == 'c' && t[6] == 'a' && t[7] == 't' && t[8] == 'i' && t[9] == 'o' && t[10] == 'n' && t[11] == '/' && t[12] == 'p' && t[13] == 'd' && t[14] == 'f');
        reveal_strlit("application/zip"); assert(t != "application/zip"@) by { assert("application/zip"@[12] == 'z'); }
        reveal_strlit("application/x-zip-compressed"); assert(t != "application/x-zip-compressed"@) by { assert("application/x-zip-compressed"@.len() == 28); }
        reveal_strlit("application/x-zip"); assert(t != "application/x-zip"@) by { assert("application/x-zip"@.len() == 17); }
        reveal_strlit("application/x-rar-compressed"); assert(t != "application/x-rar-compressed"@) by { assert("application/x-rar-compressed"@.len() == 28); }
        reveal_strlit("application/vnd.rar"); assert(t != "application/vnd.rar"@) by { assert("application/vnd.rar"@.len() == 19); }
        reveal_strlit("application/x-rar"); assert(t != "application/x-rar"@) by { assert("application/x-rar"@.len() == 17); }
        reveal_strlit("application/x-7z-compressed"); assert(t != "application/x-7z-compressed"@) by { assert("application/x-7z-compressed"@.len() == 27); }
        reveal_strlit("application/x-7z"); assert(t != "application/x-7z"@) by { assert("application/x-7z"@.len() == 16); }
        reveal_strlit("application/x-tar"); assert(t != "application/x-tar"@) by { assert("application/x-tar"@.len() == 17); }
        reveal_strlit("application/gzip"); assert(t != "application/gzip"@) by { assert("application/gzip"@.len() == 16); }
        reveal_strlit("application/x-gzip"); assert(t != "application/x-gzip"@) by { assert("application/x-gzip"@.len() == 18); }
        reveal_strlit("application/x-msdownload"); assert(t != "application/x-msdownload"@) by { assert("application/x-msdownload"@.len() == 24); }
        reveal_strlit("application/x-msdos-program"); assert(t != "application/x-msdos-program"@) by { assert("application/x-msdos-program"@.len() == 27); }
        reveal_strlit("application/x-exe"); assert(t != "application/x-exe"@) by { assert("application/x-exe"@.len() == 17); }
        reveal_strlit("application/exe"); assert(t != "application/exe"@) by { assert("application/exe"@[12] == 'e'); }
        reveal_strlit("application/x-msi"); assert(t != "application/x-msi"@) by { assert("application/x-msi"@.len() == 17); }
        reveal_strlit("application/x-iso9660-image"); assert(t != "application/x-iso9660-image"@) by { assert("application/x-iso9660-image"@.len() == 27); }
        reveal_strlit("application/x-iso-image"); assert(t != "application/x-iso-image"@) by { assert("application/x-iso-image"@.len() == 23); }
    }
    if t == "video/mp4"@ {
        reveal_strlit("video/mp4");
        assert(t.len() == 9 && t[0] == 'v' && t[1] == 'i' && t[2] == 'd' && t[3] == 'e' && t[4] == 'o' && t[5] == '/' && t[6] == 'm' && t[7] == 'p' && t[8] == '4');
        reveal_strlit("application/zip"); assert(t != "application/zip"@) by { assert("application/zip"@.len() == 15); }
        reveal_strlit("application/x-zip-compressed"); assert(t != "application/x-zip-compressed"@) by { assert("application/x-zip-compressed"@.len() == 28); }
        reveal_strlit("application/x-zip"); assert(t != "application/x-zip"@) by { assert("application/x-zip"@.len() == 17); }
        reveal_strlit("application/x-rar-compressed"); assert(t != "application/x-rar-compressed"@) by { assert("application/x-rar-compressed"@.len() == 28); }
        reveal_strlit("application/vnd.rar"); assert(t != "application/vnd.rar"@) by { assert("application/vnd.rar"@.len() == 19); }
        reveal_strlit("application/x-rar"); assert(t != "application/x-rar"@) by { assert("application/x-rar"@.len() == 17); }
        reveal_strlit("application/x-7z-compressed"); assert(t != "application/x-7z-compressed"@) by { assert("application/x-7z-compressed"@.len() == 27); }
        reveal_strlit("application/x-7z"); assert(t != "application/x-7z"@) by { assert("application/x-7z"@.len() == 16); }
        reveal_strlit("application/x-tar"); assert(t != "application/x-tar"@) by { assert("application/x-tar"@.len() == 17); }
        reveal_strlit("application/gzip"); assert(t != "application/gzip"@) by { assert("application/gzip"@.len() == 16); }
        reveal_strlit("application/x-gzip"); assert(t != "application/x-gzip"@) by { assert("application/x-gzip"@.len() == 18); }
        reveal_strlit("application/x-msdownload"); assert(t != "application/x-msdownload"@) by { assert("application/x-msdownload"@.len() == 24); }
        reveal_strlit("application/x-msdos-program"); assert(t != "application/x-msdos-program"@) by { assert("application/x-msdos-program"@.len() == 27); }
        reveal_strlit("application/x-exe"); assert(t != "application/x-exe"@) by { assert("application/x-exe"@.len() == 17); }
        reveal_strlit("application/exe"); assert(t != "application/exe"@) by { assert("application/exe"@.len() == 15); }
        reveal_strlit("application/x-msi"); assert(t != "application/x-msi"@) by { assert("application/x-msi"@.len() == 17); }
        reveal_strlit("application/x-iso9660-image"); assert(t != "application/x-iso9660-image"@) by { assert("application/x-iso9660-image"@.len() == 27); }
        reveal_strlit("application/x-iso-image"); assert(t != "application/x-iso-image"@) by { assert("application/x-iso-image"@.len() == 23); }
        reveal_strlit("application/pdf"); assert(t != "application/pdf"@) by { assert("application/pdf"@.len() == 15); }
    }
    if t == "video/x-matroska"@ {
        reveal_strlit("video/x-matroska");
        assert(t.len() == 16 && t[0] == 'v' && t[1] == 'i' && t[2] == 'd' && t[3] == 'e' && t[4] == 'o' && t[5] == '/' && t[6] == 'x' && t[7] == '-' && t[8] == 'm' && t[9] == 'a' && t[10] == 't' && t[11] == 'r' && t[12] == 'o' && t[13] == 's' && t[14] == 'k' && t[15] == 'a');
        reveal_strlit("application/zip"); assert(t != "application/zip"@) by { assert("application/zip"@.len() == 15); }
        reveal_strlit("application/x-zip-compressed"); assert(t != "application/x-zip-compressed"@) by { assert("application/x-zip-compressed"@.len() == 28); }
        reveal_strlit("application/x-zip"); assert(t != "application/x-zip"@) by { assert("application/x-zip"@.len() == 17); }
        reveal_strlit("application/x-rar-compressed"); assert(t != "application/x-rar-compressed"@) by { assert("application/x-rar-compressed"@.len() == 28); }
        reveal_strlit("application/vnd.rar"); assert(t != "application/vnd.rar"@) by { assert("application/vnd.rar"@.len() == 19); }
        reveal_strlit("application/x-rar"); assert(t != "application/x-rar"@) by { assert("application/x-rar"@.len() == 17); }
        reveal_strlit("application/x-7z-compressed"); assert(t != "application/x-7z-compressed"@) by { assert("application/x-7z-compressed"@.len() == 27); }
        reveal_strlit("application/x-7z"); assert(t != "application/x-7z"@) by { assert("application/x-7z"@[0] == 'a'); }
        reveal_strlit("application/x-tar"); assert(t != "application/x-tar"@) by { assert("application/x-tar"@.len() == 17); }
        reveal_strlit("application/gzip"); assert(t != "application/gzip"@) by { assert("application/gzip"@[0] == 'a'); }
        reveal_strlit("application/x-gzip"); assert(t != "application/x-gzip"@) by { assert("application/x-gzip"@.len() == 18); }
        reveal_strlit("application/x-msdownload"); assert(t != "application/x-msdownload"@) by { assert("application/x-msdownload"@.len() == 24); }
        reveal_strlit("application/x-msdos-program"); assert(t != "application/x-msdos-program"@) by { assert("application/x-msdos-program"@.len() == 27); }
        reveal_strlit("application/x-exe"); assert(t != "application/x-exe"@) by { assert("application/x-exe"@.len() == 17); }
        reveal_strlit("application/exe"); assert(t != "application/exe"@) by { assert("application/exe"@.len() == 15); }
        reveal_strlit("application/x-msi"); assert(t != "application/x-msi"@) by { assert("application/x-msi"@.len() == 17); }
        reveal_strlit("application/x-iso9660-image"); assert(t != "application/x-iso9660-image"@) by { assert("application/x-iso9660-image"@.len() == 27); }
        reveal_strlit("application/x-iso-image"); assert(t != "application/x-iso-image"@) by { assert("application/x-iso-image"@.len() == 23); }
        reveal_strlit("application/pdf"); assert(t != "application/pdf"@) by { assert("application/pdf"@.len() == 15); }
        reveal_strlit("video/mp4"); assert(t != "video/mp4"@) by { assert("video/mp4"@.len() == 9); }
    }
    if t == "video/webm"@ {
        reveal_strlit("video/webm");
        assert(t.len() == 10 && t[0] == 'v' && t[1] == 'i' && t[2] == 'd' && t[3] == 'e' && t[4] == 'o' && t[5] == '/' && t[6] == 'w' && t[7] == 'e' && t[8] == 'b' && t[9] == 'm');
        reveal_strlit("application/zip"); assert(t != "application/zip"@) by { assert("application/zip"@.len() == 15); }
        reveal_strlit("application/x-zip-compressed"); assert(t != "application/x-zip-compressed"@) by { assert("application/x-zip-compressed"@.len() == 28); }
        reveal_strlit("application/x-zip"); assert(t != "application/x-zip"@) by { assert("application/x-zip"@.len() == 17); }
        reveal_strlit("application/x-rar-compressed"); assert(t != "application/x-rar-compressed"@) by { assert("application/x-rar-compressed"@.len() == 28); }
        reveal_strlit("application/vnd.rar"); assert(t != "application/vnd.rar"@) by { assert("application/vnd.rar"@.len() == 19); }
        reveal_strlit("application/x-rar"); assert(t != "application/x-rar"@) by { assert("application/x-rar"@.len() == 17); }
        reveal_strlit("application/x-7z-compressed"); assert(t != "application/x-7z-compressed"@) by { assert("application/x-7z-compressed"@.len() == 27); }
        reveal_strlit("application/x-7z"); assert(t != "application/x-7z"@) by { assert("application/x-7z"@.len() == 16); }
        reveal_strlit("application/x-tar"); assert(t != "application/x-tar"@) by { assert("application/x-tar"@.len() == 17); }
        reveal_strlit("application/gzip"); assert(t != "application/gzip"@) by { assert("application/gzip"@.len() == 16); }
        reveal_strlit("application/x-gzip"); assert(t != "application/x-gzip"@) by { assert("application/x-gzip"@.len() == 18); }
        reveal_strlit("application/x-msdownload"); assert(t != "application/x-msdownload"@) by { assert("application/x-msdownload"@.len() == 24); }
        reveal_strlit("application/x-msdos-program"); assert(t != "application/x-msdos-program"@) by { assert("application/x-msdos-program"@.len() == 27); }
        reveal_strlit("application/x-exe"); assert(t != "application/x-exe"@) by { assert("application/x-exe"@.len() == 17); }
        reveal_strlit("application/exe"); assert(t != "application/exe"@) by { assert("application/exe"@.len() == 15); }
        reveal_strlit("application/x-msi"); assert(t != "application/x-msi"@) by { assert("application/x-msi"@.len() == 17); }
        reveal_strlit("application/x-iso9660-image"); assert(t != "application/x-iso9660-image"@) by { assert("application/x-iso9660-image"@.len() == 27); }
        reveal_strlit("application/x-iso-image"); assert(t != "application/x-iso-image"@) by { assert("application/x-iso-image"@.len() == 23); }
        reveal_strlit("application/pdf"); assert(t != "application/pdf"@) by { assert("application/pdf"@.len() == 15); }
        reveal_strlit("video/mp4"); assert(t != "video/mp4"@) by { assert("video/mp4"@.len() == 9); }
        reveal_strlit("video/x-matroska"); assert(t != "video/x-matroska"@) by { assert("video/x-matroska"@.len() == 16); }
    }
    if t == "video/quicktime"@ {
        reveal_strlit("video/quicktime");
        assert(t.len() == 15 && t[0] == 'v' && t[1] == 'i' && t[2] == 'd' && t[3] == 'e' && t[4] == 'o' && t[5] == '/' && t[6] == 'q' && t[7] == 'u' && t[8] == 'i' && t[9] == 'c' && t[10] == 'k' && t[11] == 't' && t[12] == 'i' && t[13] == 'm' && t[14] == 'e');
        reveal_strlit("application/zip"); assert(t != "application/zip"@) by { assert("application/zip"@[0] == 'a'); }
        reveal_strlit("application/x-zip-compressed"); assert(t != "application/x-zip-compressed"@) by { assert("application/x-zip-compressed"@.len() == 28); }
        reveal_strlit("application/x-zip"); assert(t != "application/x-zip"@) by { assert("application/x-zip"@.len() == 17); }
        reveal_strlit("application/x-rar-compressed"); assert(t != "application/x-rar-compressed"@) by { assert("application/x-rar-compressed"@.len() == 28); }
        reveal_strlit("application/vnd.rar"); assert(t != "application/vnd.rar"@) by { assert("application/vnd.rar"@.len() == 19); }
        reveal_strlit("application/x-rar"); assert(t != "application/x-rar"@) by { assert("application/x-rar"@.len() == 17); }
        reveal_strlit("application/x-7z-compressed"); assert(t != "application/x-7z-compressed"@) by { assert("application/x-7z-compressed"@.len() == 27); }
        reveal_strlit("application/x-7z"); assert(t != "application/x-7z"@) by { assert("application/x-7z"@.len() == 16); }
        reveal_strlit("application/x-tar"); assert(t != "application/x-tar"@) by { assert("application/x-tar"@.len() == 17); }
        reveal_strlit("application/gzip"); assert(t != "application/gzip"@) by { assert("application/gzip"@.len() == 16); }
        reveal_strlit("application/x-gzip"); assert(t != "application/x-gzip"@) by { assert("application/x-gzip"@.len() == 18); }
        reveal_strlit("application/x-msdownload"); assert(t != "application/x-msdownload"@) by { assert("application/x-msdownload"@.len() == 24); }
        reveal_strlit("application/x-msdos-program"); assert(t != "application/x-msdos-program"@) by { assert("application/x-msdos-program"@.len() == 27); }
        reveal_strlit("application/x-exe"); assert(t != "application/x-exe"@) by { assert("application/x-exe"@.len() == 17); }
        reveal_strlit("application/exe"); assert(t != "application/exe"@) by { assert("application/exe"@[0] == 'a'); }
        reveal_strlit("application/x-msi"); assert(t != "application/x-msi"@) by { assert("application/x-msi"@.len() == 17); }
        reveal_strlit("application/x-iso9660-image"); assert(t != "application/x-iso9660-image"@) by { assert("application/x-iso9660-image"@.len() == 27); }
        reveal_strlit("application/x-iso-image"); assert(t != "application/x-iso-image"@) by { assert("application/x-iso-image"@.len() == 23); }
        reveal_strlit("application/pdf"); assert(t != "application/pdf"@) by { assert("application/pdf"@[0] == 'a'); }
        reveal_strlit("video/mp4"); assert(t != "video/mp4"@) by { assert("video/mp4"@.len() == 9); }
        reveal_strlit("video/x-matroska"); assert(t != "video/x-matroska"@) by { assert("video/x-matroska"@.len() == 16); }
        reveal_strlit("video/webm"); assert(t != "video/webm"@) by { assert("video/webm"@.len() == 10); }
    }
    if t == "video/x-msvideo"@ {
        reveal_strlit("video/x-msvideo");
        assert(t.len() == 15 && t[0] == 'v' && t[1] == 'i' && t[2] == 'd' && t[3] == 'e' && t[4] == 'o' && t[5] == '/' && t[6] == 'x' && t[7] == '-' && t[8] == 'm' && t[9] == 's' && t[10] == 'v' && t[11] == 'i' && t[12] == 'd' && t[13] == 'e' && t[14] == 'o');
        reveal_strlit("application/zip"); assert(t != "application/zip"@) by { assert("application/zip"@[0] == 'a'); }
        reveal_strlit("application/x-zip-compressed"); assert(t != "application/x-zip-compressed"@) by { assert("application/x-zip-compressed"@.len() == 28); }
        reveal_strlit("application/x-zip"); assert(t != "application/x-zip"@) by { assert("application/x-zip"@.len() == 17); }
        reveal_strlit("application/x-rar-compressed"); assert(t != "application/x-rar-compressed"@) by { assert("application/x-rar-compressed"@.len() == 28); }
        reveal_strlit("application/vnd.rar"); assert(t != "application/vnd.rar"@) by { assert("application/vnd.rar"@.len() == 19); }
        reveal_strlit("application/x-rar"); assert(t != "application/x-rar"@) by { assert("application/x-rar"@.len() == 17); }
        reveal_strlit("application/x-7z-compressed"); assert(t != "application/x-7z-compressed"@) by { assert("application/x-7z-compressed"@.len() == 27); }
        reveal_strlit("application/x-7z"); assert(t != "application/x-7z"@) by { assert("application/x-7z"@.len() == 16); }
        reveal_strlit("application/x-tar"); assert(t != "application/x-tar"@) by { assert("application/x-tar"@.len() == 17); }
        reveal_strlit("application/gzip"); assert(t != "application/gzip"@) by { assert("application/gzip"@.len() == 16); }
        reveal_strlit("application/x-gzip"); assert(t != "application/x-gzip"@) by { assert("application/x-gzip"@.len() == 18); }
        reveal_strlit("application/x-msdownload"); assert(t != "application/x-msdownload"@) by { assert("application/x-msdownload"@.len() == 24); }
        reveal_strlit("application/x-msdos-program"); assert(t != "application/x-msdos-program"@) by { assert("application/x-msdos-program"@.len() == 27); }
        reveal_strlit("application/x-exe"); assert(t != "application/x-exe"@) by { assert("application/x-exe"@.len() == 17); }
        reveal_strlit("application/exe"); assert(t != "application/exe"@) by { assert("application/exe"@[0] == 'a'); }
        reveal_strlit("application/x-msi"); assert(t != "application/x-msi"@) by { assert("application/x-msi"@.len() == 17); }
        reveal_strlit("application/x-iso9660-image"); assert(t != "application/x-iso9660-image"@) by { assert("application/x-iso9660-image"@.len() == 27); }
        reveal_strlit("application/x-iso-image"); assert(t != "application/x-iso-image"@) by { assert("application/x-iso-image"@.len() == 23); }
        reveal_strlit("application/pdf"); assert(t != "application/pdf"@) by { assert("application/pdf"@[0] == 'a'); }
        reveal_strlit("video/mp4"); assert(t != "video/mp4"@) by { assert("video/mp4"@.len() == 9); }
        reveal_strlit("video/x-matroska"); assert(t != "video/x-matroska"@) by { assert("video/x-matroska"@.len() == 16); }
        reveal_strlit("video/webm"); assert(t != "video/webm"@) by { assert("video/webm"@.len() == 10); }
        reveal_strlit("video/quicktime"); assert(t != "video/quicktime"@) by { assert("video/quicktime"@[6] == 'q'); }
    }
    if t == "audio/mpeg"@ {
        reveal_strlit("audio/mpeg");
        assert(t.len() == 10 && t[0] == 'a' && t[1] == 'u' && t[2] == 'd' && t[3] == 'i' && t[4] == 'o' && t[5] == '/' && t[6] == 'm' && t[7] == 'p' && t[8] == 'e' && t[9] == 'g');
        reveal_strlit("application/zip"); assert(t != "application/zip"@) by { assert("application/zip"@.len() == 15); }
        reveal_strlit("application/x-zip-compressed"); assert(t != "application/x-zip-compressed"@) by { assert("application/x-zip-compressed"@.len() == 28); }
        reveal_strlit("application/x-zip"); assert(t != "application/x-zip"@) by { assert("application/x-zip"@.len() == 17); }
        reveal_strlit("application/x-rar-compressed"); assert(t != "application/x-rar-compressed"@) by { assert("application/x-rar-compressed"@.len() == 28); }
        reveal_strlit("application/vnd.rar"); assert(t != "application/vnd.rar"@) by { assert("application/vnd.rar"@.len() == 19); }
        reveal_strlit("application/x-rar"); assert(t != "application/x-rar"@) by { assert("application/x-rar"@.len() == 17); }
        reveal_strlit("application/x-7z-compressed"); assert(t != "application/x-7z-compressed"@) by { assert("application/x-7z-compressed"@.len() == 27); }
        reveal_strlit("application/x-7z"); assert(t != "application/x-7z"@) by { assert("application/x-7z"@.len() == 16); }
        reveal_strlit("application/x-tar"); assert(t != "application/x-tar"@) by { assert("application/x-tar"@.len() == 17); }
        reveal_strlit("application/gzip"); assert(t != "application/gzip"@) by { assert("application/gzip"@.len() == 16); }
        reveal_strlit("application/x-gzip"); assert(t != "application/x-gzip"@) by { assert("application/x-gzip"@.len() == 18); }
        reveal_strlit("application/x-msdownload"); assert(t != "application/x-msdownload"@) by { assert("application/x-msdownload"@.len() == 24); }
        reveal_strlit("application/x-msdos-program"); assert(t != "application/x-msdos-program"@) by { assert("application/x-msdos-program"@.len() == 27); }
        reveal_strlit("application/x-exe"); assert(t != "application/x-exe"@) by { assert("application/x-exe"@.len() == 17); }
        reveal_strlit("application/exe"); assert(t != "application/exe"@) by { assert("application/exe"@.len() == 15); }
        reveal_strlit("application/x-msi"); assert(t != "application/x-msi"@) by { assert("application/x-msi"@.len() == 17); }
        reveal_strlit("application/x-iso9660-image"); assert(t != "application/x-iso9660-image"@) by { assert("application/x-iso9660-image"@.len() == 27); }
        reveal_strlit("application/x-iso-image"); assert(t != "application/x-iso-image"@) by { assert("application/x-iso-image"@.len() == 23); }
        reveal_strlit("application/pdf"); assert(t != "application/pdf"@) by { assert("application/pdf"@.len() == 15); }
        reveal_strlit("video/mp4"); assert(t != "video/mp4"@) by { assert("video/mp4"@.len() == 9); }
        reveal_strlit("video/x-matroska"); assert(t != "video/x-matroska"@) by { assert("video/x-matroska"@.len() == 16); }
        reveal_strlit("video/webm"); assert(t != "video/webm"@) by { assert("video/webm"@[0] == 'v'); }
        reveal_strlit("video/quicktime"); assert(t != "video/quicktime"@) by { assert("video/quicktime"@.len() == 15); }
        reveal_strlit("video/x-msvideo"); assert(t != "video/x-msvideo"@) by { assert("video/x-msvideo"@.len() == 15); }
    }
    if t == "audio/mp3"@ {
        reveal_strlit("audio/mp3");
        assert(t.len() == 9 && t[0] == 'a' && t[1] == 'u' && t[2] == 'd' && t[3] == 'i' && t[4] == 'o' && t[5] == '/' && t[6] == 'm' && t[7] == 'p' && t[8] == '3');
        reveal_strlit("application/zip"); assert(t != "application/zip"@) by { assert("application/zip"@.len() == 15); }
        reveal_strlit("application/x-zip-compressed"); assert(t != "application/x-zip-compressed"@) by { assert("application/x-zip-compressed"@.len() == 28); }
        reveal_strlit("application/x-zip"); assert(t != "application/x-zip"@) by { assert("application/x-zip"@.len() == 17); }
        reveal_strlit("application/x-rar-compressed"); assert(t != "application/x-rar-compressed"@) by { assert("application/x-rar-compressed"@.len() == 28); }
        reveal_strlit("application/vnd.rar"); assert(t != "application/vnd.rar"@) by { assert("application/vnd.rar"@.len() == 19); }
        reveal_strlit("application/x-rar"); assert(t != "application/x-rar"@) by { assert("application/x-rar"@.len() == 17); }
        reveal_strlit("application/x-7z-compressed"); assert(t != "application/x-7z-compressed"@) by { assert("application/x-7z-compressed"@.len() == 27); }
        reveal_strlit("application/x-7z"); assert(t != "application/x-7z"@) by { assert("application/x-7z"@.len() == 16); }
        reveal_strlit("application/x-tar"); assert(t != "application/x-tar"@) by { assert("application/x-tar"@.len() == 17); }
        reveal_strlit("application/gzip"); assert(t != "application/gzip"@) by { assert("application/gzip"@.len() == 16); }
        reveal_strlit("application/x-gzip"); assert(t != "application/x-gzip"@) by { assert("application/x-gzip"@.len() == 18); }
        reveal_strlit("application/x-msdownload"); assert(t != "application/x-msdownload"@) by { assert("application/x-msdownload"@.len() == 24); }
        reveal_strlit("application/x-msdos-program"); assert(t != "application/x-msdos-program"@) by { assert("application/x-msdos-program"@.len() == 27); }
        reveal_strlit("application/x-exe"); assert(t != "application/x-exe"@) by { assert("application/x-exe"@.len() == 17); }
        reveal_strlit("application/exe"); assert(t != "application/exe"@) by { assert("application/exe"@.len() == 15); }
        reveal_strlit("application/x-msi"); assert(t != "application/x-msi"@) by { assert("application/x-msi"@.len() == 17); }
        reveal_strlit("application/x-iso9660-image"); assert(t != "application/x-iso9660-image"@) by { assert("application/x-iso9660-image"@.len() == 27); }
        reveal_strlit("application/x-iso-image"); assert(t != "application/x-iso-image"@) by { assert("application/x-iso-image"@.len() == 23); }
        reveal_strlit("application/pdf"); assert(t != "application/pdf"@) by { assert("application/pdf"@.len() == 15); }
        reveal_strlit("video/mp4"); assert(t != "video/mp4"@) by { assert("video/mp4"@[0] == 'v'); }
        reveal_strlit("video/x-matroska"); assert(t != "video/x-matroska"@) by { assert("video/x-matroska"@.len() == 16); }
        reveal_strlit("video/webm"); assert(t != "video/webm"@) by { assert("video/webm"@.len() == 10); }
        reveal_strlit("video/quicktime"); assert(t != "video/quicktime"@) by { assert("video/quicktime"@.len() == 15); }
        reveal_strlit("video/x-msvideo"); assert(t != "video/x-msvideo"@) by { assert("video/x-msvideo"@.len() == 15); }
    }
    if t == "audio/wav"@ {
        reveal_strlit("audio/wav");
        assert(t.len() == 9 && t[0] == 'a' && t[1] == 'u' && t[2] == 'd' && t[3] == 'i' && t[4] == 'o' && t[5] == '/' && t[6] == 'w' && t[7] == 'a' && t[8] == 'v');
        reveal_strlit("application/zip"); assert(t != "application/zip"@) by { assert("application/zip"@.len() == 15); }
        reveal_strlit("application/x-zip-compressed"); assert(t != "application/x-zip-compressed"@) by { assert("application/x-zip-compressed"@.len() == 28); }
        reveal_strlit("application/x-zip"); assert(t != "application/x-zip"@) by { assert("application/x-zip"@.len() == 17); }
        reveal_strlit("application/x-rar-compressed"); assert(t != "application/x-rar-compressed"@) by { assert("application/x-rar-compressed"@.len() == 28); }
        reveal_strlit("application/vnd.rar"); assert(t != "application/vnd.rar"@) by { assert("application/vnd.rar"@.len() == 19); }
        reveal_strlit("application/x-rar"); assert(t != "application/x-rar"@) by { assert("application/x-rar"@.len() == 17); }
        reveal_strlit("application/x-7z-compressed"); assert(t != "application/x-7z-compressed"@) by { assert("application/x-7z-compressed"@.len() == 27); }
        reveal_strlit("application/x-7z"); assert(t != "application/x-7z"@) by { assert("application/x-7z"@.len() == 16); }
        reveal_strlit("application/x-tar"); assert(t != "application/x-tar"@) by { assert("application/x-tar"@.len() == 17); }
        reveal_strlit("application/gzip"); assert(t != "application/gzip"@) by { assert("application/gzip"@.len() == 16); }
        reveal_strlit("application/x-gzip"); assert(t != "application/x-gzip"@) by { assert("application/x-gzip"@.len() == 18); }
        reveal_strlit("application/x-msdownload"); assert(t != "application/x-msdownload"@) by { assert("application/x-msdownload"@.len() == 24); }
        reveal_strlit("application/x-msdos-program"); assert(t != "application/x-msdos-program"@) by { assert("application/x-msdos-program"@.len() == 27); }
        reveal_strlit("application/x-exe"); assert(t != "application/x-exe"@) by { assert("application/x-exe"@.len() == 17); }
        reveal_strlit("application/exe"); assert(t != "application/exe"@) by { assert("application/exe"@.len() == 15); }
        reveal_strlit("application/x-msi"); assert(t != "application/x-msi"@) by { assert("application/x-msi"@.len() == 17); }
        reveal_strlit("application/x-iso9660-image"); assert(t != "application/x-iso9660-image"@) by { assert("application/x-iso9660-image"@.len() == 27); }
        reveal_strlit("application/x-iso-image"); assert(t != "application/x-iso-image"@) by { assert("application/x-iso-image"@.len() == 23); }
        reveal_strlit("application/pdf"); assert(t != "application/pdf"@) by { assert("application/pdf"@.len() == 15); }
        reveal_strlit("video/mp4"); assert(t != "video/mp4"@) by { assert("video/mp4"@[0] == 'v'); }
        reveal_strlit("video/x-matroska"); assert(t != "video/x-matroska"@) by { assert("video/x-matroska"@.len() == 16); }
        reveal_strlit("video/webm"); assert(t != "video/webm"@) by { assert("video/webm"@.len() == 10); }
        reveal_strlit("video/quicktime"); assert(t != "video/quicktime"@) by { assert("video/quicktime"@.len() == 15); }
        reveal_strlit("video/x-msvideo"); assert(t != "video/x-msvideo"@) by { assert("video/x-msvideo"@.len() == 15); }
        reveal_strlit("audio/mpeg"); assert(t != "audio/mpeg"@) by { assert("audio/mpeg"@.len() == 10); }
        reveal_strlit("audio/mp3"); assert(t != "audio/mp3"@) by { assert("audio/mp3"@[6] == 'm'); }
    }
    if t == "audio/x-wav"@ {
        reveal_strlit("audio/x-wav");
        assert(t.len() == 11 && t[0] == 'a' && t[1] == 'u' && t[2] == 'd' && t[3] == 'i' && t[4] == 'o' && t[5] == '/' && t[6] == 'x' && t[7] == '-' && t[8] == 'w' && t[9] == 'a' && t[10] == 'v');
        reveal_strlit("application/zip"); assert(t != "application/zip"@) by { assert("application/zip"@.len() == 15); }
        reveal_strlit("application/x-zip-compressed"); assert(t != "application/x-zip-compressed"@) by { assert("application/x-zip-compressed"@.len() == 28); }
        reveal_strlit("application/x-zip"); assert(t != "application/x-zip"@) by { assert("application/x-zip"@.len() == 17); }
        reveal_strlit("application/x-rar-compressed"); assert(t != "application/x-rar-compressed"@) by { assert("application/x-rar-compressed"@.len() == 28); }
        reveal_strlit("application/vnd.rar"); assert(t != "application/vnd.rar"@) by { assert("application/vnd.rar"@.len() == 19); }
        reveal_strlit("application/x-rar"); assert(t != "application/x-rar"@) by { assert("application/x-rar"@.len() == 17); }
        reveal_strlit("application/x-7z-compressed"); assert(t != "application/x-7z-compressed"@) by { assert("application/x-7z-compressed"@.len() == 27); }
        reveal_strlit("application/x-7z"); assert(t != "application/x-7z"@) by { assert("application/x-7z"@.len() == 16); }
        reveal_strlit("application/x-tar"); assert(t != "application/x-tar"@) by { assert("application/x-tar"@.len() == 17); }
        reveal_strlit("application/gzip"); assert(t != "application/gzip"@) by { assert("application/gzip"@.len() == 16); }
        reveal_strlit("application/x-gzip"); assert(t != "application/x-gzip"@) by { assert("application/x-gzip"@.len() == 18); }
        reveal_strlit("application/x-msdownload"); assert(t != "application/x-msdownload"@) by { assert("application/x-msdownload"@.len() == 24); }
        reveal_strlit("application/x-msdos-program"); assert(t != "application/x-msdos-program"@) by { assert("application/x-msdos-program"@.len() == 27); }
        reveal_strlit("application/x-exe"); assert(t != "application/x-exe"@) by { assert("application/x-exe"@.len() == 17); }
        reveal_strlit("application/exe"); assert(t != "application/exe"@) by { assert("application/exe"@.len() == 15); }
        reveal_strlit("application/x-msi"); assert(t != "application/x-msi"@) by { assert("application/x-msi"@.len() == 17); }
        reveal_strlit("application/x-iso9660-image"); assert(t != "application/x-iso9660-image"@) by { assert("application/x-iso9660-image"@.len() == 27); }
        reveal_strlit("application/x-iso-image"); assert(t != "application/x-iso-image"@) by { assert("application/x-iso-image"@.len() == 23); }
        reveal_strlit("application/pdf"); assert(t != "application/pdf"@) by { assert("application/pdf"@.len() == 15); }
        reveal_strlit("video/mp4"); assert(t != "video/mp4"@) by { assert("video/mp4"@.len() == 9); }
        reveal_strlit("video/x-matroska"); assert(t != "video/x-matroska"@) by { assert("video/x-matroska"@.len() == 16); }
        reveal_strlit("video/webm"); assert(t != "video/webm"@) by { assert("video/webm"@.len() == 10); }
        reveal_strlit("video/quicktime"); assert(t != "video/quicktime"@) by { assert("video/quicktime"@.len() == 15); }
        reveal_strlit("video/x-msvideo"); assert(t != "video/x-msvideo"@) by { assert("video/x-msvideo"@.len() == 15); }
        reveal_strlit("audio/mpeg"); assert(t != "audio/mpeg"@) by { assert("audio/mpeg"@.len() == 10); }
        reveal_strlit("audio/mp3"); assert(t != "audio/mp3"@) by { assert("audio/mp3"@.len() == 9); }
    }
    if t == "audio/flac"@ {
        reveal_strlit("audio/flac");
        assert(t.len() == 10 && t[0] == 'a' && t[1] == 'u' && t[2] == 'd' && t[3] == 'i' && t[4] == 'o' && t[5] == '/' && t[6] == 'f' && t[7] == 'l' && t[8] == 'a' && t[9] == 'c');
        reveal_strlit("application/zip"); assert(t != "application/zip"@) by { assert("application/zip"@.len() == 15); }
        reveal_strlit("application/x-zip-compressed"); assert(t != "application/x-zip-compressed"@) by { assert("application/x-zip-compressed"@.len() == 28); }
        reveal_strlit("application/x-zip"); assert(t != "application/x-zip"@) by { assert("application/x-zip"@.len() == 17); }
        reveal_strlit("application/x-rar-compressed"); assert(t != "application/x-rar-compressed"@) by { assert("application/x-rar-compressed"@.len() == 28); }
        reveal_strlit("application/vnd.rar"); assert(t != "application/vnd.rar"@) by { assert("application/vnd.rar"@.len() == 19); }
        reveal_strlit("application/x-rar"); assert(t != "application/x-rar"@) by { assert("application/x-rar"@.len() == 17); }
        reveal_strlit("application/x-7z-compressed"); assert(t != "application/x-7z-compressed"@) by { assert("application/x-7z-compressed"@.len() == 27); }
        reveal_strlit("application/x-7z"); assert(t != "application/x-7z"@) by { assert("application/x-7z"@.len() == 16); }
        reveal_strlit("application/x-tar"); assert(t != "application/x-tar"@) by { assert("application/x-tar"@.len() == 17); }
        reveal_strlit("application/gzip"); assert(t != "application/gzip"@) by { assert("application/gzip"@.len() == 16); }
        reveal_strlit("application/x-gzip"); assert(t != "application/x-gzip"@) by { assert("application/x-gzip"@.len() == 18); }
        reveal_strlit("application/x-msdownload"); assert(t != "application/x-msdownload"@) by { assert("application/x-msdownload"@.len() == 24); }
        reveal_strlit("application/x-msdos-program"); assert(t != "application/x-msdos-program"@) by { assert("application/x-msdos-program"@.len() == 27); }
        reveal_strlit("application/x-exe"); assert(t != "application/x-exe"@) by { assert("application/x-exe"@.len() == 17); }
        reveal_strlit("application/exe"); assert(t != "application/exe"@) by { assert("application/exe"@.len() == 15); }
        reveal_strlit("application/x-msi"); assert(t != "application/x-msi"@) by { assert("application/x-msi"@.len() == 17); }
        reveal_strlit("application/x-iso9660-image"); assert(t != "application/x-iso9660-image"@) by { assert("application/x-iso9660-image"@.len() == 27); }
        reveal_strlit("application/x-iso-image"); assert(t != "application/x-iso-image"@) by { assert("application/x-iso-image"@.len() == 23); }
        reveal_strlit("application/pdf"); assert(t != "application/pdf"@) by { assert("application/pdf"@.len() == 15); }
        reveal_strlit("video/mp4"); assert(t != "video/mp4"@) by { assert("video/mp4"@.len() == 9); }
        reveal_strlit("video/x-matroska"); assert(t != "video/x-matroska"@) by { assert("video/x-matroska"@.len() == 16); }
        reveal_strlit("video/webm"); assert(t != "video/webm"@) by { assert("video/webm"@[0] == 'v'); }
        reveal_strlit("video/quicktime"); assert(t != "video/quicktime"@) by { assert("video/quicktime"@.len() == 15); }
        reveal_strlit("video/x-msvideo"); assert(t != "video/x-msvideo"@) by { assert("video/x-msvideo"@.len() == 15); }
        reveal_strlit("audio/mpeg"); assert(t != "audio/mpeg"@) by { assert("audio/mpeg"@[6] == 'm'); }
        reveal_strlit("audio/mp3"); assert(t != "audio/mp3"@) by { assert("audio/mp3"@.len() == 9); }
        reveal_strlit("audio/wav"); assert(t != "audio/wav"@) by { assert("audio/wav"@.len() == 9); }
        reveal_strlit("audio/x-wav"); assert(t != "audio/x-wav"@) by { assert("audio/x-wav"@.len() == 11); }
    }
    if t == "audio/x-flac"@ {
        reveal_strlit("audio/x-flac");
        assert(t.len() == 12 && t[0] == 'a' && t[1] == 'u' && t[2] == 'd' && t[3] == 'i' && t[4] == 'o' && t[5] == '/' && t[6] == 'x' && t[7] == '-' && t[8] == 'f' && t[9] == 'l' && t[10] == 'a' && t[11] == 'c');
        reveal_strlit("application/zip"); assert(t != "application/zip"@) by { assert("application/zip"@.len() == 15); }
        reveal_strlit("application/x-zip-compressed"); assert(t != "application/x-zip-compressed"@) by { assert("application/x-zip-compressed"@.len() == 28); }
        reveal_strlit("application/x-zip"); assert(t != "application/x-zip"@) by { assert("application/x-zip"@.len() == 17); }
        reveal_strlit("application/x-rar-compressed"); assert(t != "application/x-rar-compressed"@) by { assert("application/x-rar-compressed"@.len() == 28); }
        reveal_strlit("application/vnd.rar"); assert(t != "application/vnd.rar"@) by { assert("application/vnd.rar"@.len() == 19); }
        reveal_strlit("application/x-rar"); assert(t != "application/x-rar"@) by { assert("application/x-rar"@.len() == 17); }
        reveal_strlit("application/x-7z-compressed"); assert(t != "application/x-7z-compressed"@) by { assert("application/x-7z-compressed"@.len() == 27); }
        reveal_strlit("application/x-7z"); assert(t != "application/x-7z"@) by { assert("application/x-7z"@.len() == 16); }
        reveal_strlit("application/x-tar"); assert(t != "application/x-tar"@) by { assert("application/x-tar"@.len() == 17); }
        reveal_strlit("application/gzip"); assert(t != "application/gzip"@) by { assert("application/gzip"@.len() == 16); }
        reveal_strlit("application/x-gzip"); assert(t != "application/x-gzip"@) by { assert("application/x-gzip"@.len() == 18); }
        reveal_strlit("application/x-msdownload"); assert(t != "application/x-msdownload"@) by { assert("application/x-msdownload"@.len() == 24); }
        reveal_strlit("application/x-msdos-program"); assert(t != "application/x-msdos-program"@) by { assert("application/x-msdos-program"@.len() == 27); }
        reveal_strlit("application/x-exe"); assert(t != "application/x-exe"@) by { assert("application/x-exe"@.len() == 17); }
        reveal_strlit("application/exe"); assert(t != "application/exe"@) by { assert("application/exe"@.len() == 15); }
        reveal_strlit("application/x-msi"); assert(t != "application/x-msi"@) by { assert("application/x-msi"@.len() == 17); }
        reveal_strlit("application/x-iso9660-image"); assert(t != "application/x-iso9660-image"@) by { assert("application/x-iso9660-image"@.len() == 27); }
        reveal_strlit("application/x-iso-image"); assert(t != "application/x-iso-image"@) by { assert("application/x-iso-image"@.len() == 23); }
        reveal_strlit("application/pdf"); assert(t != "application/pdf"@) by { assert("application/pdf"@.len() == 15); }
        reveal_strlit("video/mp4"); assert(t != "video/mp4"@) by { assert("video/mp4"@.len() == 9); }
        reveal_strlit("video/x-matroska"); assert(t != "video/x-matroska"@) by { assert("video/x-matroska"@.len() == 16); }
        reveal_strlit("video/webm"); assert(t != "video/webm"@) by { assert("video/webm"@.len() == 10); }
        reveal_strlit("video/quicktime"); assert(t != "video/quicktime"@) by { assert("video/quicktime"@.len() == 15); }
        reveal_strlit("video/x-msvideo"); assert(t != "video/x-msvideo"@) by { assert("video/x-msvideo"@.len() == 15); }
        reveal_strlit("audio/mpeg"); assert(t != "audio/mpeg"@) by { assert("audio/mpeg"@.len() == 10); }
        reveal_strlit("audio/mp3"); assert(t != "audio/mp3"@) by { assert("audio/mp3"@.len() == 9); }
        reveal_strlit("audio/wav"); assert(t != "audio/wav"@) by { assert("audio/wav"@.len() == 9); }
        reveal_strlit("audio/x-wav"); assert(t != "audio/x-wav"@) by { assert("audio/x-wav"@.len() == 11); }
    }
    if t == "audio/aac"@ {
        reveal_strlit("audio/aac");
        assert(t.len() == 9 && t[0] == 'a' && t[1] == 'u' && t[2] == 'd' && t[3] == 'i' && t[4] == 'o' && t[5] == '/' && t[6] == 'a' && t[7] == 'a' && t[8] == 'c');
        reveal_strlit("application/zip"); assert(t != "application/zip"@) by { assert("application/zip"@.len() == 15); }
        reveal_strlit("application/x-zip-compressed"); assert(t != "application/x-zip-compressed"@) by { assert("application/x-zip-compressed"@.len() == 28); }
        reveal_strlit("application/x-zip"); assert(t != "application/x-zip"@) by { assert("application/x-zip"@.len() == 17); }
        reveal_strlit("application/x-rar-compressed"); assert(t != "application/x-rar-compressed"@) by { assert("application/x-rar-compressed"@.len() == 28); }
        reveal_strlit("application/vnd.rar"); assert(t != "application/vnd.rar"@) by { assert("application/vnd.rar"@.len() == 19); }
        reveal_strlit("application/x-rar"); assert(t != "application/x-rar"@) by { assert("application/x-rar"@.len() == 17); }
        reveal_strlit("application/x-7z-compressed"); assert(t != "application/x-7z-compressed"@) by { assert("application/x-7z-compressed"@.len() == 27); }
        reveal_strlit("application/x-7z"); assert(t != "application/x-7z"@) by { assert("application/x-7z"@.len() == 16); }
        reveal_strlit("application/x-tar"); assert(t != "application/x-tar"@) by { assert("application/x-tar"@.len() == 17); }
        reveal_strlit("application/gzip"); assert(t != "application/gzip"@) by { assert("application/gzip"@.len() == 16); }
        reveal_strlit("application/x-gzip"); assert(t != "application/x-gzip"@) by { assert("application/x-gzip"@.len() == 18); }
        reveal_strlit("application/x-msdownload"); assert(t != "application/x-msdownload"@) by { assert("application/x-msdownload"@.len() == 24); }
        reveal_strlit("application/x-msdos-program"); assert(t != "application/x-msdos-program"@) by { assert("application/x-msdos-program"@.len() == 27); }
        reveal_strlit("application/x-exe"); assert(t != "application/x-exe"@) by { assert("application/x-exe"@.len() == 17); }
        reveal_strlit("application/exe"); assert(t != "application/exe"@) by { assert("application/exe"@.len() == 15); }
        reveal_strlit("application/x-msi"); assert(t != "application/x-msi"@) by { assert("application/x-msi"@.len() == 17); }
        reveal_strlit("application/x-iso9660-image"); assert(t != "application/x-iso9660-image"@) by { assert("application/x-iso9660-image"@.len() == 27); }
        reveal_strlit("application/x-iso-image"); assert(t != "application/x-iso-image"@) by { assert("application/x-iso-image"@.len() == 23); }
        reveal_strlit("application/pdf"); assert(t != "application/pdf"@) by { assert("application/pdf"@.len() == 15); }
        reveal_strlit("video/mp4"); assert(t != "video/mp4"@) by { assert("video/mp4"@[0] == 'v'); }
        reveal_strlit("video/x-matroska"); assert(t != "video/x-matroska"@) by { assert("video/x-matroska"@.len() == 16); }
        reveal_strlit("video/webm"); assert(t != "video/webm"@) by { assert("video/webm"@.len() == 10); }
        reveal_strlit("video/quicktime"); assert(t != "video/quicktime"@) by { assert("video/quicktime"@.len() == 15); }
        reveal_strlit("video/x-msvideo"); assert(t != "video/x-msvideo"@) by { assert("video/x-msvideo"@.len() == 15); }
        reveal_strlit("audio/mpeg"); assert(t != "audio/mpeg"@) by { assert("audio/mpeg"@.len() == 10); }
        reveal_strlit("audio/mp3"); assert(t != "audio/mp3"@) by { assert("audio/mp3"@[6] == 'm'); }
        reveal_strlit("audio/wav"); assert(t != "audio/wav"@) by { assert("audio/wav"@[6] == 'w'); }
        reveal_strlit("audio/x-wav"); assert(t != "audio/x-wav"@) by { assert("audio/x-wav"@.len() == 11); }
        reveal_strlit("audio/flac"); assert(t != "audio/flac"@) by { assert("audio/flac"@.len() == 10); }
        reveal_strlit("audio/x-flac"); assert(t != "audio/x-flac"@) by { assert("audio/x-flac"@.len() == 12); }
    }
    if t == "image/jpeg"@ {
        reveal_strlit("image/jpeg");
        assert(t.len() == 10 && t[0] == 'i' && t[1] == 'm' && t[2] == 'a' && t[3] == 'g' && t[4] == 'e' && t[5] == '/' && t[6] == 'j' && t[7] == 'p' && t[8] == 'e' && t[9] == 'g');
        reveal_strlit("application/zip"); assert(t != "application/zip"@) by { assert("application/zip"@.len() == 15); }
        reveal_strlit("application/x-zip-compressed"); assert(t != "application/x-zip-compressed"@) by { assert("application/x-zip-compressed"@.len() == 28); }
        reveal_strlit("application/x-zip"); assert(t != "application/x-zip"@) by { assert("application/x-zip"@.len() == 17); }
        reveal_strlit("application/x-rar-compressed"); assert(t != "application/x-rar-compressed"@) by { assert("application/x-rar-compressed"@.len() == 28); }
        reveal_strlit("application/vnd.rar"); assert(t != "application/vnd.rar"@) by { assert("application/vnd.rar"@.len() == 19); }
        reveal_strlit("application/x-rar"); assert(t != "application/x-rar"@) by { assert("application/x-rar"@.len() == 17); }
        reveal_strlit("application/x-7z-compressed"); assert(t != "application/x-7z-compressed"@) by { assert("application/x-7z-compressed"@.len() == 27); }
        reveal_strlit("application/x-7z"); assert(t != "application/x-7z"@) by { assert("application/x-7z"@.len() == 16); }
        reveal_strlit("application/x-tar"); assert(t != "application/x-tar"@) by { assert("application/x-tar"@.len() == 17); }
        reveal_strlit("application/gzip"); assert(t != "application/gzip"@) by { assert("application/gzip"@.len() == 16); }
        reveal_strlit("application/x-gzip"); assert(t != "application/x-gzip"@) by { assert("application/x-gzip"@.len() == 18); }
        reveal_strlit("application/x-msdownload"); assert(t != "application/x-msdownload"@) by { assert("application/x-msdownload"@.len() == 24); }
        reveal_strlit("application/x-msdos-program"); assert(t != "application/x-msdos-program"@) by { assert("application/x-msdos-program"@.len() == 27); }
        reveal_strlit("application/x-exe"); assert(t != "application/x-exe"@) by { assert("application/x-exe"@.len() == 17); }
        reveal_strlit("application/exe"); assert(t != "application/exe"@) by { assert("application/exe"@.len() == 15); }
        reveal_strlit("application/x-msi"); assert(t != "application/x-msi"@) by { assert("application/x-msi"@.len() == 17); }
        reveal_strlit("application/x-iso9660-image"); assert(t != "application/x-iso9660-image"@) by { assert("application/x-iso9660-image"@.len() == 27); }
        reveal_strlit("application/x-iso-image"); assert(t != "application/x-iso-image"@) by { assert("application/x-iso-image"@.len() == 23); }
        reveal_strlit("application/pdf"); assert(t != "application/pdf"@) by { assert("application/pdf"@.len() == 15); }
        reveal_strlit("video/mp4"); assert(t != "video/mp4"@) by { assert("video/mp4"@.len() == 9); }
        reveal_strlit("video/x-matroska"); assert(t != "video/x-matroska"@) by { assert("video/x-matroska"@.len() == 16); }
        reveal_strlit("video/webm"); assert(t != "video/webm"@) by { assert("video/webm"@[0] == 'v'); }
        reveal_strlit("video/quicktime"); assert(t != "video/quicktime"@) by { assert("video/quicktime"@.len() == 15); }
        reveal_strlit("video/x-msvideo"); assert(t != "video/x-msvideo"@) by { assert("video/x-msvideo"@.len() == 15); }
        reveal_strlit("audio/mpeg"); assert(t != "audio/mpeg"@) by { assert("audio/mpeg"@[0] == 'a'); }
        reveal_strlit("audio/mp3"); assert(t != "audio/mp3"@) by { assert("audio/mp3"@.len() == 9); }
        reveal_strlit("audio/wav"); assert(t != "audio/wav"@) by { assert("audio/wav"@.len() == 9); }
        reveal_strlit("audio/x-wav"); assert(t != "audio/x-wav"@) by { assert("audio/x-wav"@.len() == 11); }
        reveal_strlit("audio/flac"); assert(t != "audio/flac"@) by { assert("audio/flac"@[0] == 'a'); }
        reveal_strlit("audio/x-flac"); assert(t != "audio/x-flac"@) by { assert("audio/x-flac"@.len() == 12); }
        reveal_strlit("audio/aac"); assert(t != "audio/aac"@) by { assert("audio/aac"@.len() == 9); }
    }
    if t == "image/png"@ {
        reveal_strlit("image/png");
        assert(t.len() == 9 && t[0] == 'i' && t[1] == 'm' && t[2] == 'a' && t[3] == 'g' && t[4] == 'e' && t[5] == '/' && t[6] == 'p' && t[7] == 'n' && t[8] == 'g');
        reveal_strlit("application/zip"); assert(t != "application/zip"@) by { assert("application/zip"@.len() == 15); }
        reveal_strlit("application/x-zip-compressed"); assert(t != "application/x-zip-compressed"@) by { assert("application/x-zip-compressed"@.len() == 28); }
        reveal_strlit("application/x-zip"); assert(t != "application/x-zip"@) by { assert("application/x-zip"@.len() == 17); }
        reveal_strlit("application/x-rar-compressed"); assert(t != "application/x-rar-compressed"@) by { assert("application/x-rar-compressed"@.len() == 28); }
        reveal_strlit("application/vnd.rar"); assert(t != "application/vnd.rar"@) by { assert("application/vnd.rar"@.len() == 19); }
        reveal_strlit("application/x-rar"); assert(t != "application/x-rar"@) by { assert("application/x-rar"@.len() == 17); }
        reveal_strlit("application/x-7z-compressed"); assert(t != "application/x-7z-compressed"@) by { assert("application/x-7z-compressed"@.len() == 27); }
        reveal_strlit("application/x-7z"); assert(t != "application/x-7z"@) by { assert("application/x-7z"@.len() == 16); }
        reveal_strlit("application/x-tar"); assert(t != "application/x-tar"@) by { assert("application/x-tar"@.len() == 17); }
        reveal_strlit("application/gzip"); assert(t != "application/gzip"@) by { assert("application/gzip"@.len() == 16); }
        reveal_strlit("application/x-gzip"); assert(t != "application/x-gzip"@) by { assert("application/x-gzip"@.len() == 18); }
        reveal_strlit("application/x-msdownload"); assert(t != "application/x-msdownload"@) by { assert("application/x-msdownload"@.len() == 24); }
        reveal_strlit("application/x-msdos-program"); assert(t != "application/x-msdos-program"@) by { assert("application/x-msdos-program"@.len() == 27); }
        reveal_strlit("application/x-exe"); assert(t != "application/x-exe"@) by { assert("application/x-exe"@.len() == 17); }
        reveal_strlit("application/exe"); assert(t != "application/exe"@) by { assert("application/exe"@.len() == 15); }
        reveal_strlit("application/x-msi"); assert(t != "application/x-msi"@) by { assert("application/x-msi"@.len() == 17); }
        reveal_strlit("application/x-iso9660-image"); assert(t != "application/x-iso9660-image"@) by { assert("application/x-iso9660-image"@.len() == 27); }
        reveal_strlit("application/x-iso-image"); assert(t != "application/x-iso-image"@) by { assert("application/x-iso-image"@.len() == 23); }
        reveal_strlit("application/pdf"); assert(t != "application/pdf"@) by { assert("application/pdf"@.len() == 15); }
        reveal_strlit("video/mp4"); assert(t != "video/mp4"@) by { assert("video/mp4"@[0] == 'v'); }
        reveal_strlit("video/x-matroska"); assert(t != "video/x-matroska"@) by { assert("video/x-matroska"@.len() == 16); }
        reveal_strlit("video/webm"); assert(t != "video/webm"@) by { assert("video/webm"@.len() == 10); }
        reveal_strlit("video/quicktime"); assert(t != "video/quicktime"@) by { assert("video/quicktime"@.len() == 15); }
        reveal_strlit("video/x-msvideo"); assert(t != "video/x-msvideo"@) by { assert("video/x-msvideo"@.len() == 15); }
        reveal_strlit("audio/mpeg"); assert(t != "audio/mpeg"@) by { assert("audio/mpeg"@.len() == 10); }
        reveal_strlit("audio/mp3"); assert(t != "audio/mp3"@) by { assert("audio/mp3"@[0] == 'a'); }
        reveal_strlit("audio/wav"); assert(t != "audio/wav"@) by { assert("audio/wav"@[0] == 'a'); }
        reveal_strlit("audio/x-wav"); assert(t != "audio/x-wav"@) by { assert("audio/x-wav"@.len() == 11); }
        reveal_strlit("audio/flac"); assert(t != "audio/flac"@) by { assert("audio/flac"@.len() == 10); }
        reveal_strlit("audio/x-flac"); assert(t != "audio/x-flac"@) by { assert("audio/x-flac"@.len() == 12); }
        reveal_strlit("audio/aac"); assert(t != "audio/aac"@) by { assert("audio/aac"@[0] == 'a'); }
        reveal_strlit("image/jpeg"); assert(t != "image/jpeg"@) by { assert("image/jpeg"@.len() == 10); }
    }
    if t == "image/gif"@ {
        reveal_strlit("image/gif");
        assert(t.len() == 9 && t[0] == 'i' && t[1] == 'm' && t[2] == 'a' && t[3] == 'g' && t[4] == 'e' && t[5] == '/' && t[6] == 'g' && t[7] == 'i' && t[8] == 'f');
        reveal_strlit("application/zip"); assert(t != "application/zip"@) by { assert("application/zip"@.len() == 15); }
        reveal_strlit("application/x-zip-compressed"); assert(t != "application/x-zip-compressed"@) by { assert("application/x-zip-compressed"@.len() == 28); }
        reveal_strlit("application/x-zip"); assert(t != "application/x-zip"@) by { assert("application/x-zip"@.len() == 17); }
        reveal_strlit("application/x-rar-compressed"); assert(t != "application/x-rar-compressed"@) by { assert("application/x-rar-compressed"@.len() == 28); }
        reveal_strlit("application/vnd.rar"); assert(t != "application/vnd.rar"@) by { assert("application/vnd.rar"@.len() == 19); }
        reveal_strlit("application/x-rar"); assert(t != "application/x-rar"@) by { assert("application/x-rar"@.len() == 17); }
        reveal_strlit("application/x-7z-compressed"); assert(t != "application/x-7z-compressed"@) by { assert("application/x-7z-compressed"@.len() == 27); }
        reveal_strlit("application/x-7z"); assert(t != "application/x-7z"@) by { assert("application/x-7z"@.len() == 16); }
        reveal_strlit("application/x-tar"); assert(t != "application/x-tar"@) by { assert("application/x-tar"@.len() == 17); }
        reveal_strlit("application/gzip"); assert(t != "application/gzip"@) by { assert("application/gzip"@.len() == 16); }
        reveal_strlit("application/x-gzip"); assert(t != "application/x-gzip"@) by { assert("application/x-gzip"@.len() == 18); }
        reveal_strlit("application/x-msdownload"); assert(t != "application/x-msdownload"@) by { assert("application/x-msdownload"@.len() == 24); }
        reveal_strlit("application/x-msdos-program"); assert(t != "application/x-msdos-program"@) by { assert("application/x-msdos-program"@.len() == 27); }
        reveal_strlit("application/x-exe"); assert(t != "application/x-exe"@) by { assert("application/x-exe"@.len() == 17); }
        reveal_strlit("application/exe"); assert(t != "application/exe"@) by { assert("application/exe"@.len() == 15); }
        reveal_strlit("application/x-msi"); assert(t != "application/x-msi"@) by { assert("application/x-msi"@.len() == 17); }
        reveal_strlit("application/x-iso9660-image"); assert(t != "application/x-iso9660-image"@) by { assert("application/x-iso9660-image"@.len() == 27); }
        reveal_strlit("application/x-iso-image"); assert(t != "application/x-iso-image"@) by { assert("application/x-iso-image"@.len() == 23); }
        reveal_strlit("application/pdf"); assert(t != "application/pdf"@) by { assert("application/pdf"@.len() == 15); }
        reveal_strlit("video/mp4"); assert(t != "video/mp4"@) by { assert("video/mp4"@[0] == 'v'); }
        reveal_strlit("video/x-matroska"); assert(t != "video/x-matroska"@) by { assert("video/x-matroska"@.len() == 16); }
        reveal_strlit("video/webm"); assert(t != "video/webm"@) by { assert("video/webm"@.len() == 10); }
        reveal_strlit("video/quicktime"); assert(t != "video/quicktime"@) by { assert("video/quicktime"@.len() == 15); }
        reveal_strlit("video/x-msvideo"); assert(t != "video/x-msvideo"@) by { assert("video/x-msvideo"@.len() == 15); }
        reveal_strlit("audio/mpeg"); assert(t != "audio/mpeg"@) by { assert("audio/mpeg"@.len() == 10); }
        reveal_strlit("audio/mp3"); assert(t != "audio/mp3"@) by { assert("audio/mp3"@[0] == 'a'); }
        reveal_strlit("audio/wav"); assert(t != "audio/wav"@) by { assert("audio/wav"@[0] == 'a'); }
        reveal_strlit("audio/x-wav"); assert(t != "audio/x-wav"@) by { assert("audio/x-wav"@.len() == 11); }
        reveal_strlit("audio/flac"); assert(t != "audio/flac"@) by { assert("audio/flac"@.len() == 10); }
        reveal_strlit("audio/x-flac"); assert(t != "audio/x-flac"@) by { assert("audio/x-flac"@.len() == 12); }
        reveal_strlit("audio/aac"); assert(t != "audio/aac"@) by { assert("audio/aac"@[0] == 'a'); }
        reveal_strlit("image/jpeg"); assert(t != "image/jpeg"@) by { assert("image/jpeg"@.len() == 10); }
        reveal_strlit("image/png"); assert(t != "image/png"@) by { assert("image/png"@[6] == 'p'); }
    }
    if t == "image/webp"@ {
        reveal_strlit("image/webp");
        assert(t.len() == 10 && t[0] == 'i' && t[1] == 'm' && t[2] == 'a' && t[3] == 'g' && t[4] == 'e' && t[5] == '/' && t[6] == 'w' && t[7] == 'e' && t[8] == 'b' && t[9] == 'p');
        reveal_strlit("application/zip"); assert(t != "application/zip"@) by { assert("application/zip"@.len() == 15); }
        reveal_strlit("application/x-zip-compressed"); assert(t != "application/x-zip-compressed"@) by { assert("application/x-zip-compressed"@.len() == 28); }
        reveal_strlit("application/x-zip"); assert(t != "application/x-zip"@) by { assert("application/x-zip"@.len() == 17); }
        reveal_strlit("application/x-rar-compressed"); assert(t != "application/x-rar-compressed"@) by { assert("application/x-rar-compressed"@.len() == 28); }
        reveal_strlit("application/vnd.rar"); assert(t != "application/vnd.rar"@) by { assert("application/vnd.rar"@.len() == 19); }
        reveal_strlit("application/x-rar"); assert(t != "application/x-rar"@) by { assert("application/x-rar"@.len() == 17); }
        reveal_strlit("application/x-7z-compressed"); assert(t != "application/x-7z-compressed"@) by { assert("application/x-7z-compressed"@.len() == 27); }
        reveal_strlit("application/x-7z"); assert(t != "application/x-7z"@) by { assert("application/x-7z"@.len() == 16); }
        reveal_strlit("application/x-tar"); assert(t != "application/x-tar"@) by { assert("application/x-tar"@.len() == 17); }
        reveal_strlit("application/gzip"); assert(t != "application/gzip"@) by { assert("application/gzip"@.len() == 16); }
        reveal_strlit("application/x-gzip"); assert(t != "application/x-gzip"@) by { assert("application/x-gzip"@.len() == 18); }
        reveal_strlit("application/x-msdownload"); assert(t != "application/x-msdownload"@) by { assert("application/x-msdownload"@.len() == 24); }
        reveal_strlit("application/x-msdos-program"); assert(t != "application/x-msdos-program"@) by { assert("application/x-msdos-program"@.len() == 27); }
        reveal_strlit("application/x-exe"); assert(t != "application/x-exe"@) by { assert("application/x-exe"@.len() == 17); }
        reveal_strlit("application/exe"); assert(t != "application/exe"@) by { assert("application/exe"@.len() == 15); }
        reveal_strlit("application/x-msi"); assert(t != "application/x-msi"@) by { assert("application/x-msi"@.len() == 17); }
        reveal_strlit("application/x-iso9660-image"); assert(t != "application/x-iso9660-image"@) by { assert("application/x-iso9660-image"@.len() == 27); }
        reveal_strlit("application/x-iso-image"); assert(t != "application/x-iso-image"@) by { assert("application/x-iso-image"@.len() == 23); }
        reveal_strlit("application/pdf"); assert(t != "application/pdf"@) by { assert("application/pdf"@.len() == 15); }
        reveal_strlit("video/mp4"); assert(t != "video/mp4"@) by { assert("video/mp4"@.len() == 9); }
        reveal_strlit("video/x-matroska"); assert(t != "video/x-matroska"@) by { assert("video/x-matroska"@.len() == 16); }
        reveal_strlit("video/webm"); assert(t != "video/webm"@) by { assert("video/webm"@[0] == 'v'); }
        reveal_strlit("video/quicktime"); assert(t != "video/quicktime"@) by { assert("video/quicktime"@.len() == 15); }
        reveal_strlit("video/x-msvideo"); assert(t != "video/x-msvideo"@) by { assert("video/x-msvideo"@.len() == 15); }
        reveal_strlit("audio/mpeg"); assert(t != "audio/mpeg"@) by { assert("audio/mpeg"@[0] == 'a'); }
        reveal_strlit("audio/mp3"); assert(t != "audio/mp3"@) by { assert("audio/mp3"@.len() == 9); }
        reveal_strlit("audio/wav"); assert(t != "audio/wav"@) by { assert("audio/wav"@.len() == 9); }
        reveal_strlit("audio/x-wav"); assert(t != "audio/x-wav"@) by { assert("audio/x-wav"@.len() == 11); }
        reveal_strlit("audio/flac"); assert(t != "audio/flac"@) by { assert("audio/flac"@[0] == 'a'); }
        reveal_strlit("audio/x-flac"); assert(t != "audio/x-flac"@) by { assert("audio/x-flac"@.len() == 12); }
        reveal_strlit("audio/aac"); assert(t != "audio/aac"@) by { assert("audio/aac"@.len() == 9); }
        reveal_strlit("image/jpeg"); assert(t != "image/jpeg"@) by { assert("image/jpeg"@[6] == 'j'); }
        reveal_strlit("image/png"); assert(t != "image/png"@) by { assert("image/png"@.len() == 9); }
        reveal_strlit("image/gif"); assert(t != "image/gif"@) by { assert("image/gif"@.len() == 9); }
    }
    if t == "image/svg+xml"@ {
        reveal_strlit("image/svg+xml");
        assert(t.len() == 13 && t[0] == 'i' && t[1] == 'm' && t[2] == 'a' && t[3] == 'g' && t[4] == 'e' && t[5] == '/' && t[6] == 's' && t[7] == 'v' && t[8] == 'g' && t[9] == '+' && t[10] == 'x' && t[11] == 'm' && t[12] == 'l');
        reveal_strlit("application/zip"); assert(t != "application/zip"@) by { assert("application/zip"@.len() == 15); }
        reveal_strlit("application/x-zip-compressed"); assert(t != "application/x-zip-compressed"@) by { assert("application/x-zip-compressed"@.len() == 28); }
        reveal_strlit("application/x-zip"); assert(t != "application/x-zip"@) by { assert("application/x-zip"@.len() == 17); }
        reveal_strlit("application/x-rar-compressed"); assert(t != "application/x-rar-compressed"@) by { assert("application/x-rar-compressed"@.len() == 28); }
        reveal_strlit("application/vnd.rar"); assert(t != "application/vnd.rar"@) by { assert("application/vnd.rar"@.len() == 19); }
        reveal_strlit("application/x-rar"); assert(t != "application/x-rar"@) by { assert("application/x-rar"@.len() == 17); }
        reveal_strlit("application/x-7z-compressed"); assert(t != "application/x-7z-compressed"@) by { assert("application/x-7z-compressed"@.len() == 27); }
        reveal_strlit("application/x-7z"); assert(t != "application/x-7z"@) by { assert("application/x-7z"@.len() == 16); }
        reveal_strlit("application/x-tar"); assert(t != "application/x-tar"@) by { assert("application/x-tar"@.len() == 17); }
        reveal_strlit("application/gzip"); assert(t != "application/gzip"@) by { assert("application/gzip"@.len() == 16); }
        reveal_strlit("application/x-gzip"); assert(t != "application/x-gzip"@) by { assert("application/x-gzip"@.len() == 18); }
        reveal_strlit("application/x-msdownload"); assert(t != "application/x-msdownload"@) by { assert("application/x-msdownload"@.len() == 24); }
        reveal_strlit("application/x-msdos-program"); assert(t != "application/x-msdos-program"@) by { assert("application/x-msdos-program"@.len() == 27); }
        reveal_strlit("application/x-exe"); assert(t != "application/x-exe"@) by { assert("application/x-exe"@.len() == 17); }
        reveal_strlit("application/exe"); assert(t != "application/exe"@) by { assert("application/exe"@.len() == 15); }
        reveal_strlit("application/x-msi"); assert(t != "application/x-msi"@) by { assert("application/x-msi"@.len() == 17); }
        reveal_strlit("application/x-iso9660-image"); assert(t != "application/x-iso9660-image"@) by { assert("application/x-iso9660-image"@.len() == 27); }
        reveal_strlit("application/x-iso-image"); assert(t != "application/x-iso-image"@) by { assert("application/x-iso-image"@.len() == 23); }
        reveal_strlit("application/pdf"); assert(t != "application/pdf"@) by { assert("application/pdf"@.len() == 15); }
        reveal_strlit("video/mp4"); assert(t != "video/mp4"@) by { assert("video/mp4"@.len() == 9); }
        reveal_strlit("video/x-matroska"); assert(t != "video/x-matroska"@) by { assert("video/x-matroska"@.len() == 16); }
        reveal_strlit("video/webm"); assert(t != "video/webm"@) by { assert("video/webm"@.len() == 10); }
        reveal_strlit("video/quicktime"); assert(t != "video/quicktime"@) by { assert("video/quicktime"@.len() == 15); }
        reveal_strlit("video/x-msvideo"); assert(t != "video/x-msvideo"@) by { assert("video/x-msvideo"@.len() == 15); }
        reveal_strlit("audio/mpeg"); assert(t != "audio/mpeg"@) by { assert("audio/mpeg"@.len() == 10); }
        reveal_strlit("audio/mp3"); assert(t != "audio/mp3"@) by { assert("audio/mp3"@.len() == 9); }
        reveal_strlit("audio/wav"); assert(t != "audio/wav"@) by { assert("audio/wav"@.len() == 9); }
        reveal_strlit("audio/x-wav"); assert(t != "audio/x-wav"@) by { assert("audio/x-wav"@.len() == 11); }
        reveal_strlit("audio/flac"); assert(t != "audio/flac"@) by { assert("audio/flac"@.len() == 10); }
        reveal_strlit("audio/x-flac"); assert(t != "audio/x-flac"@) by { assert("audio/x-flac"@.len() == 12); }
        reveal_strlit("audio/aac"); assert(t != "audio/aac"@) by { assert("audio/aac"@.len() == 9); }
        reveal_strlit("image/jpeg"); assert(t != "image/jpeg"@) by { assert("image/jpeg"@.len() == 10); }
        reveal_strlit("image/png"); assert(t != "image/png"@) by { assert("image/png"@.len() == 9); }
        reveal_strlit("image/gif"); assert(t != "image/gif"@) by { assert("image/gif"@.len() == 9); }
        reveal_strlit("image/webp"); assert(t != "image/webp"@) by { assert("image/webp"@.len() == 10); }
    }
    if t == "application/vnd.android.package-archive"@ {
        reveal_strlit("application/vnd.android.package-archive");
        assert(t.len() == 39 && t[0] == 'a' && t[1] == 'p' && t[2] == 'p' && t[3] == 'l' && t[4] == 'i' && t[5] == 'c' && t[6] == 'a' && t[7] == 't' && t[8] == 'i' && t[9] == 'o' && t[10] == 'n' && t[11] == '/' && t[12] == 'v' && t[13] == 'n' && t[14] == 'd' && t[15] == '.' && t[16] == 'a' && t[17] == 'n' && t[18] == 'd' && t[19] == 'r' && t[20] == 'o' && t[21] == 'i' && t[22] == 'd' && t[23] == '.' && t[24] == 'p' && t[25] == 'a' && t[26] == 'c' && t[27] == 'k' && t[28] == 'a' && t[29] == 'g' && t[30] == 'e' && t[31] == '-' && t[32] == 'a' && t[33] == 'r' && t[34] == 'c' && t[35] == 'h' && t[36] == 'i' && t[37] == 'v' && t[38] == 'e');
        reveal_strlit("application/zip"); assert(t != "application/zip"@) by { assert("application/zip"@.len() == 15); }
        reveal_strlit("application/x-zip-compressed"); assert(t != "application/x-zip-compressed"@) by { assert("application/x-zip-compressed"@.len() == 28); }
        reveal_strlit("application/x-zip"); assert(t != "application/x-zip"@) by { assert("application/x-zip"@.len() == 17); }
        reveal_strlit("application/x-rar-compressed"); assert(t != "application/x-rar-compressed"@) by { assert("application/x-rar-compressed"@.len() == 28); }
        reveal_strlit("application/vnd.rar"); assert(t != "application/vnd.rar"@) by { assert("application/vnd.rar"@.len() == 19); }
        reveal_strlit("application/x-rar"); assert(t != "application/x-rar"@) by { assert("application/x-rar"@.len() == 17); }
        reveal_strlit("application/x-7z-compressed"); assert(t != "application/x-7z-compressed"@) by { assert("application/x-7z-compressed"@.len() == 27); }
        reveal_strlit("application/x-7z"); assert(t != "application/x-7z"@) by { assert("application/x-7z"@.len() == 16); }
        reveal_strlit("application/x-tar"); assert(t != "application/x-tar"@) by { assert("application/x-tar"@.len() == 17); }
        reveal_strlit("application/gzip"); assert(t != "application/gzip"@) by { assert("application/gzip"@.len() == 16); }
        reveal_strlit("application/x-gzip"); assert(t != "application/x-gzip"@) by { assert("application/x-gzip"@.len() == 18); }
        reveal_strlit("application/x-msdownload"); assert(t != "application/x-msdownload"@) by { assert("application/x-msdownload"@.len() == 24); }
        reveal_strlit("application/x-msdos-program"); assert(t != "application/x-msdos-program"@) by { assert("application/x-msdos-program"@.len() == 27); }
        reveal_strlit("application/x-exe"); assert(t != "application/x-exe"@) by { assert("application/x-exe"@.len() == 17); }
        reveal_strlit("application/exe"); assert(t != "application/exe"@) by { assert("application/exe"@.len() == 15); }
        reveal_strlit("application/x-msi"); assert(t != "application/x-msi"@) by { assert("application/x-msi"@.len() == 17); }
        reveal_strlit("application/x-iso9660-image"); assert(t != "application/x-iso9660-image"@) by { assert("application/x-iso9660-image"@.len() == 27); }
        reveal_strlit("application/x-iso-image"); assert(t != "application/x-iso-image"@) by { assert("application/x-iso-image"@.len() == 23); }
        reveal_strlit("application/pdf"); assert(t != "application/pdf"@) by { assert("application/pdf"@.len() == 15); }
        reveal_strlit("video/mp4"); assert(t != "video/mp4"@) by { assert("video/mp4"@.len() == 9); }
        reveal_strlit("video/x-matroska"); assert(t != "video/x-matroska"@) by { assert("video/x-matroska"@.len() == 16); }
        reveal_strlit("video/webm"); assert(t != "video/webm"@) by { assert("video/webm"@.len() == 10); }
        reveal_strlit("video/quicktime"); assert(t != "video/quicktime"@) by { assert("video/quicktime"@.len() == 15); }
        reveal_strlit("video/x-msvideo"); assert(t != "video/x-msvideo"@) by { assert("video/x-msvideo"@.len() == 15); }
        reveal_strlit("audio/mpeg"); assert(t != "audio/mpeg"@) by { assert("audio/mpeg"@.len() == 10); }
        reveal_strlit("audio/mp3"); assert(t != "audio/mp3"@) by { assert("audio/mp3"@.len() == 9); }
        reveal_strlit("audio/wav"); assert(t != "audio/wav"@) by { assert("audio/wav"@.len() == 9); }
        reveal_strlit("audio/x-wav"); assert(t != "audio/x-wav"@) by { assert("audio/x-wav"@.len() == 11); }
        reveal_strlit("audio/flac"); assert(t != "audio/flac"@) by { assert("audio/flac"@.len() == 10); }
        reveal_strlit("audio/x-flac"); assert(t != "audio/x-flac"@) by { assert("audio/x-flac"@.len() == 12); }
        reveal_strlit("audio/aac"); assert(t != "audio/aac"@) by { assert("audio/aac"@.len() == 9); }
        reveal_strlit("image/jpeg"); assert(t != "image/jpeg"@) by { assert("image/jpeg"@.len() == 10); }
        reveal_strlit("image/png"); assert(t != "image/png"@) by { assert("image/png"@.len() == 9); }
        reveal_strlit("image/gif"); assert(t != "image/gif"@) by { assert("image/gif"@.len() == 9); }
        reveal_strlit("image/webp"); assert(t != "image/webp"@) by { assert("image/webp"@.len() == 10); }
        reveal_strlit("image/svg+xml"); assert(t != "image/svg+xml"@) by { assert("image/svg+xml"@.len() == 13); }
    }
    if t == "application/epub+zip"@ {
        reveal_strlit("application/epub+zip");
        assert(t.len() == 20 && t[0] == 'a' && t[1] == 'p' && t[2] == 'p' && t[3] == 'l' && t[4] == 'i' && t[5] == 'c' && t[6] == 'a' && t[7] == 't' && t[8] == 'i' && t[9] == 'o' && t[10] == 'n' && t[11] == '/' && t[12] == 'e' && t[13] == 'p' && t[14] == 'u' && t[15] == 'b' && t[16] == '+' && t[17] == 'z' && t[18] == 'i' && t[19] == 'p');
        reveal_strlit("application/zip"); assert(t != "application/zip"@) by { assert("application/zip"@.len() == 15); }
        reveal_strlit("application/x-zip-compressed"); assert(t != "application/x-zip-compressed"@) by { assert("application/x-zip-compressed"@.len() == 28); }
        reveal_strlit("application/x-zip"); assert(t != "application/x-zip"@) by { assert("application/x-zip"@.len() == 17); }
        reveal_strlit("application/x-rar-compressed"); assert(t != "application/x-rar-compressed"@) by { assert("application/x-rar-compressed"@.len() == 28); }
        reveal_strlit("application/vnd.rar"); assert(t != "application/vnd.rar"@) by { assert("application/vnd.rar"@.len() == 19); }
        reveal_strlit("application/x-rar"); assert(t != "application/x-rar"@) by { assert("application/x-rar"@.len() == 17); }
        reveal_strlit("application/x-7z-compressed"); assert(t != "application/x-7z-compressed"@) by { assert("application/x-7z-compressed"@.len() == 27); }
        reveal_strlit("application/x-7z"); assert(t != "application/x-7z"@) by { assert("application/x-7z"@.len() == 16); }
        reveal_strlit("application/x-tar"); assert(t != "application/x-tar"@) by { assert("application/x-tar"@.len() == 17); }
        reveal_strlit("application/gzip"); assert(t != "application/gzip"@) by { assert("application/gzip"@.len() == 16); }
        reveal_strlit("application/x-gzip"); assert(t != "application/x-gzip"@) by { assert("application/x-gzip"@.len() == 18); }
        reveal_strlit("application/x-msdownload"); assert(t != "application/x-msdownload"@) by { assert("application/x-msdownload"@.len() == 24); }
        reveal_strlit("application/x-msdos-program"); assert(t != "application/x-msdos-program"@) by { assert("application/x-msdos-program"@.len() == 27); }
        reveal_strlit("application/x-exe"); assert(t != "application/x-exe"@) by { assert("application/x-exe"@.len() == 17); }
        reveal_strlit("application/exe"); assert(t != "application/exe"@) by { assert("application/exe"@.len() == 15); }
        reveal_strlit("application/x-msi"); assert(t != "application/x-msi"@) by { assert("application/x-msi"@.len() == 17); }
        reveal_strlit("application/x-iso9660-image"); assert(t != "application/x-iso9660-image"@) by { assert("application/x-iso9660-image"@.len() == 27); }
        reveal_strlit("application/x-iso-image"); assert(t != "application/x-iso-image"@) by { assert("application/x-iso-image"@.len() == 23); }
        reveal_strlit("application/pdf"); assert(t != "application/pdf"@) by { assert("application/pdf"@.len() == 15); }
        reveal_strlit("video/mp4"); assert(t != "video/mp4"@) by { assert("video/mp4"@.len() == 9); }
        reveal_strlit("video/x-matroska"); assert(t != "video/x-matroska"@) by { assert("video/x-matroska"@.len() == 16); }
        reveal_strlit("video/webm"); assert(t != "video/webm"@) by { assert("video/webm"@.len() == 10); }
        reveal_strlit("video/quicktime"); assert(t != "video/quicktime"@) by { assert("video/quicktime"@.len() == 15); }
        reveal_strlit("video/x-msvideo"); assert(t != "video/x-msvideo"@) by { assert("video/x-msvideo"@.len() == 15); }
        reveal_strlit("audio/mpeg"); assert(t != "audio/mpeg"@) by { assert("audio/mpeg"@.len() == 10); }
        reveal_strlit("audio/mp3"); assert(t != "audio/mp3"@) by { assert("audio/mp3"@.len() == 9); }
        reveal_strlit("audio/wav"); assert(t != "audio/wav"@) by { assert("audio/wav"@.len() == 9); }
        reveal_strlit("audio/x-wav"); assert(t != "audio/x-wav"@) by { assert("audio/x-wav"@.len() == 11); }
        reveal_strlit("audio/flac"); assert(t != "audio/flac"@) by { assert("audio/flac"@.len() == 10); }
        reveal_strlit("audio/x-flac"); assert(t != "audio/x-flac"@) by { assert("audio/x-flac"@.len() == 12); }
        reveal_strlit("audio/aac"); assert(t != "audio/aac"@) by { assert("audio/aac"@.len() == 9); }
        reveal_strlit("image/jpeg"); assert(t != "image/jpeg"@) by { assert("image/jpeg"@.len() == 10); }
        reveal_strlit("image/png"); assert(t != "image/png"@) by { assert("image/png"@.len() == 9); }
        reveal_strlit("image/gif"); assert(t != "image/gif"@) by { assert("image/gif"@.len() == 9); }
        reveal_strlit("image/webp"); assert(t != "image/webp"@) by { assert("image/webp"@.len() == 10); }
        reveal_strlit("image/svg+xml"); assert(t != "image/svg+xml"@) by { assert("image/svg+xml"@.len() == 13); }
        reveal_strlit("application/vnd.android.package-archive"); assert(t != "application/vnd.android.package-archive"@) by { assert("application/vnd.android.package-archive"@.len() == 39); }
    }
}

} // verus!
