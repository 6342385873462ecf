//! File-type icons: the file name the shell is asked about for a file's
//! icon, and the pixel conversion of the icon it returns.
use vstd::prelude::*;
use crate::text::{chars_of, string_of, append, rchar_idx, lemma_last_exists, char_last};

verus! {

/// The name the shell is asked for an icon of: `dummy` followed by the file
/// name's last `.` and what comes after it, or `dummy.` and the whole name
/// when it has no `.`.
pub open spec fn icon_probe_name(filename: Seq<char>) -> Seq<char> {
    if filename.contains('.') {
        "dummy"@ + filename.skip(rchar_idx(filename, '.'))
    } else {
        "dummy."@ + filename
    }
}

pub fn icon_lookup_name(filename: &str) -> (r: String)
    ensures
        r@ == icon_probe_name(filename@),
{
    let v = chars_of(filename);
    let mut last: Option<usize> = None;
    for i in 0..v.len()
        invariant
            match last {
                Some(k) => k < i && v@[k as int] == '.' && forall|j: int| k < j < i ==> v@[j] != '.',
                None => forall|j: int| 0 <= j < i ==> v@[j] != '.',
            },
    {
        if v[i] == '.' {
            last = Some(i);
        }
    }
    match last {
        Some(k) => {
            proof {
                assert(v@.contains('.'));
                lemma_last_exists(v@, '.');
                assert(char_last(v@, '.', k as int));
                let m = rchar_idx(v@, '.');
                assert(char_last(v@, '.', m));
                if m < k {
                    assert(v@[k as int] != '.');
                } else if m > k {
                    assert(v@[m] != '.');
                }
            }
            let mut out = chars_of("dummy");
            let tail = crate::text::slice(&v, k, v.len());
            append(&mut out, &tail);
            assert(tail@ =~= v@.skip(k as int));
            string_of(&out)
        },
        None => {
            proof {
                if v@.contains('.') {
                    let j = choose|j: int| 0 <= j < v@.len() && v@[j] == '.';
                    assert(v@[j] != '.');
                }
            }
            let mut out = chars_of("dummy.");
            append(&mut out, &v);
            string_of(&out)
        },
    }
}

/// Some pixel of a 4-byte-per-pixel buffer has a non-zero alpha byte.
pub open spec fn any_alpha(b: Seq<u8>) -> bool {
    exists|p: int| 0 <= p < b.len() / 4 && #[trigger] b[4 * p + 3] > 0
}

/// The alpha a converted pixel gets: its own when the icon has an alpha
/// channel, else transparent for black and opaque for any other colour.
pub open spec fn pixel_alpha(b: Seq<u8>, p: int, has_alpha: bool) -> u8 {
    if has_alpha {
        b[4 * p + 3]
    } else if b[4 * p] == 0 && b[4 * p + 1] == 0 && b[4 * p + 2] == 0 {
        0
    } else {
        255
    }
}

/// Pixel `p` of `r` is pixel `p` of `b` with red and blue swapped and the
/// alpha of `pixel_alpha`.
pub open spec fn converted(r: Seq<u8>, b: Seq<u8>, p: int, has_alpha: bool) -> bool {
    &&& r[4 * p] == b[4 * p + 2]
    &&& r[4 * p + 1] == b[4 * p + 1]
    &&& r[4 * p + 2] == b[4 * p]
    &&& r[4 * p + 3] == pixel_alpha(b, p, has_alpha)
}

/// An icon's pixels from blue-green-red-alpha order to red-green-blue-alpha,
/// with the alpha of `pixel_alpha`.
pub fn bgra_to_rgba(bgra: &Vec<u8>) -> (r: Vec<u8>)
    requires
        bgra@.len() % 4 == 0,
    ensures
        r@.len() == bgra@.len(),
        forall|p: int| 0 <= p < bgra@.len() / 4 ==> #[trigger] converted(r@, bgra@, p, any_alpha(bgra@)),
{
    let len = bgra.len();
    let n = len / 4;
    assert(bgra@.len() == 4 * n) by (nonlinear_arith)
        requires
            n == bgra@.len() / 4,
            bgra@.len() % 4 == 0,
    ;
    let mut has_alpha = false;
    for p in 0..n
        invariant
            n == bgra@.len() / 4,
            bgra@.len() == 4 * n,
            len == bgra@.len(),
            has_alpha == exists|q: int| 0 <= q < p && #[trigger] bgra@[4 * q + 3] > 0,
    {
        if bgra[4 * p + 3] > 0 {
            has_alpha = true;
        }
    }
    assert(has_alpha == any_alpha(bgra@));
    let mut r: Vec<u8> = Vec::new();
    let mut p: usize = 0;
    while p < n
        invariant
            p <= n,
            n == bgra@.len() / 4,
            bgra@.len() == 4 * n,
            len == bgra@.len(),
            has_alpha == any_alpha(bgra@),
            r@.len() == 4 * p,
            forall|q: int| 0 <= q < p ==> #[trigger] converted(r@, bgra@, q, has_alpha),
        decreases n - p,
    {
        let b = bgra[4 * p];
        let g = bgra[4 * p + 1];
        let rd = bgra[4 * p + 2];
        let a = if has_alpha {
            bgra[4 * p + 3]
        } else if rd == 0 && g == 0 && b == 0 {
            0
        } else {
            255
        };
        let ghost before = r@;
        r.push(rd);
        r.push(g);
        r.push(b);
        r.push(a);
        proof {
            assert(r@ == before + seq![rd, g, b, a]);
            assert forall|q: int| 0 <= q < p + 1 implies #[trigger] converted(r@, bgra@, q, has_alpha) by {
                if q < p {
                    assert(converted(before, bgra@, q, has_alpha));
                    assert(r@[4 * q] == before[4 * q]);
                    assert(r@[4 * q + 1] == before[4 * q + 1]);
                    assert(r@[4 * q + 2] == before[4 * q + 2]);
                    assert(r@[4 * q + 3] == before[4 * q + 3]);
                } else {
                    assert(4 * q == before.len());
                }
            }
        }
        p = p + 1;
    }
    r
}

} // verus!
