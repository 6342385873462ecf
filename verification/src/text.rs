//! Character-sequence toolkit: the string operations the rest of the library
//! is written in, each proved against a spec over `Seq<char>`.
use vstd::prelude::*;

verus! {

// ------------------------------------------------------------------
// characters
// ------------------------------------------------------------------

/// `char::is_whitespace`: the Unicode White_Space property.
pub open spec fn is_ws(c: char) -> bool {
    let u = c as u32;
    ||| 9 <= u && u <= 13
    ||| u == 32
    ||| u == 0x85
    ||| u == 0xa0
    ||| u == 0x1680
    ||| 0x2000 <= u && u <= 0x200a
    ||| u == 0x2028
    ||| u == 0x2029
    ||| u == 0x202f
    ||| u == 0x205f
    ||| u == 0x3000
}

pub fn is_ws_char(c: char) -> (r: bool)
    ensures
        r == is_ws(c),
{
    let u = c as u32;
    (9 <= u && u <= 13) || u == 32 || u == 0x85 || u == 0xa0 || u == 0x1680 || (0x2000 <= u && u
        <= 0x200a) || u == 0x2028 || u == 0x2029 || u == 0x202f || u == 0x205f || u == 0x3000
}

pub open spec fn lower_char(c: char) -> char {
    if 'A' <= c && c <= 'Z' {
        ((c as u32) + 32) as char
    } else {
        c
    }
}

pub open spec fn upper_char(c: char) -> char {
    if 'a' <= c && c <= 'z' {
        ((c as u32) - 32) as char
    } else {
        c
    }
}

pub fn to_lower_char(c: char) -> (r: char)
    ensures
        r == lower_char(c),
{
    if 'A' <= c && c <= 'Z' {
        let b: u8 = c as u8;
        (b + 32) as char
    } else {
        c
    }
}

pub fn to_upper_char(c: char) -> (r: char)
    ensures
        r == upper_char(c),
{
    if 'a' <= c && c <= 'z' {
        let b: u8 = c as u8;
        (b - 32) as char
    } else {
        c
    }
}

/// ASCII lower-casing of a whole sequence (`to_ascii_lowercase`).
pub open spec fn lower(s: Seq<char>) -> Seq<char> {
    s.map_values(|c: char| lower_char(c))
}

/// ASCII upper-casing of a whole sequence (`to_ascii_uppercase`).
pub open spec fn upper(s: Seq<char>) -> Seq<char> {
    s.map_values(|c: char| upper_char(c))
}

pub fn lower_vec(v: &Vec<char>) -> (r: Vec<char>)
    ensures
        r@ == lower(v@),
{
    let mut r: Vec<char> = Vec::new();
    for i in 0..v.len()
        invariant
            r@ == lower(v@.take(i as int)),
    {
        r.push(to_lower_char(v[i]));
        assert(lower(v@.take(i + 1)) =~= lower(v@.take(i as int)).push(lower_char(v@[i as int])));
    }
    assert(v@.take(v.len() as int) =~= v@);
    r
}

pub fn upper_vec(v: &Vec<char>) -> (r: Vec<char>)
    ensures
        r@ == upper(v@),
{
    let mut r: Vec<char> = Vec::new();
    for i in 0..v.len()
        invariant
            r@ == upper(v@.take(i as int)),
    {
        r.push(to_upper_char(v[i]));
        assert(upper(v@.take(i + 1)) =~= upper(v@.take(i as int)).push(upper_char(v@[i as int])));
    }
    assert(v@.take(v.len() as int) =~= v@);
    r
}

// ------------------------------------------------------------------
// conversions between str / String and Vec<char>
// ------------------------------------------------------------------

pub fn chars_of(s: &str) -> (v: Vec<char>)
    ensures
        v@ == s@,
{
    let mut v: Vec<char> = Vec::new();
    for c in it: s.chars()
        invariant
            v@ == it.seq().take(it.index() as int),
            it.seq() == s@,
    {
        v.push(c);
    }
    v
}

/// Collects characters into a `String` (std's `FromIterator<&char> for String`):
/// the string holds exactly the given characters, in order.
#[verifier::external_body]
pub(crate) fn string_of(v: &Vec<char>) -> (s: String)
    ensures
        s@ == v@,
{
    v.iter().collect()
}

pub fn owned(s: &str) -> (r: String)
    ensures
        r@ == s@,
{
    let v = chars_of(s);
    string_of(&v)
}

// ------------------------------------------------------------------
// equality
// ------------------------------------------------------------------

pub fn vec_eq(a: &Vec<char>, b: &Vec<char>) -> (r: bool)
    ensures
        r == (a@ == b@),
{
    if a.len() != b.len() {
        return false;
    }
    for i in 0..a.len()
        invariant
            a.len() == b.len(),
            forall|j: int| 0 <= j < i ==> a@[j] == b@[j],
    {
        if a[i] != b[i] {
            return false;
        }
    }
    assert(a@ =~= b@);
    true
}

pub fn str_eq(a: &str, b: &str) -> (r: bool)
    ensures
        r == (a@ == b@),
{
    let va = chars_of(a);
    let vb = chars_of(b);
    vec_eq(&va, &vb)
}

/// `eq_ignore_ascii_case`.
pub fn eq_ignore_case(a: &Vec<char>, b: &Vec<char>) -> (r: bool)
    ensures
        r == (lower(a@) == lower(b@)),
{
    let la = lower_vec(a);
    let lb = lower_vec(b);
    let r = vec_eq(&la, &lb);
    r
}

// ------------------------------------------------------------------
// prefixes, suffixes, substrings
// ------------------------------------------------------------------

pub open spec fn starts_with(s: Seq<char>, p: Seq<char>) -> bool {
    p.len() <= s.len() && s.subrange(0, p.len() as int) == p
}

pub open spec fn ends_with(s: Seq<char>, p: Seq<char>) -> bool {
    p.len() <= s.len() && s.subrange(s.len() - p.len(), s.len() as int) == p
}

pub open spec fn occurs_at(s: Seq<char>, p: Seq<char>, i: int) -> bool {
    0 <= i && i + p.len() <= s.len() && s.subrange(i, i + p.len()) == p
}

pub open spec fn contains(s: Seq<char>, p: Seq<char>) -> bool {
    exists|i: int| occurs_at(s, p, i)
}

pub open spec fn first_occurrence(s: Seq<char>, p: Seq<char>, i: int) -> bool {
    occurs_at(s, p, i) && forall|j: int| 0 <= j < i ==> !occurs_at(s, p, j)
}

pub open spec fn last_occurrence(s: Seq<char>, p: Seq<char>, i: int) -> bool {
    occurs_at(s, p, i) && forall|j: int| i < j ==> !occurs_at(s, p, j)
}

/// `p` occurs in `s` at position `i`.
pub fn matches_at(v: &Vec<char>, p: &Vec<char>, i: usize) -> (r: bool)
    ensures
        r == occurs_at(v@, p@, i as int),
{
    if i > v.len() || p.len() > v.len() - i {
        return false;
    }
    for k in 0..p.len()
        invariant
            i + p.len() <= v.len(),
            forall|j: int| 0 <= j < k ==> v@[i + j] == p@[j],
    {
        if v[i + k] != p[k] {
            assert(v@.subrange(i as int, i + p.len())[k as int] != p@[k as int]);
            return false;
        }
    }
    assert(v@.subrange(i as int, i + p.len()) =~= p@);
    true
}

pub fn has_prefix(v: &Vec<char>, p: &Vec<char>) -> (r: bool)
    ensures
        r == starts_with(v@, p@),
{
    matches_at(v, p, 0)
}

pub fn has_suffix(v: &Vec<char>, p: &Vec<char>) -> (r: bool)
    ensures
        r == ends_with(v@, p@),
{
    if p.len() > v.len() {
        return false;
    }
    matches_at(v, p, v.len() - p.len())
}

/// `str::find` with a string pattern: the first position where `p` occurs.
pub fn find(v: &Vec<char>, p: &Vec<char>) -> (r: Option<usize>)
    ensures
        match r {
            Some(i) => first_occurrence(v@, p@, i as int),
            None => !contains(v@, p@),
        },
{
    if p.len() > v.len() {
        assert forall|i: int| !occurs_at(v@, p@, i) by {}
        return None;
    }
    let last = v.len() - p.len();
    let mut i: usize = 0;
    loop
        invariant
            last == v.len() - p.len(),
            p.len() <= v.len(),
            i <= last,
            forall|j: int| 0 <= j < i ==> !occurs_at(v@, p@, j),
        ensures
            forall|j: int| 0 <= j <= last ==> !occurs_at(v@, p@, j),
        decreases last - i,
    {
        if matches_at(v, p, i) {
            return Some(i);
        }
        if i == last {
            break;
        }
        i = i + 1;
    }
    assert forall|j: int| !occurs_at(v@, p@, j) by {
        if occurs_at(v@, p@, j) {
            assert(j <= last);
        }
    }
    None
}

pub fn has_sub(v: &Vec<char>, p: &Vec<char>) -> (r: bool)
    ensures
        r == contains(v@, p@),
{
    match find(v, p) {
        Some(_) => true,
        None => false,
    }
}

/// `str::rfind` with a string pattern: the last position where `p` occurs.
pub fn rfind(v: &Vec<char>, p: &Vec<char>) -> (r: Option<usize>)
    ensures
        match r {
            Some(i) => last_occurrence(v@, p@, i as int),
            None => !contains(v@, p@),
        },
{
    if p.len() > v.len() {
        assert forall|i: int| !occurs_at(v@, p@, i) by {}
        return None;
    }
    let mut j: usize = v.len() - p.len();
    loop
        invariant
            p.len() <= v.len(),
            j <= v.len() - p.len(),
            forall|k: int| j < k ==> !occurs_at(v@, p@, k),
        ensures
            forall|k: int| 0 <= k ==> !occurs_at(v@, p@, k),
        decreases j,
    {
        if matches_at(v, p, j) {
            return Some(j);
        }
        if j == 0 {
            break;
        }
        j = j - 1;
    }
    None
}

pub open spec fn char_first(s: Seq<char>, c: char, i: int) -> bool {
    0 <= i < s.len() && s[i] == c && forall|j: int| 0 <= j < i ==> s[j] != c
}

pub open spec fn char_last(s: Seq<char>, c: char, i: int) -> bool {
    0 <= i < s.len() && s[i] == c && forall|j: int| i < j < s.len() ==> s[j] != c
}

pub fn find_char(v: &Vec<char>, c: char) -> (r: Option<usize>)
    ensures
        match r {
            Some(i) => char_first(v@, c, i as int),
            None => !v@.contains(c),
        },
{
    for i in 0..v.len()
        invariant
            forall|j: int| 0 <= j < i ==> v@[j] != c,
    {
        if v[i] == c {
            return Some(i);
        }
    }
    None
}

pub fn has_char(v: &Vec<char>, c: char) -> (r: bool)
    ensures
        r == v@.contains(c),
{
    match find_char(v, c) {
        Some(_) => true,
        None => false,
    }
}

// ------------------------------------------------------------------
// building
// ------------------------------------------------------------------

pub fn slice(v: &Vec<char>, a: usize, b: usize) -> (r: Vec<char>)
    requires
        a <= b <= v.len(),
    ensures
        r@ == v@.subrange(a as int, b as int),
{
    let mut r: Vec<char> = Vec::new();
    for i in a..b
        invariant
            a <= b <= v.len(),
            r@ == v@.subrange(a as int, i as int),
    {
        r.push(v[i]);
        assert(v@.subrange(a as int, i + 1) =~= v@.subrange(a as int, i as int).push(v@[i as int]));
    }
    r
}

pub fn concat(a: &Vec<char>, b: &Vec<char>) -> (r: Vec<char>)
    ensures
        r@ == a@ + b@,
{
    let mut r = a.clone();
    for i in 0..b.len()
        invariant
            r@ == a@ + b@.take(i as int),
    {
        r.push(b[i]);
        assert(a@ + b@.take(i + 1) =~= (a@ + b@.take(i as int)).push(b@[i as int]));
    }
    assert(b@.take(b.len() as int) =~= b@);
    r
}

pub fn append(r: &mut Vec<char>, b: &Vec<char>)
    ensures
        final(r)@ == old(r)@ + b@,
{
    let ghost a = r@;
    for i in 0..b.len()
        invariant
            r@ == a + b@.take(i as int),
    {
        r.push(b[i]);
        assert(a + b@.take(i + 1) =~= (a + b@.take(i as int)).push(b@[i as int]));
    }
    assert(b@.take(b.len() as int) =~= b@);
}

pub fn append_str(r: &mut Vec<char>, s: &str)
    ensures
        final(r)@ == old(r)@ + s@,
{
    let v = chars_of(s);
    append(r, &v);
}

// ------------------------------------------------------------------
// trimming
// ------------------------------------------------------------------

/// What a trim removes: Unicode whitespace, one given character, the quoting
/// around a pasted URL (`< > " '`), or that plus brackets and parentheses.
#[derive(Clone, Copy, PartialEq, Eq, Structural)]
pub enum Strip {
    Ws,
    One(char),
    Quotes,
    Wrapping,
}

pub open spec fn strip_hit(k: Strip, c: char) -> bool {
    match k {
        Strip::Ws => is_ws(c),
        Strip::One(x) => c == x,
        Strip::Quotes => c == '<' || c == '>' || c == '"' || c == '\'',
        Strip::Wrapping => c == '"' || c == '\'' || c == '<' || c == '>' || c == '(' || c == ')'
            || c == '[' || c == ']',
    }
}

pub open spec fn trim_start_by(s: Seq<char>, k: Strip) -> Seq<char>
    decreases s.len(),
{
    if s.len() > 0 && strip_hit(k, s[0]) {
        trim_start_by(s.drop_first(), k)
    } else {
        s
    }
}

pub open spec fn trim_end_by(s: Seq<char>, k: Strip) -> Seq<char>
    decreases s.len(),
{
    if s.len() > 0 && strip_hit(k, s.last()) {
        trim_end_by(s.drop_last(), k)
    } else {
        s
    }
}

/// `str::trim_matches`: strip from both ends.
pub open spec fn trim_by(s: Seq<char>, k: Strip) -> Seq<char> {
    trim_end_by(trim_start_by(s, k), k)
}

/// `str::trim`.
pub open spec fn trim(s: Seq<char>) -> Seq<char> {
    trim_by(s, Strip::Ws)
}

pub fn strip_test(k: &Strip, c: char) -> (r: bool)
    ensures
        r == strip_hit(*k, c),
{
    match k {
        Strip::Ws => is_ws_char(c),
        Strip::One(x) => c == *x,
        Strip::Quotes => c == '<' || c == '>' || c == '"' || c == '\'',
        Strip::Wrapping => c == '"' || c == '\'' || c == '<' || c == '>' || c == '(' || c == ')'
            || c == '[' || c == ']',
    }
}

pub fn strip_start(v: &Vec<char>, k: &Strip) -> (r: Vec<char>)
    ensures
        r@ == trim_start_by(v@, *k),
{
    let mut i: usize = 0;
    assert(v@.skip(0) =~= v@);
    while i < v.len()
        invariant
            i <= v.len(),
            trim_start_by(v@, *k) == trim_start_by(v@.skip(i as int), *k),
        ensures
            i <= v.len(),
            trim_start_by(v@, *k) == trim_start_by(v@.skip(i as int), *k),
            i == v.len() || !strip_hit(*k, v@[i as int]),
        decreases v.len() - i,
    {
        if !strip_test(k, v[i]) {
            break;
        }
        assert(v@.skip(i as int).drop_first() =~= v@.skip(i + 1));
        i = i + 1;
    }
    assert(v@.skip(i as int) =~= v@.subrange(i as int, v.len() as int));
    slice(v, i, v.len())
}

pub fn strip_end(v: &Vec<char>, k: &Strip) -> (r: Vec<char>)
    ensures
        r@ == trim_end_by(v@, *k),
{
    let mut j: usize = v.len();
    assert(v@.take(v.len() as int) =~= v@);
    while j > 0
        invariant
            j <= v.len(),
            trim_end_by(v@, *k) == trim_end_by(v@.take(j as int), *k),
        ensures
            j <= v.len(),
            trim_end_by(v@, *k) == trim_end_by(v@.take(j as int), *k),
            j == 0 || !strip_hit(*k, v@[j - 1]),
        decreases j,
    {
        if !strip_test(k, v[j - 1]) {
            break;
        }
        assert(v@.take(j as int).drop_last() =~= v@.take(j - 1));
        j = j - 1;
    }
    assert(v@.take(j as int) =~= v@.subrange(0, j as int));
    slice(v, 0, j)
}

pub fn strip(v: &Vec<char>, k: &Strip) -> (r: Vec<char>)
    ensures
        r@ == trim_by(v@, *k),
{
    let a = strip_start(v, k);
    strip_end(&a, k)
}

pub fn trim_ws(v: &Vec<char>) -> (r: Vec<char>)
    ensures
        r@ == trim(v@),
{
    strip(v, &Strip::Ws)
}

// ------------------------------------------------------------------
// splitting
// ------------------------------------------------------------------

/// `str::split(c)`: the pieces between occurrences of `c`.
pub open spec fn split_seq(s: Seq<char>, c: char) -> Seq<Seq<char>>
    decreases s.len(),
{
    if exists|i: int| char_first(s, c, i) {
        let i = choose|i: int| char_first(s, c, i);
        seq![s.take(i)] + split_seq(s.skip(i + 1), c)
    } else {
        seq![s]
    }
}

pub proof fn lemma_char_first_unique(s: Seq<char>, c: char, i: int, k: int)
    requires
        char_first(s, c, i),
        char_first(s, c, k),
    ensures
        i == k,
{
    if i < k {
        assert(s[i] != c);
    } else if k < i {
        assert(s[k] != c);
    }
}

pub fn split_char(v: &Vec<char>, c: char) -> (r: Vec<Vec<char>>)
    ensures
        r.deep_view() == split_seq(v@, c),
{
    let mut r: Vec<Vec<char>> = Vec::new();
    let mut start: usize = 0;
    let mut i: usize = 0;
    assert(v@.skip(0) =~= v@);
    assert(r.deep_view() =~= Seq::<Seq<char>>::empty());
    while i < v.len()
        invariant
            start <= i <= v.len(),
            split_seq(v@, c) == r.deep_view() + split_seq(v@.skip(start as int), c),
            forall|j: int| start <= j < i ==> v@[j] != c,
        decreases v.len() - i,
    {
        if v[i] == c {
            let ghost rest = v@.skip(start as int);
            let ghost k = (i - start) as int;
            assert(char_first(rest, c, k));
            assert forall|m: int| char_first(rest, c, m) implies m == k by {
                lemma_char_first_unique(rest, c, m, k);
            }
            let piece = slice(v, start, i);
            assert(rest.take(k) =~= piece@);
            assert(rest.skip(k + 1) =~= v@.skip(i + 1));
            let ghost before = r.deep_view();
            assert(piece.deep_view() =~= piece@);
            r.push(piece);
            assert(r.deep_view() =~= before.push(piece@));
            assert(split_seq(rest, c) == seq![rest.take(k)] + split_seq(rest.skip(k + 1), c));
            assert(before + split_seq(rest, c) =~= r.deep_view() + split_seq(v@.skip(i + 1), c));
            start = i + 1;
        }
        i = i + 1;
    }
    let ghost rest = v@.skip(start as int);
    assert forall|m: int| !char_first(rest, c, m) by {
        if char_first(rest, c, m) {
            assert(v@[start + m] == c);
        }
    }
    let piece = slice(v, start, v.len());
    assert(piece@ =~= rest);
    let ghost before = r.deep_view();
    assert(piece.deep_view() =~= piece@);
    r.push(piece);
    assert(r.deep_view() =~= before.push(piece@));
    assert(before + seq![rest] =~= r.deep_view());
    r
}

/// `str::splitn(2, c)`: the part before the first `c`, and what follows it if there is one.
pub open spec fn split_once_seq(s: Seq<char>, c: char) -> (Seq<char>, Option<Seq<char>>) {
    if exists|i: int| char_first(s, c, i) {
        let i = choose|i: int| char_first(s, c, i);
        (s.take(i), Some(s.skip(i + 1)))
    } else {
        (s, None)
    }
}

pub fn split_once_char(v: &Vec<char>, c: char) -> (r: (Vec<char>, Option<Vec<char>>))
    ensures
        r.0@ == split_once_seq(v@, c).0,
        match r.1 {
            Some(t) => split_once_seq(v@, c).1 == Some(t@),
            None => split_once_seq(v@, c).1 is None,
        },
{
    match find_char(v, c) {
        Some(i) => {
            assert forall|m: int| char_first(v@, c, m) implies m == i by {
                lemma_char_first_unique(v@, c, m, i as int);
            }
            assert(i < v.len());
            let a = slice(v, 0, i);
            let b = slice(v, i + 1, v.len());
            assert(a@ =~= v@.take(i as int));
            assert(b@ =~= v@.skip(i + 1));
            (a, Some(b))
        },
        None => {
            assert forall|m: int| !char_first(v@, c, m) by {
                if char_first(v@, c, m) {
                    assert(v@.contains(c));
                }
            }
            (v.clone(), None)
        },
    }
}

// ------------------------------------------------------------------
// decimal numbers
// ------------------------------------------------------------------

pub open spec fn is_digit(c: char) -> bool {
    '0' <= c && c <= '9'
}

pub open spec fn digit_val(c: char) -> nat {
    ((c as u32) - ('0' as u32)) as nat
}

pub open spec fn all_digits(s: Seq<char>) -> bool {
    forall|i: int| 0 <= i < s.len() ==> is_digit(s[i])
}

/// The number that a string of decimal digits denotes.
pub open spec fn digits_value(s: Seq<char>) -> nat
    decreases s.len(),
{
    if s.len() == 0 {
        0
    } else {
        digits_value(s.drop_last()) * 10 + digit_val(s.last())
    }
}

/// The digits of a number after an optional `+`, as `u64::from_str` reads them.
pub open spec fn unsigned_digits(s: Seq<char>) -> Seq<char> {
    if s.len() > 0 && s[0] == '+' {
        s.drop_first()
    } else {
        s
    }
}

/// `str::parse::<u64>`.
pub open spec fn parse_u64_spec(s: Seq<char>) -> Option<u64> {
    let d = unsigned_digits(s);
    if d.len() > 0 && all_digits(d) && digits_value(d) <= u64::MAX {
        Some(digits_value(d) as u64)
    } else {
        None
    }
}

/// `str::parse::<usize>`.
pub open spec fn parse_usize_spec(s: Seq<char>) -> Option<usize> {
    let d = unsigned_digits(s);
    if d.len() > 0 && all_digits(d) && digits_value(d) <= usize::MAX {
        Some(digits_value(d) as usize)
    } else {
        None
    }
}

proof fn lemma_digits_mono(s: Seq<char>, i: int, j: int)
    requires
        0 <= i <= j <= s.len(),
        all_digits(s),
    ensures
        digits_value(s.take(i)) <= digits_value(s.take(j)),
    decreases j - i,
{
    if i < j {
        lemma_digits_mono(s, i, j - 1);
        assert(s.take(j).drop_last() =~= s.take(j - 1));
    }
}

/// Reads the value of a run of digits; `None` once it passes `limit`.
fn digits_upto(d: &Vec<char>, limit: u64) -> (r: Option<u64>)
    requires
        all_digits(d@),
    ensures
        match r {
            Some(n) => n == digits_value(d@) && n <= limit,
            None => digits_value(d@) > limit,
        },
{
    let mut acc: u64 = 0;
    for i in 0..d.len()
        invariant
            all_digits(d@),
            acc == digits_value(d@.take(i as int)),
            acc <= limit,
    {
        assert(d@.take(i + 1).drop_last() =~= d@.take(i as int));
        let dv: u64 = (d[i] as u32 - '0' as u32) as u64;
        if dv > limit || acc > (limit - dv) / 10 {
            assert(acc * 10 + dv > limit) by (nonlinear_arith)
                requires
                    dv > limit || acc > (limit - dv) / 10,
                    dv <= 9,
            ;
            proof {
                lemma_digits_mono(d@, i + 1, d.len() as int);
                assert(d@.take(d.len() as int) =~= d@);
            }
            return None;
        }
        assert(acc * 10 + dv <= limit) by (nonlinear_arith)
            requires
                acc <= (limit - dv) / 10,
                dv <= 9,
        ;
        acc = acc * 10 + dv;
    }
    assert(d@.take(d.len() as int) =~= d@);
    Some(acc)
}

fn unsigned_part(v: &Vec<char>) -> (r: Vec<char>)
    ensures
        r@ == unsigned_digits(v@),
{
    if v.len() > 0 && v[0] == '+' {
        let r = slice(v, 1, v.len());
        assert(r@ =~= v@.drop_first());
        r
    } else {
        v.clone()
    }
}

fn check_digits(d: &Vec<char>) -> (r: bool)
    ensures
        r == all_digits(d@),
{
    for i in 0..d.len()
        invariant
            forall|j: int| 0 <= j < i ==> is_digit(d@[j]),
    {
        if !('0' <= d[i] && d[i] <= '9') {
            return false;
        }
    }
    true
}

pub fn parse_u64(v: &Vec<char>) -> (r: Option<u64>)
    ensures
        r == parse_u64_spec(v@),
{
    let d = unsigned_part(v);
    if d.len() == 0 || !check_digits(&d) {
        return None;
    }
    digits_upto(&d, u64::MAX)
}

pub fn parse_usize(v: &Vec<char>) -> (r: Option<usize>)
    ensures
        r == parse_usize_spec(v@),
{
    let d = unsigned_part(v);
    if d.len() == 0 || !check_digits(&d) {
        return None;
    }
    match digits_upto(&d, usize::MAX as u64) {
        Some(n) => Some(n as usize),
        None => None,
    }
}

pub open spec fn digit_char(n: nat) -> char {
    ((n % 10) + ('0' as u32)) as char
}

/// Decimal notation of a number, as `Display` prints it.
pub open spec fn dec(n: nat) -> Seq<char>
    decreases n,
{
    if n < 10 {
        seq![digit_char(n)]
    } else {
        dec(n / 10).push(digit_char(n))
    }
}

pub fn dec_u64(n: u64) -> (r: Vec<char>)
    ensures
        r@ == dec(n as nat),
    decreases n,
{
    let d: u8 = (n % 10) as u8;
    let c = (d + 48) as char;
    if n < 10 {
        let mut r: Vec<char> = Vec::new();
        r.push(c);
        assert(r@ =~= seq![digit_char(n as nat)]);
        r
    } else {
        let mut r = dec_u64(n / 10);
        r.push(c);
        r
    }
}

/// Decimal notation of a signed number, as `Display` prints it.
pub open spec fn dec_int(i: int) -> Seq<char> {
    if i < 0 {
        seq!['-'] + dec((-i) as nat)
    } else {
        dec(i as nat)
    }
}

pub fn dec_i64(i: i64) -> (r: Vec<char>)
    ensures
        r@ == dec_int(i as int),
{
    if i < 0 {
        let u: u64 = ((-(i + 1)) as u64) + 1;
        let d = dec_u64(u);
        let mut r: Vec<char> = Vec::new();
        r.push('-');
        append(&mut r, &d);
        r
    } else {
        dec_u64(i as u64)
    }
}

/// Two-digit, zero-padded decimal (`{:02}`) of a number below 100.
pub open spec fn dec2(n: nat) -> Seq<char> {
    if n < 10 {
        seq!['0'].add(dec(n))
    } else {
        dec(n)
    }
}

pub fn dec2_u64(n: u64) -> (r: Vec<char>)
    requires
        n < 100,
    ensures
        r@ == dec2(n as nat),
{
    let d = dec_u64(n);
    if n < 10 {
        let mut r: Vec<char> = Vec::new();
        r.push('0');
        append(&mut r, &d);
        r
    } else {
        d
    }
}

// ------------------------------------------------------------------
// positions, suffix stripping, replacement
// ------------------------------------------------------------------

/// Position of the first occurrence of `p` in `s` (when it occurs).
pub open spec fn find_idx(s: Seq<char>, p: Seq<char>) -> int {
    choose|i: int| first_occurrence(s, p, i)
}

/// Position of the last occurrence of `p` in `s` (when it occurs).
pub open spec fn rfind_idx(s: Seq<char>, p: Seq<char>) -> int {
    choose|i: int| last_occurrence(s, p, i)
}

pub proof fn lemma_find_idx(s: Seq<char>, p: Seq<char>, i: int)
    requires
        first_occurrence(s, p, i),
    ensures
        find_idx(s, p) == i,
{
    let k = find_idx(s, p);
    assert(first_occurrence(s, p, k));
    if k < i {
        assert(!occurs_at(s, p, k));
    } else if i < k {
        assert(!occurs_at(s, p, i));
    }
}

pub proof fn lemma_rfind_idx(s: Seq<char>, p: Seq<char>, i: int)
    requires
        last_occurrence(s, p, i),
    ensures
        rfind_idx(s, p) == i,
{
    let k = rfind_idx(s, p);
    assert(last_occurrence(s, p, k));
    if k < i {
        assert(!occurs_at(s, p, i));
    } else if i < k {
        assert(!occurs_at(s, p, k));
    }
}

/// `s.rsplit(p).next()`: what follows the last occurrence of `p`, or all of `s`.
pub open spec fn after_last(s: Seq<char>, p: Seq<char>) -> Seq<char> {
    if contains(s, p) {
        s.skip(rfind_idx(s, p) + p.len())
    } else {
        s
    }
}

pub fn after_last_vec(v: &Vec<char>, p: &Vec<char>) -> (r: Vec<char>)
    ensures
        r@ == after_last(v@, p@),
{
    match rfind(v, p) {
        Some(i) => {
            proof {
                lemma_rfind_idx(v@, p@, i as int);
            }
            assert(i + p.len() <= v.len());
            let r = slice(v, i + p.len(), v.len());
            assert(r@ =~= v@.skip(i + p.len()));
            r
        },
        None => v.clone(),
    }
}

/// `trim_end_matches` with a string pattern: strip repeated trailing copies of `p`.
pub open spec fn strip_suffix_all(s: Seq<char>, p: Seq<char>) -> Seq<char>
    decreases s.len(),
{
    if p.len() > 0 && ends_with(s, p) {
        strip_suffix_all(s.take(s.len() - p.len()), p)
    } else {
        s
    }
}

pub fn strip_suffix_all_vec(v: &Vec<char>, p: &Vec<char>) -> (r: Vec<char>)
    ensures
        r@ == strip_suffix_all(v@, p@),
{
    let mut end: usize = v.len();
    assert(v@.take(v.len() as int) =~= v@);
    if p.len() == 0 {
        return v.clone();
    }
    loop
        invariant
            p.len() > 0,
            end <= v.len(),
            strip_suffix_all(v@, p@) == strip_suffix_all(v@.take(end as int), p@),
        decreases end,
    {
        let cur = slice(v, 0, end);
        assert(cur@ =~= v@.take(end as int));
        if !has_suffix(&cur, p) {
            return cur;
        }
        assert(v@.take(end as int).take(end - p.len()) =~= v@.take(end - p.len()));
        end = end - p.len();
    }
}

/// `str::replace(c, r)` for a single character pattern.
pub open spec fn replace_char(s: Seq<char>, c: char, r: Seq<char>) -> Seq<char>
    decreases s.len(),
{
    if s.len() == 0 {
        Seq::empty()
    } else {
        replace_char(s.drop_last(), c, r) + (if s.last() == c {
            r
        } else {
            seq![s.last()]
        })
    }
}

pub fn replace_char_vec(v: &Vec<char>, c: char, rep: &Vec<char>) -> (r: Vec<char>)
    ensures
        r@ == replace_char(v@, c, rep@),
{
    let mut r: Vec<char> = Vec::new();
    for i in 0..v.len()
        invariant
            r@ == replace_char(v@.take(i as int), c, rep@),
    {
        assert(v@.take(i + 1).drop_last() =~= v@.take(i as int));
        if v[i] == c {
            append(&mut r, rep);
        } else {
            r.push(v[i]);
            assert(r@ =~= replace_char(v@.take(i as int), c, rep@) + seq![v@[i as int]]);
        }
    }
    assert(v@.take(v.len() as int) =~= v@);
    r
}

/// Every character of the sequence is ASCII.
pub open spec fn all_ascii(s: Seq<char>) -> bool {
    forall|i: int| 0 <= i < s.len() ==> (s[i] as u32) < 128
}

/// Whether a character sequence spells the given text.
pub fn eq_lit(v: &Vec<char>, lit: &str) -> (r: bool)
    ensures
        r == (v@ == lit@),
{
    let l = chars_of(lit);
    vec_eq(v, &l)
}

/// The characters of an optional string.
pub open spec fn opt_view(o: Option<String>) -> Option<Seq<char>> {
    match o {
        Some(s) => Some(s@),
        None => None,
    }
}

// ------------------------------------------------------------------
// Unicode lower-casing and file-name parts (std)
// ------------------------------------------------------------------

/// The text `str::to_lowercase` makes of a text (Unicode case mapping).
pub uninterp spec fn unicode_lower(s: Seq<char>) -> Seq<char>;

/// `str::to_lowercase`: the result is `unicode_lower` of the text, and on
/// ASCII text it is the ASCII lower-casing (std maps `A`..`Z` to `a`..`z`
/// and leaves every other ASCII character as it is).
#[verifier::external_body]
pub(crate) fn to_lowercase(s: &str) -> (r: String)
    ensures
        r@ == unicode_lower(s@),
        all_ascii(s@) ==> r@ == lower(s@),
{
    s.to_lowercase()
}

/// Position of the last `c` in `s` (when there is one).
pub open spec fn rchar_idx(s: Seq<char>, c: char) -> int {
    choose|i: int| char_last(s, c, i)
}

/// A sequence holding `c` has a last `c`.
pub proof fn lemma_last_exists(s: Seq<char>, c: char)
    requires
        s.contains(c),
    ensures
        exists|i: int| char_last(s, c, i),
    decreases s.len(),
{
    if s.last() == c {
        assert(char_last(s, c, s.len() - 1));
    } else {
        let j = choose|j: int| 0 <= j < s.len() && s[j] == c;
        assert(s.drop_last()[j] == c);
        lemma_last_exists(s.drop_last(), c);
        let i = choose|i: int| char_last(s.drop_last(), c, i);
        assert forall|j: int| i < j < s.len() implies s[j] != c by {
            if j < s.len() - 1 {
                assert(s[j] == s.drop_last()[j]);
            }
        }
        assert(char_last(s, c, i));
    }
}

/// The extension of a plain file name: what follows its last `.`,
/// none when it has no `.`, when that `.` is its first character, or
/// when the name is `..`.
pub open spec fn ext_rule(name: Seq<char>) -> Option<Seq<char>> {
    if name == ".."@ || !name.contains('.') {
        None
    } else if rchar_idx(name, '.') == 0 {
        None
    } else {
        Some(name.skip(rchar_idx(name, '.') + 1))
    }
}

/// The stem of a plain file name: what precedes its last `.`, the
/// whole name when it has no `.` or only a leading one, none for an empty
/// name, `.` or `..`.
pub open spec fn stem_rule(name: Seq<char>) -> Option<Seq<char>> {
    if name.len() == 0 || name == "."@ || name == ".."@ {
        None
    } else if !name.contains('.') || rchar_idx(name, '.') == 0 {
        Some(name)
    } else {
        Some(name.take(rchar_idx(name, '.')))
    }
}

/// A file name that every platform reads the same way as a path: a single
/// component, with no `/`, no `\` (a separator on Windows) and no `:` (a
/// drive prefix on Windows).
pub open spec fn plain_name(s: Seq<char>) -> bool {
    !s.contains('/') && !s.contains('\\') && !s.contains(':')
}

/// `Path::new(path).extension()` as text. For a plain name std documents it
/// as `ext_rule`. Other paths are split into components by the platform's
/// own rules (on Windows `\` and drive prefixes count, elsewhere they do
/// not), so nothing is stated of them.
#[verifier::external_body]
pub(crate) fn path_extension(path: &str) -> (r: Option<String>)
    ensures
        plain_name(path@) ==> opt_view(r) == ext_rule(path@),
{
    std::path::Path::new(path).extension().map(|e| e.to_string_lossy().into_owned())
}

/// `Path::new(path).file_stem()` as text. For a plain name std documents it
/// as `stem_rule`; other paths are read by the platform's own rules, and
/// nothing is stated of them.
#[verifier::external_body]
pub(crate) fn path_file_stem(path: &str) -> (r: Option<String>)
    ensures
        plain_name(path@) ==> opt_view(r) == stem_rule(path@),
{
    std::path::Path::new(path).file_stem().map(|e| e.to_string_lossy().into_owned())
}

/// `s` with every occurrence of `pat` (left to right, not overlapping)
/// replaced by `rep`.
pub open spec fn replace_all(s: Seq<char>, pat: Seq<char>, rep: Seq<char>) -> Seq<char>
    recommends
        pat.len() > 0,
    decreases s.len(),
    when pat.len() > 0
{
    if contains(s, pat) {
        let i = find_idx(s, pat);
        proof {
            lemma_find_idx_first(s, pat);
        }
        s.take(i) + rep + replace_all(s.skip(i + pat.len()), pat, rep)
    } else {
        s
    }
}

/// A pattern that occurs has a first occurrence, at `find_idx`.
pub proof fn lemma_find_idx_first(s: Seq<char>, p: Seq<char>)
    requires
        contains(s, p),
    ensures
        first_occurrence(s, p, find_idx(s, p)),
{
    let i = choose|i: int| occurs_at(s, p, i);
    lemma_first_from(s, p, i);
}

pub proof fn lemma_first_from(s: Seq<char>, p: Seq<char>, i: int)
    requires
        occurs_at(s, p, i),
    ensures
        first_occurrence(s, p, find_idx(s, p)),
    decreases i,
{
    if exists|j: int| 0 <= j < i && occurs_at(s, p, j) {
        let j = choose|j: int| 0 <= j < i && occurs_at(s, p, j);
        lemma_first_from(s, p, j);
    } else {
        assert(first_occurrence(s, p, i));
        lemma_find_idx(s, p, i);
    }
}

/// `s` with `rep` before every character and at the end (what replacing
/// the empty pattern does).
pub open spec fn interleave(s: Seq<char>, rep: Seq<char>) -> Seq<char>
    decreases s.len(),
{
    if s.len() == 0 {
        rep
    } else {
        interleave(s.drop_last(), rep) + seq![s.last()] + rep
    }
}

/// `str::replace`: every occurrence of `pat` replaced by `rep`; the empty
/// pattern matches before every character and at the end.
pub open spec fn replaced(s: Seq<char>, pat: Seq<char>, rep: Seq<char>) -> Seq<char> {
    if pat.len() == 0 {
        interleave(s, rep)
    } else {
        replace_all(s, pat, rep)
    }
}

fn interleave_vec(s: &Vec<char>, rep: &Vec<char>) -> (r: Vec<char>)
    ensures
        r@ == interleave(s@, rep@),
{
    let mut out = rep.clone();
    for i in 0..s.len()
        invariant
            out@ == interleave(s@.take(i as int), rep@),
    {
        proof {
            assert(s@.take(i + 1).drop_last() =~= s@.take(i as int));
            assert(s@.take(i + 1).last() == s@[i as int]);
        }
        out.push(s[i]);
        append(&mut out, rep);
        assert(out@ =~= interleave(s@.take(i + 1), rep@));
    }
    assert(s@.take(s@.len() as int) =~= s@);
    out
}

/// `str::replace` (see `replaced`).
pub fn replace_text(s: &Vec<char>, pat: &Vec<char>, rep: &Vec<char>) -> (r: Vec<char>)
    ensures
        r@ == replaced(s@, pat@, rep@),
    decreases s@.len(),
{
    if pat.len() == 0 {
        return interleave_vec(s, rep);
    }
    match find(s, pat) {
        Some(i) => {
            proof {
                lemma_find_idx(s@, pat@, i as int);
            }
            let head = slice(s, 0, i);
            let tail = slice(s, i + pat.len(), s.len());
            assert(tail@ =~= s@.skip(i + pat@.len()));
            let rest = replace_text(&tail, pat, rep);
            let mut out = head;
            append(&mut out, rep);
            append(&mut out, &rest);
            assert(out@ =~= s@.take(i as int) + rep@ + replace_all(s@.skip(i + pat@.len()), pat@, rep@));
            out
        },
        None => s.clone(),
    }
}


/// A base path that `Path::join` extends by a separator and the component
/// on every platform: not empty, not ending in `/` or `\`, not a bare drive
/// (`C:`), and not starting with `\\` (where Windows rebuilds verbatim paths).
pub open spec fn joins_plainly(base: Seq<char>) -> bool {
    &&& base.len() > 0
    &&& base.last() != '/' && base.last() != '\\'
    &&& !(base.len() == 2 && base[1] == ':')
    &&& !(base.len() >= 2 && base[0] == '\\' && base[1] == '\\')
}

/// `Path::new(base).join(comp)` as text. For such a base and a non-empty
/// plain component the result is the base, the platform's separator (`\` on
/// Windows, `/` elsewhere) and the component; which of the two separators
/// is not stated, nor anything of other inputs (absolute components replace
/// the base, and the rules differ between platforms).
#[verifier::external_body]
pub(crate) fn path_join(base: &str, comp: &str) -> (r: String)
    ensures
        joins_plainly(base@) && plain_name(comp@) && comp@.len() > 0 ==> (r@ == base@ + seq!['/']
            + comp@ || r@ == base@ + seq!['\\'] + comp@),
{
    std::path::Path::new(base).join(comp).to_string_lossy().into_owned()
}

} // verus!
